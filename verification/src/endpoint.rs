//! Endpoint resolver: a pure, total function extracting the reachable
//! host and port from a container's network configuration.
//!
//! In rootless mode no bridge-network device exists, so the container is
//! reached as `localhost` through the host port that the engine bound to the
//! container's well-known published port.  In rootful mode the container's
//! bridge-network address is directly routable and the well-known port itself
//! is used.

use vstd::prelude::*;

verus! {

/// What the resolver reads out of one network a container is attached to:
/// the container's internal address on that network.
#[derive(Debug)]
pub struct IpEndpoint {
    pub ip_address: Option<String>,
}

/// One host-side binding of a published container port.
#[derive(Debug)]
pub struct PortSlot {
    pub host_ip: Option<String>,
    pub host_port: Option<String>,
}

/// Network configuration of a container as reported by the container engine:
/// the networks it is attached to, keyed by network name, and the host
/// bindings of its published ports, keyed by `"<port>/<proto>"`.
///
/// Every field is optional because the engine omits what does not apply;
/// the resolver treats anything missing as "no endpoint".
#[derive(Debug)]
pub struct NetworkConfig {
    pub networks: Option<Vec<(String, IpEndpoint)>>,
    pub ports: Option<Vec<(String, Option<Vec<PortSlot>>)>>,
}

/// Whether the container engine runs unprivileged (rootless) or
/// privileged (rootful).  Decides how an endpoint is resolved.
#[derive(Debug, Clone, Copy, PartialEq, Eq, Structural)]
pub enum IsolationMode {
    Rootless,
    Rootful,
}

/// The value bound to the first entry of `s` whose key reads `key`,
/// if there is one.
pub open spec fn assoc_find<T>(s: Seq<(String, T)>, key: Seq<char>) -> Option<T>
    decreases s.len(),
{
    if s.len() <= 0 {
        None
    } else if s[0].0@ == key {
        Some(s[0].1)
    } else {
        assoc_find(s.skip(1), key)
    }
}

/// Looks `key` up in an association list.
fn assoc_get<'a, T>(entries: &'a Vec<(String, T)>, key: &String) -> (r: Option<&'a T>)
    ensures
        match r {
            Some(v) => assoc_find(entries@, key@) == Some(*v),
            None => assoc_find(entries@, key@) is None,
        },
{
    let n: usize = entries.len();
    let mut i: usize = 0;
    proof {
        assert(entries@.skip(0) =~= entries@);
    }
    while i < n
        invariant
            0 <= i <= n,
            n == entries@.len(),
            assoc_find(entries@.skip(i as int), key@) == assoc_find(entries@, key@),
        decreases n - i,
    {
        let e = &entries[i];
        if e.0 == *key {
            return Some(&e.1);
        }
        proof {
            assert(entries@.skip(i as int).skip(1) =~= entries@.skip(i as int + 1));
        }
        i = i + 1;
    }
    proof {
        assert(entries@.skip(n as int) =~= Seq::<(String, T)>::empty());
    }
    None
}

/// The endpoint a rootful engine exposes: the container's address on the
/// bridge network, together with the well-known published port.
pub open spec fn spec_rootful_endpoint(ns: Option<NetworkConfig>) -> Option<(Seq<char>, Seq<char>)> {
    match ns {
        None => None,
        Some(cfg) => match cfg.networks {
            None => None,
            Some(nets) => match assoc_find(nets@, "bridge"@) {
                None => None,
                Some(ep) => match ep.ip_address {
                    None => None,
                    Some(ip) => Some((ip@, "8080"@)),
                },
            },
        },
    }
}

/// The endpoint a rootless engine exposes: `localhost`, together with the
/// host port bound to the container's well-known published port.
pub open spec fn spec_rootless_endpoint(ns: Option<NetworkConfig>) -> Option<(Seq<char>, Seq<char>)> {
    match ns {
        None => None,
        Some(cfg) => match cfg.ports {
            None => None,
            Some(ports) => match assoc_find(ports@, "8080/tcp"@) {
                None => None,
                Some(None) => None,
                Some(Some(slots)) => if slots@.len() == 0 {
                    None
                } else {
                    match slots@[0].host_port {
                        None => None,
                        Some(p) => Some(("localhost"@, p@)),
                    }
                },
            },
        },
    }
}

/// Extracts host and port from a container's network configuration in
/// rootful mode: the bridge-network internal address and the fixed
/// well-known port.  Yields nothing when the bridge network is absent or
/// carries no address; the caller must treat that as a hard provisioning
/// error, never as a default.
pub fn extract_host_port(ns: Option<NetworkConfig>) -> (r: Option<(String, String)>)
    ensures
        r is Some <==> spec_rootful_endpoint(ns) is Some,
        r matches Some(hp) ==> spec_rootful_endpoint(ns) == Some((hp.0@, hp.1@)),
{
    match &ns {
        None => None,
        Some(cfg) => match &cfg.networks {
            None => None,
            Some(nets) => {
                let key: String = "bridge".to_owned();
                match assoc_get(nets, &key) {
                    None => None,
                    Some(ep) => match &ep.ip_address {
                        None => None,
                        Some(ip) => Some((ip.clone(), "8080".to_owned())),
                    },
                }
            },
        },
    }
}

/// Extracts host and port from a container's network configuration in
/// rootless mode: the literal host `localhost` and the engine-assigned host
/// port bound to the container's well-known published port.  Yields nothing
/// when that binding is missing.
pub fn extract_rootless_host_port(ns: Option<NetworkConfig>) -> (r: Option<(String, String)>)
    ensures
        r is Some <==> spec_rootless_endpoint(ns) is Some,
        r matches Some(hp) ==> spec_rootless_endpoint(ns) == Some((hp.0@, hp.1@)),
{
    match &ns {
        None => None,
        Some(cfg) => match &cfg.ports {
            None => None,
            Some(ports) => {
                let key: String = "8080/tcp".to_owned();
                match assoc_get(ports, &key) {
                    None => None,
                    Some(None) => None,
                    Some(Some(slots)) => {
                        if slots.len() == 0 {
                            None
                        } else {
                            match &slots[0].host_port {
                                None => None,
                                Some(p) => Some(("localhost".to_owned(), p.clone())),
                            }
                        }
                    },
                }
            },
        },
    }
}

/// The endpoint the given isolation mode exposes, as a single spec function.
pub open spec fn spec_endpoint(ns: Option<NetworkConfig>, mode: IsolationMode) -> Option<
    (Seq<char>, Seq<char>),
> {
    match mode {
        IsolationMode::Rootless => spec_rootless_endpoint(ns),
        IsolationMode::Rootful => spec_rootful_endpoint(ns),
    }
}

/// Resolves the reachable endpoint for the given isolation mode.
pub fn resolve_endpoint(ns: Option<NetworkConfig>, mode: IsolationMode) -> (r: Option<
    (String, String),
>)
    ensures
        r is Some <==> spec_endpoint(ns, mode) is Some,
        r matches Some(hp) ==> spec_endpoint(ns, mode) == Some((hp.0@, hp.1@)),
{
    match mode {
        IsolationMode::Rootless => extract_rootless_host_port(ns),
        IsolationMode::Rootful => extract_host_port(ns),
    }
}

} // verus!
