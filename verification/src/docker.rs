//! Boundary to the container engine.
//!
//! Every call into the engine API goes through a trusted wrapper on
//! [`DockerConn`], which owns the engine connection together with a private,
//! single-threaded asynchronous runtime used solely to sequence this
//! connection's calls.  The wrappers convert engine values into plain library
//! values; what the engine decided is reported as an [`EngineFault`] and
//! classified by the caller.

use vstd::prelude::*;
use vstd::seq_lib::*;
use vstd::string::StringSliceAdditionalSpecFns;
use futures_util::stream::{StreamExt, TryStreamExt};

use crate::endpoint::{IpEndpoint, NetworkConfig, PortSlot};
use crate::errors::EngineFault;

verus! {

#[verifier::external_type_specification]
#[verifier::external_body]
pub struct ExDocker(bollard::Docker);

#[verifier::external_type_specification]
#[verifier::external_body]
pub struct ExBollardError(bollard::errors::Error);

#[verifier::external_type_specification]
#[verifier::external_body]
pub struct ExNetworkSettings(bollard::models::NetworkSettings);

#[verifier::external_type_specification]
#[verifier::external_body]
pub struct ExRuntime(tokio::runtime::Runtime);

#[verifier::external_type_specification]
#[verifier::external_body]
pub struct ExLogOutput(bollard::container::LogOutput);

/// Which transport reaches the engine endpoint: a remote HTTP address or a
/// local socket path.
#[derive(Debug, Clone, Copy, PartialEq, Eq, Structural)]
pub enum TransportKind {
    Remote,
    Local,
}

/// The stream a log line originated from.
#[derive(Debug, Clone, Copy, PartialEq, Eq, Structural)]
pub enum LogStream {
    Stdout,
    Stderr,
    Stdin,
    Console,
}

/// One line of a container's combined log, tagged by origin stream.
#[derive(Debug)]
pub struct LogLine {
    pub stream: LogStream,
    pub message: Vec<u8>,
}

/// Whether `p`'s bytes start `s`'s bytes.
pub open spec fn spec_has_prefix(s: &str, p: &str) -> bool {
    p.spec_bytes().is_prefix_of(s.spec_bytes())
}

/// Whether the string slice `s` starts with `p`.
pub fn has_prefix(s: &str, p: &str) -> (r: bool)
    ensures
        r == spec_has_prefix(s, p),
{
    let sb = s.as_bytes();
    let pb = p.as_bytes();
    let m: usize = pb.len();
    if m > sb.len() {
        return false;
    }
    let mut i: usize = 0;
    while i < m
        invariant
            0 <= i <= m,
            m == pb@.len() <= sb@.len(),
            sb@ == s.spec_bytes(),
            pb@ == p.spec_bytes(),
            forall|j: int| 0 <= j < i ==> sb@[j] == pb@[j],
        decreases m - i,
    {
        if sb[i] != pb[i] {
            return false;
        }
        i = i + 1;
    }
    proof {
        assert(pb@.is_prefix_of(sb@)) by {
            assert(pb@ =~= sb@.subrange(0, m as int));
        }
    }
    true
}

/// The transport the engine endpoint string selects: remote when it starts
/// with `tcp://` or `http://`, else a local socket.
pub open spec fn spec_transport_kind(path: &str) -> TransportKind {
    if spec_has_prefix(path, "tcp://") || spec_has_prefix(path, "http://") {
        TransportKind::Remote
    } else {
        TransportKind::Local
    }
}

/// Selects the transport for an engine endpoint string.
pub fn transport_kind(path: &str) -> (k: TransportKind)
    ensures
        k == spec_transport_kind(path),
{
    if has_prefix(path, "tcp://") || has_prefix(path, "http://") {
        TransportKind::Remote
    } else {
        TransportKind::Local
    }
}

/// Relies on bollard's `Error` enum: tells its timeout and server-reply
/// variants apart, moving the status code and message out; every other
/// variant is carried over as its display text.
#[verifier::external_body]
fn fault_of(e: bollard::errors::Error) -> (f: EngineFault) {
    match e {
        bollard::errors::Error::RequestTimeoutError => EngineFault::Timeout,
        bollard::errors::Error::DockerResponseServerError { status_code, message } => {
            EngineFault::Server { status: status_code, message }
        },
        other => EngineFault::Transport { message: other.to_string() },
    }
}

/// Relies on bollard's `NetworkSettings` model: copies the attached
/// networks' addresses and the published-port bindings into plain values,
/// key for key and field for field.
#[verifier::external_body]
fn settings_of(ns: bollard::models::NetworkSettings) -> (r: NetworkConfig) {
    NetworkConfig {
        networks: ns.networks.map(|m| m.into_iter()
            .map(|(k, v)| (k, IpEndpoint { ip_address: v.ip_address })).collect()),
        ports: ns.ports.map(|m| m.into_iter()
            .map(|(k, v)| (k, v.map(|bs| bs.into_iter()
                .map(|b| PortSlot { host_ip: b.host_ip, host_port: b.host_port })
                .collect())))
            .collect()),
    }
}

/// Relies on bollard's `LogOutput` enum: tags each variant and moves its
/// bytes out.
#[verifier::external_body]
fn line_of(l: bollard::container::LogOutput) -> (r: LogLine) {
    match l {
        bollard::container::LogOutput::StdOut { message } => {
            LogLine { stream: LogStream::Stdout, message: message.to_vec() }
        },
        bollard::container::LogOutput::StdErr { message } => {
            LogLine { stream: LogStream::Stderr, message: message.to_vec() }
        },
        bollard::container::LogOutput::StdIn { message } => {
            LogLine { stream: LogStream::Stdin, message: message.to_vec() }
        },
        bollard::container::LogOutput::Console { message } => {
            LogLine { stream: LogStream::Console, message: message.to_vec() }
        },
    }
}

/// Relies on tokio's current-thread runtime builder: a private,
/// single-threaded asynchronous runtime for one connection.
#[verifier::external_body]
fn new_runtime() -> (r: Result<tokio::runtime::Runtime, String>) {
    tokio::runtime::Builder::new_current_thread().enable_all().build().map_err(
        |e| e.to_string(),
    )
}

/// Relies on bollard's `Docker::connect_with_http` for `tcp://` and
/// `http://` endpoints.
#[verifier::external_body]
fn connect_http(addr: &str) -> (r: Result<bollard::Docker, EngineFault>) {
    bollard::Docker::connect_with_http(addr, 10, bollard::API_DEFAULT_VERSION).map_err(fault_of)
}

/// Relies on bollard's `Docker::connect_with_socket` for local socket
/// paths; a missing socket is reported as an error, not a panic.
#[verifier::external_body]
fn connect_socket(path: &str) -> (r: Result<bollard::Docker, EngineFault>) {
    bollard::Docker::connect_with_socket(path, 10, bollard::API_DEFAULT_VERSION).map_err(fault_of)
}

/// A connection to the container engine: the engine client plus the
/// private runtime that sequences its calls.  Built once per invocation and
/// never shared across invocations.
pub struct DockerConn {
    docker: bollard::Docker,
    rt: tokio::runtime::Runtime,
}

/// Opens a connection to the container engine reached by `docker_path`,
/// choosing the transport by the endpoint string's prefix.
pub fn connect_to_docker(docker_path: &str) -> (r: Result<DockerConn, EngineFault>) {
    let rt = match new_runtime() {
        Ok(rt) => rt,
        Err(message) => {
            return Err(EngineFault::Transport { message });
        },
    };
    let docker = match transport_kind(docker_path) {
        TransportKind::Remote => connect_http(docker_path),
        TransportKind::Local => connect_socket(docker_path),
    };
    match docker {
        Ok(docker) => Ok(DockerConn { docker, rt }),
        Err(f) => Err(f),
    }
}

impl DockerConn {
    /// Relies on bollard's `create_image`: pulls the image if absent,
    /// draining the progress stream and surfacing only final success or
    /// the first fault.
    #[verifier::external_body]
    pub(crate) fn pull_image_raw(&self, image: &str) -> (r: Result<(), EngineFault>) {
        let opts = bollard::query_parameters::CreateImageOptionsBuilder::new()
            .from_image(image).build();
        let progress = self.docker.create_image(Some(opts), None, None)
            .try_collect::<Vec<bollard::models::CreateImageInfo>>();
        self.rt.block_on(progress).map(|_| ()).map_err(fault_of)
    }

    /// Relies on bollard's `create_container`: creates a container under
    /// `name` from `image`, with the given port-publishing switch and
    /// optional command.
    #[verifier::external_body]
    pub(crate) fn create_raw(
        &self,
        name: &str,
        image: &str,
        publish_all_ports: Option<bool>,
        cmd: Option<Vec<String>>,
    ) -> (r: Result<(), EngineFault>) {
        let opts = bollard::query_parameters::CreateContainerOptionsBuilder::new()
            .name(name).build();
        let body = bollard::models::ContainerCreateBody {
            image: Some(image.to_owned()),
            cmd,
            host_config: publish_all_ports.map(|p| bollard::models::HostConfig {
                publish_all_ports: Some(p),
                ..Default::default()
            }),
            ..Default::default()
        };
        self.rt.block_on(self.docker.create_container(Some(opts), body))
            .map(|_| ()).map_err(fault_of)
    }

    /// Relies on bollard's `start_container`.
    #[verifier::external_body]
    pub(crate) fn start_raw(&self, name: &str) -> (r: Result<(), EngineFault>) {
        self.rt.block_on(self.docker.start_container(name, None)).map_err(fault_of)
    }

    /// Relies on bollard's `connect_network`: attaches the named container
    /// to the named network.
    #[verifier::external_body]
    pub(crate) fn attach_network_raw(&self, network: &str, name: &str) -> (r: Result<
        (),
        EngineFault,
    >) {
        let req = bollard::models::NetworkConnectRequest {
            container: name.to_owned(),
            endpoint_config: None,
        };
        self.rt.block_on(self.docker.connect_network(network, req)).map_err(fault_of)
    }

    /// Relies on bollard's `inspect_container`: hands back the container's
    /// live network configuration as plain values.
    #[verifier::external_body]
    pub(crate) fn inspect_raw(&self, name: &str) -> (r: Result<
        Option<NetworkConfig>,
        EngineFault,
    >) {
        self.rt.block_on(self.docker.inspect_container(name, None))
            .map(|resp| resp.network_settings.map(settings_of)).map_err(fault_of)
    }

    /// Relies on bollard's `logs`: fetches the full combined stdout and
    /// stderr log once, each line tagged by origin stream.
    #[verifier::external_body]
    pub(crate) fn logs_raw(&self, name: &str) -> (r: Result<Vec<LogLine>, EngineFault>) {
        let opts = bollard::query_parameters::LogsOptionsBuilder::new()
            .stdout(true).stderr(true).build();
        let collected = self.docker.logs(name, Some(opts))
            .try_collect::<Vec<bollard::container::LogOutput>>();
        self.rt.block_on(collected)
            .map(|v| v.into_iter().map(line_of).collect()).map_err(fault_of)
    }

    /// Relies on bollard's `upload_to_container`: unpacks the archive bytes
    /// under `path` inside the container.
    #[verifier::external_body]
    pub(crate) fn upload_raw(&self, name: &str, path: &str, archive: Vec<u8>) -> (r: Result<
        (),
        EngineFault,
    >) {
        let opts = bollard::query_parameters::UploadToContainerOptionsBuilder::new()
            .path(path).build();
        self.rt.block_on(self.docker.upload_to_container(
            name,
            Some(opts),
            bollard::body_full(archive.into()),
        )).map_err(fault_of)
    }

    /// Relies on bollard's `wait_container` with the not-running condition:
    /// blocks until the container has exited and surfaces the wait's first
    /// fault, if it reported one.
    #[verifier::external_body]
    pub(crate) fn wait_raw(&self, name: &str) -> (r: Result<(), EngineFault>) {
        let opts = bollard::query_parameters::WaitContainerOptionsBuilder::new()
            .condition("not-running").build();
        let (first, _) = self.rt.block_on(
            self.docker.wait_container(name, Some(opts)).into_future(),
        );
        match first {
            Some(Err(e)) => Err(fault_of(e)),
            _ => Ok(()),
        }
    }

    /// Relies on bollard's `kill_container`.
    #[verifier::external_body]
    pub(crate) fn kill_raw(&self, name: &str) -> (r: Result<(), EngineFault>) {
        self.rt.block_on(self.docker.kill_container(name, None)).map_err(fault_of)
    }

    /// Relies on bollard's `remove_container`.
    #[verifier::external_body]
    pub(crate) fn remove_raw(&self, name: &str) -> (r: Result<(), EngineFault>) {
        self.rt.block_on(self.docker.remove_container(name, None)).map_err(fault_of)
    }
}

} // verus!
