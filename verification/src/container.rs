//! Container lifecycle manager.
//!
//! Drives create, attach-network, start, inspect, logs and kill/remove
//! against the container engine, fail-fast and in a single pass: no step is
//! re-entered after an earlier failure, and every fault is classified by the
//! step it interrupted.

use vstd::prelude::*;

use crate::docker::{connect_to_docker, DockerConn, LogLine};
use crate::endpoint::{resolve_endpoint, spec_endpoint, IsolationMode, NetworkConfig};
use crate::errors::{classify_fault, EngineOp, WorkerError};
use crate::image::{select_image, spec_select_image, str_eq};

verus! {

/// A function descriptor: consumed once per provisioning call.
pub struct Function {
    /// Symbolic name of the function.
    pub name: String,
    /// Symbolic runtime name, resolved through the image table.
    pub image: String,
    /// Code archive or inline binary.
    pub code: Vec<u8>,
    /// Entry point path inside the execution environment.
    pub main_file: String,
}

/// A provisioned container: created only after a successful start and
/// inspect, destroyed on successful cleanup.
#[derive(Debug)]
pub struct ContainerDescriptor {
    /// Unique external key: at most one live container per name.
    pub name: String,
    /// The concrete image reference the container runs.
    pub image: String,
    /// The network the container was attached to.
    pub network: String,
    /// Resolved reachable host.
    pub host: String,
    /// Resolved reachable port.
    pub port: String,
}

/// The isolation mode an engine endpoint string implies: only the
/// well-known privileged local socket is rootful.
pub open spec fn spec_mode_of_host(docker_host: Seq<char>) -> IsolationMode {
    if docker_host == "unix:///var/run/docker.sock"@ {
        IsolationMode::Rootful
    } else {
        IsolationMode::Rootless
    }
}

/// Derives the isolation mode from the engine endpoint string.
pub fn mode_of_host(docker_host: &str) -> (m: IsolationMode)
    ensures
        m == spec_mode_of_host(docker_host@),
{
    if str_eq(docker_host, "unix:///var/run/docker.sock") {
        IsolationMode::Rootful
    } else {
        IsolationMode::Rootless
    }
}

/// Relies on std's `format!` to splice the entry file into the command the
/// container runs.
#[verifier::external_body]
fn node_command(main_file: &str) -> (r: String)
    ensures
        r@ == "require('"@ + main_file@ + "').main()"@,
{
    format!("require('{main_file}').main()")
}

/// Builds the descriptor of a freshly started container from its inspected
/// network configuration: the resolved endpoint is mandatory, and its
/// absence is a hard provisioning error, never a default value.
pub fn finish_provision(
    container_name: &str,
    image: &str,
    network_name: &str,
    ns: Option<NetworkConfig>,
    mode: IsolationMode,
) -> (r: Result<ContainerDescriptor, WorkerError>)
    ensures
        r is Ok <==> spec_endpoint(ns, mode) is Some,
        r matches Ok(d) ==> d.name@ == container_name@ && d.image@ == image@ && d.network@
            == network_name@ && spec_endpoint(ns, mode) == Some((d.host@, d.port@)),
        spec_endpoint(ns, mode) is None ==> r matches Err(WorkerError::NetworkConfigMissing),
{
    match resolve_endpoint(ns, mode) {
        Some(hp) => Ok(
            ContainerDescriptor {
                name: container_name.to_owned(),
                image: image.to_owned(),
                network: network_name.to_owned(),
                host: hp.0,
                port: hp.1,
            },
        ),
        None => Err(WorkerError::NetworkConfigMissing),
    }
}

/// Provisions a container for one invocation of `function`: resolves the
/// image, pulls it if absent, creates the container with port publishing
/// enabled exactly in rootless mode, starts it, attaches the requested
/// non-default network, inspects the live network configuration and
/// resolves the reachable endpoint.
///
/// Fail-fast, single pass: the first failing step aborts the pipeline, and
/// an unmapped runtime name fails before the engine is contacted.
pub fn provision(
    function: &Function,
    container_name: &str,
    network_name: &str,
    docker_host: &str,
    mode: IsolationMode,
) -> (r: Result<ContainerDescriptor, WorkerError>)
    ensures
        spec_select_image(function.image@) is None ==> (match r {
            Err(WorkerError::ImageResolution { image }) => image@ == function.image@,
            _ => false,
        }),
        r matches Err(WorkerError::ImageResolution { image }) ==> image@ == function.image@
            && spec_select_image(function.image@) is None,
        r matches Ok(d) ==> spec_select_image(function.image@) matches Some(img) && d.image@
            == img && d.name@ == container_name@ && d.network@ == network_name@,
        r matches Err(e) ==> (e is ImageResolution || e is NetworkConfigMissing || e is Timeout
            || e is ConnectionUnavailable || e is ImageNotFound || e is NameConflict
            || e is NotFound || e is Protocol),
{
    let image = match select_image(function.image.as_str()) {
        Some(image) => image,
        None => {
            return Err(WorkerError::ImageResolution { image: function.image.clone() });
        },
    };
    let conn = match connect_to_docker(docker_host) {
        Ok(conn) => conn,
        Err(f) => {
            return Err(classify_fault(EngineOp::Connect, f));
        },
    };
    if let Err(f) = conn.pull_image_raw(image) {
        return Err(classify_fault(EngineOp::Pull, f));
    }
    let publish = matches!(mode, IsolationMode::Rootless);
    if let Err(f) = conn.create_raw(container_name, image, Some(publish), None) {
        return Err(classify_fault(EngineOp::Create, f));
    }
    if let Err(f) = conn.start_raw(container_name) {
        return Err(classify_fault(EngineOp::Start, f));
    }
    if !str_eq(network_name, "bridge") {
        if let Err(f) = conn.attach_network_raw(network_name, container_name) {
            return Err(classify_fault(EngineOp::AttachNetwork, f));
        }
    }
    let ns = match conn.inspect_raw(container_name) {
        Ok(ns) => ns,
        Err(f) => {
            return Err(classify_fault(EngineOp::Inspect, f));
        },
    };
    finish_provision(container_name, image, network_name, ns, mode)
}

/// Ensures the image is present, pulling it if missing; progress is
/// streamed internally and only final success or failure surfaces, the
/// failure classified — an unknown reference yields the image-not-found
/// class.
pub fn get_image(conn: &DockerConn, image_name: &str) -> (r: Result<(), WorkerError>)
    ensures
        r matches Err(e) ==> (e is Timeout || e is ConnectionUnavailable || e is ImageNotFound
            || e is Protocol),
{
    match conn.pull_image_raw(image_name) {
        Ok(()) => Ok(()),
        Err(f) => Err(classify_fault(EngineOp::Pull, f)),
    }
}

/// Creates and starts a container that runs an uploaded code archive:
/// pulls the image, creates the container with the conventional entry
/// command for `main_file`, unpacks the archive into the container, and
/// starts it.  Fail-fast, single pass.
pub fn setup_container(
    conn: &DockerConn,
    container_name: &str,
    image_name: &str,
    main_file: &str,
    archive: Vec<u8>,
) -> (r: Result<(), WorkerError>)
    ensures
        r matches Err(e) ==> (e is Timeout || e is ConnectionUnavailable || e is ImageNotFound
            || e is NameConflict || e is NotFound || e is Protocol),
{
    if let Err(f) = conn.pull_image_raw(image_name) {
        return Err(classify_fault(EngineOp::Pull, f));
    }
    let cmd: Vec<String> = vec!["node".to_owned(), "-e".to_owned(), node_command(main_file)];
    if let Err(f) = conn.create_raw(container_name, image_name, None, Some(cmd)) {
        return Err(classify_fault(EngineOp::Create, f));
    }
    if let Err(f) = conn.upload_raw(container_name, "/opt", archive) {
        return Err(classify_fault(EngineOp::Upload, f));
    }
    if let Err(f) = conn.start_raw(container_name) {
        return Err(classify_fault(EngineOp::Start, f));
    }
    Ok(())
}

/// Blocks until the named container is no longer running.  A failing wait
/// surfaces as a tagged error: no failure path is silent.
pub fn wait_container(conn: &DockerConn, container_name: &str) -> (r: Result<(), WorkerError>)
    ensures
        r matches Err(e) ==> (e is Timeout || e is ConnectionUnavailable || e is NotFound
            || e is Protocol),
{
    match conn.wait_raw(container_name) {
        Ok(()) => Ok(()),
        Err(f) => Err(classify_fault(EngineOp::Wait, f)),
    }
}

/// Fetches the full combined stdout and stderr log of the named container
/// once, each line tagged by origin stream; no pagination.  Every error is
/// the classification of the fetch's engine fault.
pub fn container_logs(conn: &DockerConn, container_name: &str) -> (r: Result<
    Vec<LogLine>,
    WorkerError,
>)
    ensures
        r matches Err(e) ==> (e is Timeout || e is ConnectionUnavailable || e is NotFound
            || e is Protocol),
{
    match conn.logs_raw(container_name) {
        Ok(lines) => Ok(lines),
        Err(f) => Err(classify_fault(EngineOp::Logs, f)),
    }
}

/// Tears the named container down: kill, then remove, sequentially.  A
/// kill failure aborts the pipeline before remove is attempted.  Every
/// error is the classification of the failing step's engine fault — a
/// nonexistent name yields the not-found class.
pub fn cleanup(conn: &DockerConn, container_name: &str) -> (r: Result<(), WorkerError>)
    ensures
        r matches Err(e) ==> (e is Timeout || e is ConnectionUnavailable || e is NotFound
            || e is Protocol),
{
    if let Err(f) = conn.kill_raw(container_name) {
        return Err(classify_fault(EngineOp::Kill, f));
    }
    match conn.remove_raw(container_name) {
        Ok(()) => Ok(()),
        Err(f) => Err(classify_fault(EngineOp::Remove, f)),
    }
}

/// Removes the named container without killing it first, for containers
/// that have already exited.  The engine's answer to the one remove call
/// decides the result, classified — a nonexistent name yields the
/// not-found class.
pub fn cleanup_container(conn: &DockerConn, container_name: &str) -> (r: Result<(), WorkerError>)
    ensures
        r matches Err(e) ==> (e is Timeout || e is ConnectionUnavailable || e is NotFound
            || e is Protocol),
{
    match conn.remove_raw(container_name) {
        Ok(()) => Ok(()),
        Err(f) => Err(classify_fault(EngineOp::Remove, f)),
    }
}

} // verus!
