use funless_worker::errors::{classify_fault, EngineFault, EngineOp, WorkerError};

#[test]
fn timeout_is_timeout_on_every_step() {
    assert!(matches!(
        classify_fault(EngineOp::Create, EngineFault::Timeout),
        WorkerError::Timeout
    ));
    assert!(matches!(
        classify_fault(EngineOp::Logs, EngineFault::Timeout),
        WorkerError::Timeout
    ));
}

#[test]
fn transport_fault_is_connection_unavailable() {
    let fault = EngineFault::Transport { message: String::from("socket not found") };
    match classify_fault(EngineOp::Connect, fault) {
        WorkerError::ConnectionUnavailable { message } => {
            assert_eq!(message, "socket not found");
        }
        other => panic!("expected connection-unavailable, got {:?}", tag_of(&other)),
    }
}

#[test]
fn missing_image_on_pull_is_image_not_found() {
    let fault = EngineFault::Server { status: 404, message: String::from("no such image") };
    match classify_fault(EngineOp::Pull, fault) {
        WorkerError::ImageNotFound { message } => assert_eq!(message, "no such image"),
        other => panic!("expected image-not-found, got {:?}", tag_of(&other)),
    }
}

#[test]
fn conflicting_name_on_create_is_name_conflict() {
    let fault = EngineFault::Server { status: 409, message: String::from("name in use") };
    match classify_fault(EngineOp::Create, fault) {
        WorkerError::NameConflict { message } => assert_eq!(message, "name in use"),
        other => panic!("expected name-conflict, got {:?}", tag_of(&other)),
    }
}

#[test]
fn missing_container_on_kill_is_not_found() {
    let fault = EngineFault::Server { status: 404, message: String::from("no such container") };
    match classify_fault(EngineOp::Kill, fault) {
        WorkerError::NotFound { message } => assert_eq!(message, "no such container"),
        other => panic!("expected not-found, got {:?}", tag_of(&other)),
    }
}

#[test]
fn other_server_replies_pass_through_as_protocol_errors() {
    let fault = EngineFault::Server { status: 500, message: String::from("boom") };
    match classify_fault(EngineOp::Start, fault) {
        WorkerError::Protocol { status, message } => {
            assert_eq!(status, 500);
            assert_eq!(message, "boom");
        }
        other => panic!("expected protocol error, got {:?}", tag_of(&other)),
    }
}

fn tag_of(e: &WorkerError) -> &'static str {
    match e {
        WorkerError::ConnectionUnavailable { .. } => "connection-unavailable",
        WorkerError::ImageResolution { .. } => "image-resolution",
        WorkerError::ImageNotFound { .. } => "image-not-found",
        WorkerError::NameConflict { .. } => "name-conflict",
        WorkerError::NotFound { .. } => "not-found",
        WorkerError::Timeout => "timeout",
        WorkerError::NetworkConfigMissing => "network-config-missing",
        WorkerError::Protocol { .. } => "protocol",
        WorkerError::Compile { .. } => "compile",
        WorkerError::Link { .. } => "link",
        WorkerError::ResourceUnavailable => "resource-unavailable",
        WorkerError::InternalDispatch { .. } => "internal-dispatch",
    }
}
