use funless_worker::container::{
    cleanup, cleanup_container, container_logs, finish_provision, get_image, mode_of_host,
    provision, setup_container, wait_container, Function,
};
use funless_worker::docker::{connect_to_docker, transport_kind, TransportKind};
use funless_worker::endpoint::{IpEndpoint, IsolationMode, NetworkConfig, PortSlot};
use funless_worker::errors::WorkerError;

#[test]
fn transport_is_chosen_by_endpoint_prefix() {
    assert_eq!(TransportKind::Remote, transport_kind("tcp://127.0.0.1:2375"));
    assert_eq!(TransportKind::Remote, transport_kind("http://engine:2375"));
    assert_eq!(TransportKind::Local, transport_kind("/var/run/docker.sock"));
    assert_eq!(TransportKind::Local, transport_kind("unix:///var/run/docker.sock"));
}

#[test]
fn only_the_privileged_socket_is_rootful() {
    assert_eq!(IsolationMode::Rootful, mode_of_host("unix:///var/run/docker.sock"));
    assert_eq!(IsolationMode::Rootless, mode_of_host("/run/user/1001/docker.sock"));
    assert_eq!(IsolationMode::Rootless, mode_of_host("tcp://127.0.0.1:2375"));
}

#[test]
fn connecting_to_a_missing_socket_is_an_error_not_a_crash() {
    assert!(connect_to_docker("/nonexistent/docker.sock").is_err());
}

#[test]
fn finish_provision_builds_the_descriptor_from_the_resolved_endpoint() {
    let ns = Some(NetworkConfig {
        networks: Some(vec![(
            String::from("bridge"),
            IpEndpoint { ip_address: Some(String::from("172.17.0.2")) },
        )]),
        ports: Some(vec![(
            String::from("8080/tcp"),
            Some(vec![PortSlot {
                host_ip: Some(String::from("0.0.0.0")),
                host_port: Some(String::from("36719")),
            }]),
        )]),
    });
    let d = finish_provision("fn-1", "openwhisk/action-nodejs-v16", "worker-net", ns,
        IsolationMode::Rootful).unwrap();
    assert_eq!(d.name, "fn-1");
    assert_eq!(d.image, "openwhisk/action-nodejs-v16");
    assert_eq!(d.network, "worker-net");
    assert_eq!(d.host, "172.17.0.2");
    assert_eq!(d.port, "8080");
}

#[test]
fn missing_endpoint_is_a_network_config_error() {
    let r = finish_provision("fn-1", "img", "net", None, IsolationMode::Rootless);
    assert!(matches!(r, Err(WorkerError::NetworkConfigMissing)));
}

#[test]
fn unmapped_runtime_name_fails_before_the_engine_is_contacted() {
    let function = Function {
        name: String::from("f"),
        image: String::from("python"),
        code: vec![],
        main_file: String::from("/opt/index.js"),
    };
    let r = provision(&function, "fn-1", "bridge", "/nonexistent/docker.sock",
        IsolationMode::Rootless);
    match r {
        Err(WorkerError::ImageResolution { image }) => assert_eq!(image, "python"),
        _ => panic!("expected an image-resolution error"),
    }
}

#[test]
fn cleanup_against_an_unreachable_engine_is_an_error_not_a_crash() {
    // `/dev/null` exists, so the connection object is built, but it is no
    // socket: every engine call fails at the transport.
    let conn = connect_to_docker("/dev/null").unwrap();
    assert!(cleanup(&conn, "funless-node-container").is_err());
    assert!(cleanup_container(&conn, "funless-node-container").is_err());
}

#[test]
fn log_and_image_calls_against_an_unreachable_engine_fail_cleanly() {
    let conn = connect_to_docker("/dev/null").unwrap();
    assert!(container_logs(&conn, "funless-node-container").is_err());
    assert!(get_image(&conn, "node:lts-alpine").is_err());
    assert!(setup_container(&conn, "funless-node-container", "node:lts-alpine",
        "/opt/index.js", vec![]).is_err());
}

#[test]
fn a_failing_wait_surfaces_as_an_error() {
    let conn = connect_to_docker("/dev/null").unwrap();
    assert!(matches!(
        wait_container(&conn, "funless-node-container"),
        Err(WorkerError::ConnectionUnavailable { .. })
    ));
}

#[test]
fn unreachable_engine_fails_provisioning_cleanly() {
    let function = Function {
        name: String::from("f"),
        image: String::from("nodejs"),
        code: vec![],
        main_file: String::from("/opt/index.js"),
    };
    let r = provision(&function, "fn-1", "bridge", "/nonexistent/docker.sock",
        IsolationMode::Rootless);
    assert!(matches!(r, Err(WorkerError::ConnectionUnavailable { .. })));
}
