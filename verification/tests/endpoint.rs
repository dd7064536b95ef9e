use funless_worker::endpoint::{
    extract_host_port, extract_rootless_host_port, resolve_endpoint, IpEndpoint, IsolationMode,
    NetworkConfig, PortSlot,
};

fn sample_settings() -> NetworkConfig {
    NetworkConfig {
        networks: Some(vec![(
            String::from("bridge"),
            IpEndpoint { ip_address: Some(String::from("172.17.0.2")) },
        )]),
        ports: Some(vec![(
            String::from("8080/tcp"),
            Some(vec![PortSlot {
                host_ip: Some(String::from("0.0.0.0")),
                host_port: Some(String::from("36719")),
            }]),
        )]),
    }
}

#[test]
fn test_extract_host_port() {
    let port_number = "36719";
    let ip_address = "172.17.0.2";
    let ns = Some(sample_settings());
    assert_eq!(
        Some((String::from(ip_address), String::from("8080"))),
        extract_host_port(ns),
        "extract rootful host and port"
    );
    let ns = Some(sample_settings());
    assert_eq!(
        Some((String::from("localhost"), String::from(port_number))),
        extract_rootless_host_port(ns),
        "extract rootless host and port"
    );
}

#[test]
fn rootless_missing_binding_is_nothing() {
    let ns = Some(NetworkConfig {
        networks: None,
        ports: Some(vec![(String::from("9090/tcp"), None)]),
    });
    assert_eq!(None, extract_rootless_host_port(ns));
}

#[test]
fn rootless_empty_binding_list_is_nothing() {
    let ns = Some(NetworkConfig {
        networks: None,
        ports: Some(vec![(String::from("8080/tcp"), Some(vec![]))]),
    });
    assert_eq!(None, extract_rootless_host_port(ns));
}

#[test]
fn rootful_missing_bridge_network_is_nothing() {
    let ns = Some(NetworkConfig {
        networks: Some(vec![(
            String::from("custom"),
            IpEndpoint { ip_address: Some(String::from("10.0.0.9")) },
        )]),
        ports: None,
    });
    assert_eq!(None, extract_host_port(ns));
}

#[test]
fn rootful_bridge_without_address_is_nothing() {
    let ns = Some(NetworkConfig {
        networks: Some(vec![(String::from("bridge"), IpEndpoint { ip_address: None })]),
        ports: None,
    });
    assert_eq!(None, extract_host_port(ns));
}

#[test]
fn absent_settings_are_nothing() {
    assert_eq!(None, extract_host_port(None));
    assert_eq!(None, extract_rootless_host_port(None));
}

#[test]
fn resolve_endpoint_follows_isolation_mode() {
    let rootful = resolve_endpoint(Some(sample_settings()), IsolationMode::Rootful);
    assert_eq!(Some((String::from("172.17.0.2"), String::from("8080"))), rootful);
    let rootless = resolve_endpoint(Some(sample_settings()), IsolationMode::Rootless);
    assert_eq!(Some((String::from("localhost"), String::from("36719"))), rootless);
}
