use corerun::error::{ContainerError, ErrorKind};
use corerun::network::network::NetworkConfig;
use corerun::network::{NetworkMode, PortMapping, Protocol};

#[test]
fn parses_host_and_container_port() {
    let m = PortMapping::parse("18080:80/tcp").unwrap();
    assert_eq!(m, PortMapping { host_port: 18080, container_port: 80, protocol: Protocol::TCP });
}

#[test]
fn protocol_defaults_to_tcp() {
    let m = PortMapping::parse("53:5353").unwrap();
    assert_eq!(m.protocol, Protocol::TCP);
    assert_eq!(m.host_port, 53);
    assert_eq!(m.container_port, 5353);
}

#[test]
fn reads_udp_in_any_case() {
    assert_eq!(PortMapping::parse("53:53/udp").unwrap().protocol, Protocol::UDP);
    assert_eq!(PortMapping::parse("53:53/UDP").unwrap().protocol, Protocol::UDP);
    assert_eq!(PortMapping::parse("53:53/Tcp").unwrap().protocol, Protocol::TCP);
}

#[test]
fn rejects_unknown_protocol() {
    let e = PortMapping::parse("80:80/sctp").unwrap_err();
    assert_eq!(e, ContainerError::Network { message: "Invalid protocol: sctp".to_string() });
    assert_eq!(e.kind(), ErrorKind::Network);
}

#[test]
fn rejects_wrong_shape() {
    let e = PortMapping::parse("80").unwrap_err();
    assert_eq!(
        e,
        ContainerError::Network {
            message: "Port mapping must be in format HOST:CONTAINER".to_string()
        }
    );
    assert!(PortMapping::parse("1:2:3").is_err());
}

#[test]
fn rejects_bad_numbers() {
    assert_eq!(
        PortMapping::parse("x:80").unwrap_err(),
        ContainerError::Network { message: "Invalid host port: x".to_string() }
    );
    assert_eq!(
        PortMapping::parse("80:65536").unwrap_err(),
        ContainerError::Network { message: "Invalid container port: 65536".to_string() }
    );
    assert_eq!(
        PortMapping::parse(":80").unwrap_err(),
        ContainerError::Network { message: "Invalid host port: ".to_string() }
    );
}

#[test]
fn a_request_collects_its_ports() {
    let mut config = NetworkConfig::parse("host").unwrap();
    assert_eq!(config.mode, NetworkMode::Host);
    assert!(config.ports.is_empty());
    assert_eq!(config.add_port_mapping("8080:80"), Ok(()));
    assert_eq!(
        config.add_port_mapping("8080"),
        Err(ContainerError::Network {
            message: "Port mapping must be in format HOST:CONTAINER".to_string()
        })
    );
    assert_eq!(
        config.ports,
        vec![PortMapping { host_port: 8080, container_port: 80, protocol: Protocol::TCP }]
    );
}

#[test]
fn a_second_slash_is_refused() {
    assert_eq!(
        PortMapping::parse("80:80/udp/whatever"),
        Err(ContainerError::Network {
            message: "Invalid port format: 80:80/udp/whatever".to_string()
        })
    );
    assert_eq!(
        PortMapping::parse("1:2/tcp/x"),
        Err(ContainerError::Network { message: "Invalid port format: 1:2/tcp/x".to_string() })
    );
    assert_eq!(
        PortMapping::parse("1:2/tcp/"),
        Err(ContainerError::Network { message: "Invalid port format: 1:2/tcp/".to_string() })
    );
    for bad in ["", "80", "x:80", "80:x", "80:80/", "80:80/sctp", "1:2:3", "/tcp", "70000:1"] {
        assert_eq!(PortMapping::parse(bad).unwrap_err().kind(), ErrorKind::Network, "{}", bad);
    }
    assert_eq!(
        PortMapping::parse("80:80/"),
        Err(ContainerError::Network { message: "Invalid protocol: ".to_string() })
    );
}
