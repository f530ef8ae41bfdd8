use corerun::error::{ContainerError, ErrorKind};

#[test]
fn every_kind_has_its_label() {
    let m = "boom".to_string();
    let cases = vec![
        (ContainerError::RootRequired, ErrorKind::RootRequired, "Root privileges required"),
        (
            ContainerError::NamespaceSetup { message: m.clone() },
            ErrorKind::NamespaceSetup,
            "Namespace setup error: boom",
        ),
        (ContainerError::Cgroup { message: m.clone() }, ErrorKind::Cgroup, "Cgroup error: boom"),
        (
            ContainerError::Filesystem { message: m.clone() },
            ErrorKind::Filesystem,
            "Filesystem error: boom",
        ),
        (ContainerError::Volume { message: m.clone() }, ErrorKind::Volume, "Volume error: boom"),
        (ContainerError::Network { message: m.clone() }, ErrorKind::Network, "Network error: boom"),
        (
            ContainerError::ProcessExecution { message: m.clone() },
            ErrorKind::ProcessExecution,
            "Process execution error: boom",
        ),
        (
            ContainerError::InvalidConfiguration { message: m.clone() },
            ErrorKind::InvalidConfiguration,
            "Invalid configuration: boom",
        ),
        (ContainerError::Io { message: m.clone() }, ErrorKind::Io, "IO error: boom"),
    ];
    for (error, kind, line) in cases {
        assert_eq!(error.kind(), kind);
        assert_eq!(error.describe(), line);
        assert_eq!(ContainerError::of(kind, m.clone()), error);
    }
}

#[test]
fn messages_are_handed_back() {
    assert_eq!(ContainerError::RootRequired.message(), "");
    assert_eq!(ContainerError::network("x".to_string()).message(), "x");
    assert_eq!(
        ContainerError::process_execution("y".to_string()),
        ContainerError::ProcessExecution { message: "y".to_string() }
    );
}
