use corerun::command::{Action, Condition, Failure, Policy, Step};
use corerun::error::{ContainerError, ErrorKind};
use corerun::volume::impl_volume::VolumeSetup;
use corerun::volume::{ImplVolume, MountMode, VolumeManager, VolumeMount};

const TAG: &str = "0b0e6f9e-3d6f-4a0e-9a33-0c2b7f8f1a11";

fn invalid(message: &str) -> ContainerError {
    ContainerError::InvalidConfiguration { message: message.to_string() }
}

fn explicit(source: &str, dest: &str, mode: MountMode) -> VolumeMount {
    VolumeMount { source: source.to_string(), dest: dest.to_string(), mode, is_anonymous: false }
}

#[test]
fn two_pieces_are_source_and_destination() {
    assert_eq!(
        VolumeMount::parse_with("/host/data:/data", "/tmp", TAG),
        Ok(explicit("/host/data", "/data", MountMode::ReadWrite))
    );
    assert_eq!(
        VolumeMount::parse_with("relative/src:/data", "/tmp", TAG),
        Ok(explicit("relative/src", "/data", MountMode::ReadWrite))
    );
}

#[test]
fn three_pieces_end_in_the_mode() {
    assert_eq!(
        VolumeMount::parse_with("/host/data:/data:ro", "/tmp", TAG),
        Ok(explicit("/host/data", "/data", MountMode::ReadOnly))
    );
    assert_eq!(
        VolumeMount::parse_with("/host/data:/data:rw", "/tmp", TAG),
        Ok(explicit("/host/data", "/data", MountMode::ReadWrite))
    );
}

#[test]
fn one_piece_is_an_anonymous_volume() {
    assert_eq!(
        VolumeMount::parse_with("/cache", "/tmp", TAG),
        Ok(VolumeMount {
            source: format!("/tmp/CoreRun/vol_{}", TAG),
            dest: "/cache".to_string(),
            mode: MountMode::ReadWrite,
            is_anonymous: true,
        })
    );
    assert_eq!(
        VolumeMount::create_anonymous_volume("/var/tmp/", "x"),
        "/var/tmp/CoreRun/vol_x"
    );
}

#[test]
fn an_anonymous_volume_is_named_by_a_fresh_uuid() {
    let a = VolumeMount::parse("/cache", "/tmp").unwrap();
    let b = VolumeMount::parse("/cache", "/tmp").unwrap();
    assert!(a.is_anonymous);
    assert_ne!(a.source, b.source);
    let tag = a.source.strip_prefix("/tmp/CoreRun/vol_").unwrap();
    assert_eq!(tag.len(), 36);
    for (i, c) in tag.chars().enumerate() {
        if [8, 13, 18, 23].contains(&i) {
            assert_eq!(c, '-');
        } else {
            assert!(c.is_ascii_digit() || ('a'..='f').contains(&c), "{}", tag);
        }
    }
    assert_eq!(
        VolumeMount::parse("/host/data:/data:ro", "/tmp"),
        Ok(explicit("/host/data", "/data", MountMode::ReadOnly))
    );
}

#[test]
fn volumes_that_are_refused() {
    assert_eq!(
        VolumeMount::parse_with("cache", "/tmp", TAG),
        Err(invalid("Container path must be absolute: cache"))
    );
    assert_eq!(
        VolumeMount::parse_with("", "/tmp", TAG),
        Err(invalid("Container path must be absolute: "))
    );
    assert_eq!(
        VolumeMount::parse_with("/a:b", "/tmp", TAG),
        Err(invalid("Container path must be absolute: b"))
    );
    assert_eq!(
        VolumeMount::parse_with("/a:b:ro", "/tmp", TAG),
        Err(invalid("Container path must be absolute: b"))
    );
    assert_eq!(
        VolumeMount::parse_with("/a:/b:rx", "/tmp", TAG),
        Err(invalid("Invalid mount mode: rx"))
    );
    assert_eq!(
        VolumeMount::parse_with("/a:b:rx", "/tmp", TAG),
        Err(invalid("Invalid mount mode: rx"))
    );
    assert_eq!(
        VolumeMount::parse_with("/a:/b:ro:x", "/tmp", TAG),
        Err(invalid("Invalid mount format"))
    );
    assert_eq!(VolumeMount::parse("cache", "/tmp").unwrap_err().kind(), ErrorKind::InvalidConfiguration);
}

fn of(action: Action, policy: Policy) -> Step {
    Step::of(action, policy)
}

#[test]
fn a_source_is_made_if_missing_and_must_be_a_directory() {
    let v = explicit("/host/data", "/data", MountMode::ReadWrite);
    let plan = VolumeManager::setup_volume(&v);
    assert_eq!(
        plan,
        vec![
            of(Action::Exists { path: "/host/data".to_string() }, Policy::Ignore),
            of(
                Action::CreateDir { path: "/host/data".to_string() },
                Policy::Required { failure: Failure::detailed(ErrorKind::Io, "") }
            )
            .when(Condition::AfterRefusal),
            of(
                Action::IsDir { path: "/host/data".to_string() },
                Policy::Confirmed {
                    failure: Failure::fixed(
                        ErrorKind::Volume,
                        "Volume source must be a directory: \"/host/data\""
                    )
                }
            ),
        ]
    );
}

#[test]
fn only_anonymous_sources_are_removed() {
    let v = explicit("/host/data", "/data", MountMode::ReadWrite);
    assert!(VolumeManager::cleanup_anonymous_volume(&v).is_empty());
    let a = VolumeMount::parse_with("/cache", "/tmp", TAG).unwrap();
    assert_eq!(
        VolumeManager::cleanup_anonymous_volume(&a),
        vec![of(Action::RemoveTree { path: a.source.clone() }, Policy::Ignore)]
    );
}

fn three() -> VolumeSetup {
    let specs =
        vec!["/host/data:/data:ro".to_string(), "/cache".to_string(), "/src:/dst".to_string()];
    let tags = vec!["t0".to_string(), "t1".to_string(), "t2".to_string()];
    ImplVolume::setup_volumes_with(&specs, "/tmp", &tags).unwrap()
}

#[test]
fn volumes_are_read_in_order() {
    let setup = three();
    assert_eq!(
        setup.volumes.volumes,
        vec![
            explicit("/host/data", "/data", MountMode::ReadOnly),
            VolumeMount {
                source: "/tmp/CoreRun/vol_t1".to_string(),
                dest: "/cache".to_string(),
                mode: MountMode::ReadWrite,
                is_anonymous: true,
            },
            explicit("/src", "/dst", MountMode::ReadWrite),
        ]
    );
    assert_eq!(setup.prepare.len(), 9);
    assert_eq!(setup.prepare[3].action, Action::Exists { path: "/tmp/CoreRun/vol_t1".to_string() });
}

#[test]
fn the_first_bad_volume_decides() {
    let specs = vec!["/a:/b".to_string(), "c".to_string(), "/d:/e:zz".to_string()];
    assert_eq!(
        ImplVolume::setup_volumes(&specs, "/tmp").err(),
        Some(invalid("Container path must be absolute: c"))
    );
    assert!(ImplVolume::setup_volumes(&vec![], "/tmp").unwrap().volumes.volumes.is_empty());
    let one = ImplVolume::setup_volumes(&vec!["/x".to_string()], "/tmp").unwrap();
    assert!(one.volumes.volumes[0].is_anonymous);
}

#[test]
fn missing_tags_count_as_empty() {
    let setup = ImplVolume::setup_volumes_with(&vec!["/x".to_string()], "/tmp", &vec![]).unwrap();
    assert_eq!(setup.volumes.volumes[0].source, "/tmp/CoreRun/vol_");
}

#[test]
fn a_read_only_volume_is_bound_and_then_remounted() {
    let setup = three();
    let plan = setup.volumes.setup_fs("/tmp/rfs");
    let actions: Vec<Action> = plan.iter().map(|s| s.action.clone()).collect();
    assert_eq!(
        actions,
        vec![
            Action::CreateDir { path: "/tmp/rfs/data".to_string() },
            Action::Bind { source: "/host/data".to_string(), target: "/tmp/rfs/data".to_string() },
            Action::RemountReadOnly { target: "/tmp/rfs/data".to_string() },
            Action::CreateDir { path: "/tmp/rfs/cache".to_string() },
            Action::Bind {
                source: "/tmp/CoreRun/vol_t1".to_string(),
                target: "/tmp/rfs/cache".to_string()
            },
            Action::CreateDir { path: "/tmp/rfs/dst".to_string() },
            Action::Bind { source: "/src".to_string(), target: "/tmp/rfs/dst".to_string() },
        ]
    );
    assert_eq!(
        plan[1].policy,
        Policy::Required { failure: Failure::detailed(ErrorKind::Volume, "Failed to mount volume: ") }
    );
    let v = &setup.volumes.volumes[0];
    assert_eq!(setup.volumes.mount_volume(v, "/tmp/rfs"), plan[0..3].to_vec());
}

#[test]
fn volumes_are_released_last_first() {
    let setup = three();
    let plan = setup.volumes.cleanup_volume("/tmp/rfs");
    let actions: Vec<Action> = plan.iter().map(|s| s.action.clone()).collect();
    assert_eq!(
        actions,
        vec![
            Action::Unmount { target: "/tmp/rfs/dst".to_string() },
            Action::Sleep { millis: 100 },
            Action::Unmount { target: "/tmp/rfs/cache".to_string() },
            Action::Sleep { millis: 100 },
            Action::RemoveTree { path: "/tmp/CoreRun/vol_t1".to_string() },
            Action::Unmount { target: "/tmp/rfs/data".to_string() },
            Action::Sleep { millis: 100 },
        ]
    );
    assert!(plan.iter().all(|s| s.policy == Policy::Ignore));
    let v = &setup.volumes.volumes[2];
    assert_eq!(setup.volumes.unmount_volume(v, "/tmp/rfs"), plan[0]);
}

#[test]
fn unbound_volumes_are_discarded_without_touching_the_root() {
    let setup = three();
    let plan = setup.volumes.discard();
    assert_eq!(
        plan,
        vec![of(Action::RemoveTree { path: "/tmp/CoreRun/vol_t1".to_string() }, Policy::Ignore)]
    );
    let none = ImplVolume { volumes: vec![explicit("/a", "/b", MountMode::ReadOnly)] };
    assert!(none.discard().is_empty());
}
