use corerun::cgroup::{limits_of, CgroupConfig, CgroupManager};
use corerun::cli::{parse_args, parse_ports, CliValues, ContainerConfig};
use corerun::command::{Action, Failure, Outcome, Policy, Report};
use corerun::error::{ContainerError, ErrorKind};
use corerun::filesystem::FilesystemManager;
use corerun::namespace::{ChildEnd, Namespace, NamespaceConfig, NamespaceManager, PidNamespaceRole};
use corerun::network::{NetworkMode, PortMapping, Protocol};
use corerun::process::WaitOutcome;
use corerun::setup::run;
use corerun::setup::run::{
    after_stage, barrier_passed, conclude, find_stage, run_container, run_container_with_sync,
    supervise, BarrierRead, Launch, ParentAction, ParentEvent, ParentState, Stage, StageProgress,
};

fn values() -> CliValues {
    CliValues {
        rootfs: "/tmp/rfs".to_string(),
        command: "/bin/sh".to_string(),
        args: vec!["-c".to_string(), "echo hello".to_string()],
        hostname: None,
        memory: None,
        cpu: None,
        pids: None,
        log: None,
        volumes: vec![],
        network: None,
        ports: vec![],
    }
}

#[test]
fn the_request_is_taken_as_it_is() {
    let c = parse_args(CliValues {
        hostname: Some("box".to_string()),
        memory: Some(64),
        cpu: Some(50),
        pids: Some(50),
        log: Some(true),
        volumes: vec!["/host/data:/data:ro".to_string()],
        network: Some("none".to_string()),
        ports: vec!["18080:80/tcp".to_string()],
        ..values()
    });
    assert_eq!(
        c,
        ContainerConfig {
            rootfs: "/tmp/rfs".to_string(),
            command: "/bin/sh".to_string(),
            args: vec!["-c".to_string(), "echo hello".to_string()],
            hostname: Some("box".to_string()),
            memory_limit_mb: Some(64),
            pids_limit: Some(50),
            cpu_percent: Some(50),
            volumes: vec!["/host/data:/data:ro".to_string()],
            network_mode: NetworkMode::Disabled,
            ports: vec![PortMapping { host_port: 18080, container_port: 80, protocol: Protocol::TCP }],
            logs: Some(true),
        }
    );
    assert_eq!(c.hostname_or_default(), "box");
    assert!(c.has_limits());
}

#[test]
fn the_defaults_of_a_request() {
    let c = parse_args(values());
    assert_eq!(c.network_mode, NetworkMode::Bridge { network_name: "bridge".to_string() });
    assert_eq!(c.hostname_or_default(), "rust-container");
    assert!(!c.has_limits());
    assert!(c.ports.is_empty());
}

#[test]
fn network_modes_by_name() {
    assert_eq!(NetworkMode::parse("host"), NetworkMode::Host);
    assert_eq!(NetworkMode::parse("none"), NetworkMode::Disabled);
    assert_eq!(
        NetworkMode::parse("bridge"),
        NetworkMode::Bridge { network_name: "bridge".to_string() }
    );
    assert_eq!(
        NetworkMode::parse("container:container-1-2"),
        NetworkMode::Container { container_id: "container-1-2".to_string() }
    );
    assert_eq!(
        NetworkMode::parse("container:"),
        NetworkMode::Container { container_id: String::new() }
    );
    assert_eq!(
        NetworkMode::parse("weird"),
        NetworkMode::Bridge { network_name: "bridge".to_string() }
    );
    assert!(!NetworkMode::Host.isolates());
    assert!(NetworkMode::Disabled.isolates());
    assert!(NetworkMode::parse("bridge").isolates());
    assert!(NetworkMode::parse("container:x").isolates());
}

#[test]
fn ports_that_cannot_be_read_are_passed_over() {
    let specs: Vec<String> =
        ["8080:80", "oops", "53:53/udp", "1:2/sctp", "443:8443/TCP"].iter().map(|s| s.to_string()).collect();
    assert_eq!(
        parse_ports(&specs),
        vec![
            PortMapping { host_port: 8080, container_port: 80, protocol: Protocol::TCP },
            PortMapping { host_port: 53, container_port: 53, protocol: Protocol::UDP },
            PortMapping { host_port: 443, container_port: 8443, protocol: Protocol::TCP },
        ]
    );
}

#[test]
fn only_root_may_launch() {
    let c = parse_args(values());
    assert_eq!(run(&c, 1000, 4242, 1_700_000_000), Err(ContainerError::RootRequired));
    assert_eq!(run(&c, 1000, 4242, 1_700_000_000).unwrap_err().kind(), ErrorKind::RootRequired);
}

#[test]
fn a_launch_names_the_container() {
    let c = parse_args(values());
    assert_eq!(
        run(&c, 0, 4242, 1_700_000_000),
        Ok(Launch {
            container_id: "container-4242-1700000000".to_string(),
            isolate_net: true,
            ns_config: NamespaceConfig {
                isolate_pid: true,
                isolate_net: true,
                isolate_mount: true,
                isolate_uts: true,
                isolate_ipc: true,
                isolate_user: false,
            },
        })
    );
    let host = parse_args(CliValues { network: Some("host".to_string()), ..values() });
    let l = run(&host, 0, 1, 0).unwrap();
    assert_eq!(l.container_id, "container-1-0");
    assert!(!l.isolate_net);
    assert!(!l.ns_config.isolate_net);
    assert!(l.ns_config.isolate_pid);
}

#[test]
fn namespaces_in_their_order() {
    assert_eq!(
        NamespaceConfig::for_container(true).selected(),
        vec![Namespace::Mount, Namespace::Uts, Namespace::Ipc, Namespace::Network, Namespace::Pid]
    );
    assert_eq!(
        NamespaceConfig::for_container(false).selected(),
        vec![Namespace::Mount, Namespace::Uts, Namespace::Ipc, Namespace::Pid]
    );
    let all = NamespaceConfig { isolate_user: true, ..NamespaceConfig::for_container(true) };
    assert_eq!(all.selected().last(), Some(&Namespace::User));
    let s = NamespaceManager::unshare_namespaces(NamespaceConfig::for_container(false));
    assert_eq!(
        s.action,
        Action::Unshare {
            namespaces: vec![Namespace::Mount, Namespace::Uts, Namespace::Ipc, Namespace::Pid]
        }
    );
    let failed = Report::Performed {
        outcome: Outcome::Failed { reason: "EPERM".to_string(), missing: false },
        restored: true,
    };
    assert_eq!(
        s.judge(&failed),
        Err(ContainerError::NamespaceSetup {
            message: "Failed to unshare namespaces: EPERM".to_string()
        })
    );
    assert_eq!(
        NamespaceManager::set_hostname("rust-container").action,
        Action::SetHostname { name: "rust-container".to_string() }
    );
}

#[test]
fn the_fork_into_the_pid_namespace() {
    assert_eq!(NamespaceManager::enter_pid_namespace(None), PidNamespaceRole::Init);
    assert_eq!(
        NamespaceManager::enter_pid_namespace(Some(9)),
        PidNamespaceRole::Waiter { child: 9 }
    );
    assert_eq!(NamespaceManager::mirror_exit(ChildEnd::Exited { status: 0 }), 0);
    assert_eq!(NamespaceManager::mirror_exit(ChildEnd::Exited { status: 7 }), 7);
    assert_eq!(NamespaceManager::mirror_exit(ChildEnd::Signaled), 1);
    assert_eq!(NamespaceManager::mirror_exit(ChildEnd::Unknown), 1);
}

#[test]
fn limits_are_written_in_the_units_of_the_kernel() {
    let config = CgroupConfig::new("container-4242-1700000000".to_string())
        .with_memory_mb(64)
        .with_pids_limit(50);
    assert!(config.has_limits());
    let m = CgroupManager::new(config).unwrap();
    assert_eq!(m.path(), "/sys/fs/cgroup/container-4242-1700000000");
    let plan = m.setup();
    let actions: Vec<Action> = plan.iter().map(|s| s.action.clone()).collect();
    assert_eq!(
        actions,
        vec![
            Action::CreateDir { path: "/sys/fs/cgroup/container-4242-1700000000".to_string() },
            Action::Write {
                path: "/sys/fs/cgroup/container-4242-1700000000/memory.max".to_string(),
                content: "67108864".to_string()
            },
            Action::Write {
                path: "/sys/fs/cgroup/container-4242-1700000000/pids.max".to_string(),
                content: "50".to_string()
            },
        ]
    );
    assert_eq!(
        plan[1].policy,
        Policy::Required { failure: Failure::detailed(ErrorKind::Cgroup, "Failed to write memory.max: ") }
    );
}

#[test]
fn the_cpu_limit_is_a_quota_per_period() {
    let m = CgroupManager::new(CgroupConfig::new("c".to_string()).with_cpu_percent(50)).unwrap();
    let plan = m.setup();
    assert_eq!(plan.len(), 2);
    assert_eq!(
        plan[1].action,
        Action::Write { path: "/sys/fs/cgroup/c/cpu.max".to_string(), content: "50000 100000".to_string() }
    );
    let none = CgroupManager::new(CgroupConfig::new("c".to_string())).unwrap();
    assert_eq!(none.setup().len(), 1);
    assert!(!CgroupConfig::new("c".to_string()).has_limits());
}

#[test]
fn limits_that_do_not_fit_are_refused() {
    let e = ContainerError::Cgroup { message: "Resource limit is too large".to_string() };
    let big = CgroupConfig::new("c".to_string()).with_memory_mb(u64::MAX);
    assert_eq!(CgroupManager::new(big), Err(e.clone()));
    let fast = CgroupConfig::new("c".to_string()).with_cpu_percent(u64::MAX / 999);
    assert_eq!(CgroupManager::new(fast), Err(e));
    let edge = CgroupConfig::new("c".to_string()).with_memory_mb(17_592_186_044_415);
    let plan = CgroupManager::new(edge).unwrap().setup();
    assert_eq!(
        plan[1].action,
        Action::Write {
            path: "/sys/fs/cgroup/c/memory.max".to_string(),
            content: "18446744073708503040".to_string()
        }
    );
}

#[test]
fn a_process_joins_by_its_number() {
    let m = CgroupManager::new(CgroupConfig::new("c".to_string())).unwrap();
    assert_eq!(
        m.add_process(4242).action,
        Action::Append { path: "/sys/fs/cgroup/c/cgroup.procs".to_string(), content: "4242".to_string() }
    );
    let gone = Report::Performed {
        outcome: Outcome::Failed { reason: "ENOENT".to_string(), missing: true },
        restored: true,
    };
    let busy = Report::Performed {
        outcome: Outcome::Failed { reason: "EBUSY".to_string(), missing: false },
        restored: true,
    };
    let cleanup = m.cleanup();
    assert_eq!(cleanup.action, Action::RemoveDir { path: "/sys/fs/cgroup/c".to_string() });
    assert_eq!(cleanup.judge(&gone), Ok(()));
    assert_eq!(
        cleanup.judge(&busy),
        Err(ContainerError::Cgroup { message: "Failed to remove cgroup: EBUSY".to_string() })
    );
}

#[test]
fn the_root_is_pivoted_and_the_old_root_removed() {
    let plan = FilesystemManager::setup_container_filesystem("/tmp/rfs");
    let actions: Vec<Action> = plan.iter().map(|s| s.action.clone()).collect();
    let mount = |kind: &str, target: &str, options: &str| Action::Mount {
        source: kind.to_string(),
        target: target.to_string(),
        kind: kind.to_string(),
        options: options.to_string(),
    };
    assert_eq!(
        actions,
        vec![
            Action::Bind { source: "/tmp/rfs".to_string(), target: "/tmp/rfs".to_string() },
            Action::CreateDir { path: "/tmp/rfs/oldroot".to_string() },
            Action::PivotRoot { new_root: "/tmp/rfs".to_string(), put_old: "/tmp/rfs/oldroot".to_string() },
            Action::ChangeDir { path: "/".to_string() },
            mount("proc", "/proc", ""),
            mount("sysfs", "/sys", ""),
            mount("tmpfs", "/dev", ""),
            Action::CreateDir { path: "/dev/pts".to_string() },
            mount("devpts", "/dev/pts", "newinstance,ptmxmode=0666,mode=0620,gid=5"),
            Action::Symlink { target: "/dev/pts/ptmx".to_string(), link: "/dev/ptmx".to_string() },
            Action::Unmount { target: "/oldroot".to_string() },
            Action::RemoveDir { path: "/oldroot".to_string() },
        ]
    );
    assert_eq!(
        plan[4].policy,
        Policy::Required { failure: Failure::detailed(ErrorKind::Filesystem, "Failed to mount /proc: ") }
    );
}

fn full() -> ContainerConfig {
    parse_args(CliValues {
        memory: Some(64),
        volumes: vec!["/host/data:/data:ro".to_string()],
        ..values()
    })
}

#[test]
fn the_child_waits_at_the_barrier_before_it_touches_its_root() {
    let ns = NamespaceConfig::for_container(true);
    let stages = run_container_with_sync(&full(), ns);
    assert_eq!(
        stages,
        vec![
            Stage::SetupCgroup,
            Stage::PrepareVolumes,
            Stage::Unshare { config: ns },
            Stage::AwaitBarrier,
            Stage::EnterPidNamespace,
            Stage::SetHostname,
            Stage::SetupFilesystem,
            Stage::BindVolumes,
            Stage::Execute,
            Stage::ReleaseVolumes,
        ]
    );
    let barrier = stages.iter().position(|s| *s == Stage::AwaitBarrier).unwrap();
    for touching in [Stage::SetupFilesystem, Stage::BindVolumes, Stage::Execute, Stage::ReleaseVolumes] {
        assert!(barrier < stages.iter().position(|s| *s == touching).unwrap());
    }
    let bare = run_container_with_sync(&parse_args(values()), ns);
    assert_eq!(
        bare,
        vec![
            Stage::Unshare { config: ns },
            Stage::AwaitBarrier,
            Stage::EnterPidNamespace,
            Stage::SetHostname,
            Stage::SetupFilesystem,
            Stage::Execute,
        ]
    );
}

#[test]
fn on_the_host_network_there_is_no_barrier() {
    let ns = NamespaceConfig::for_container(false);
    let stages = run_container(&full(), ns);
    assert!(!stages.contains(&Stage::AwaitBarrier));
    assert_eq!(stages.len(), 9);
    assert_eq!(stages[2], Stage::Unshare { config: ns });
}

const CLEANUPS: [ParentAction; 3] =
    [ParentAction::CleanupNetwork, ParentAction::CleanupCgroup, ParentAction::CleanupVolumes];

fn release() -> StageProgress {
    StageProgress::Cleanup { stage: Stage::ReleaseVolumes, status: 1 }
}

fn discard() -> StageProgress {
    StageProgress::Cleanup { stage: Stage::DiscardVolumes, status: 1 }
}

#[test]
fn a_failed_stage_ends_the_child() {
    let stages = run_container_with_sync(&parse_args(values()), NamespaceConfig::for_container(true));
    let failed = Err(ContainerError::Filesystem { message: "x".to_string() });
    assert_eq!(after_stage(&stages, 0, &Ok(())), StageProgress::Enter { index: 1 });
    assert_eq!(after_stage(&stages, 5, &Ok(())), StageProgress::Exit { status: 0 });
    for index in 0..stages.len() {
        assert_eq!(after_stage(&stages, index, &failed), StageProgress::Exit { status: 1 });
    }
}

#[test]
fn volumes_are_cleaned_up_on_every_exit_path() {
    let stages = run_container_with_sync(&full(), NamespaceConfig::for_container(true));
    let failed = Err(ContainerError::ProcessExecution { message: "x".to_string() });
    assert_eq!(find_stage(&stages, Stage::PrepareVolumes), 1);
    assert_eq!(find_stage(&stages, Stage::BindVolumes), 7);
    assert_eq!(find_stage(&stages, Stage::ReleaseVolumes), 9);
    assert_eq!(find_stage(&stages, Stage::DiscardVolumes), stages.len());
    assert_eq!(after_stage(&stages, 0, &failed), StageProgress::Exit { status: 1 });
    for before_binding in 1..7 {
        assert_eq!(after_stage(&stages, before_binding, &failed), discard());
    }
    for bound in 7..9 {
        assert_eq!(after_stage(&stages, bound, &failed), release());
    }
    assert_eq!(after_stage(&stages, 9, &failed), StageProgress::Exit { status: 1 });
    assert_eq!(after_stage(&stages, 8, &Ok(())), StageProgress::Enter { index: 9 });
    assert_eq!(after_stage(&stages, 9, &Ok(())), StageProgress::Exit { status: 0 });
    let barrier = find_stage(&stages, Stage::AwaitBarrier);
    for index in 0..=barrier {
        assert_ne!(after_stage(&stages, index, &failed), release());
    }
}

#[test]
fn only_the_byte_lets_the_child_pass() {
    assert_eq!(barrier_passed(&BarrierRead::Byte), Ok(()));
    assert_eq!(
        barrier_passed(&BarrierRead::Eof),
        Err(ContainerError::NamespaceSetup { message: "Read 0 bytes from sync pipe".to_string() })
    );
    assert_eq!(
        barrier_passed(&BarrierRead::Failed { reason: "EBADF".to_string() }),
        Err(ContainerError::NamespaceSetup {
            message: "Failed to read from sync pipe: EBADF".to_string()
        })
    );
    let stages = run_container_with_sync(&full(), NamespaceConfig::for_container(true));
    let barrier = find_stage(&stages, Stage::AwaitBarrier);
    assert_eq!(after_stage(&stages, barrier, &barrier_passed(&BarrierRead::Eof)), discard());
    let bare = run_container_with_sync(&parse_args(values()), NamespaceConfig::for_container(true));
    assert_eq!(
        after_stage(&bare, 1, &barrier_passed(&BarrierRead::Eof)),
        StageProgress::Exit { status: 1 }
    );
    assert_eq!(
        after_stage(&bare, 1, &barrier_passed(&BarrierRead::Byte)),
        StageProgress::Enter { index: 2 }
    );
}

#[test]
fn a_run_ends_well_only_if_everything_did() {
    let bad = |m: &str| Err(ContainerError::Cgroup { message: m.to_string() });
    let payload = Err(ContainerError::ProcessExecution { message: "exit 1".to_string() });
    assert_eq!(conclude(Ok(()), &vec![]), Ok(()));
    assert_eq!(conclude(Ok(()), &vec![Ok(()), Ok(()), Ok(())]), Ok(()));
    assert_eq!(conclude(Ok(()), &vec![Ok(()), bad("a"), bad("b")]), bad("a"));
    assert_eq!(conclude(payload.clone(), &vec![Ok(())]), payload);
    assert_eq!(conclude(payload.clone(), &vec![bad("a")]), payload);
}

#[test]
fn the_limits_of_a_request() {
    let c = parse_args(CliValues { memory: Some(64), pids: Some(50), ..values() });
    assert_eq!(
        limits_of("container-1-2".to_string(), &c),
        CgroupConfig::new("container-1-2".to_string()).with_memory_mb(64).with_pids_limit(50)
    );
    assert_eq!(
        limits_of("x".to_string(), &parse_args(values())),
        CgroupConfig::new("x".to_string())
    );
    let all = parse_args(CliValues { memory: Some(1), cpu: Some(2), pids: Some(-3), ..values() });
    assert_eq!(
        limits_of("x".to_string(), &all),
        CgroupConfig {
            container_id: "x".to_string(),
            memory_limit_mb: Some(1),
            cpu_percent: Some(2),
            pids_limit: Some(-3),
        }
    );
}

#[test]
fn the_supervising_process_releases_the_barrier_when_the_network_is_ready() {
    let t = supervise(ParentState::Start, ParentEvent::Forked { child: 77 });
    assert_eq!(t.state, ParentState::Configuring { child: 77 });
    assert_eq!(
        t.actions,
        vec![
            ParentAction::CloseReadEnd,
            ParentAction::Sleep { millis: 300 },
            ParentAction::SetupNetwork { child: 77 },
        ]
    );
    assert_eq!(t.result, None);
    let t = supervise(t.state, ParentEvent::NetworkReady);
    assert_eq!(t.state, ParentState::Waiting { child: 77 });
    assert_eq!(
        t.actions,
        vec![
            ParentAction::ReleaseBarrier { byte: b'1' },
            ParentAction::CloseWriteEnd,
            ParentAction::Wait { child: 77 },
        ]
    );
    let t = supervise(t.state, ParentEvent::Waited { outcome: WaitOutcome::Exited { status: 0 } });
    assert_eq!(t.state, ParentState::Cleaning { ended: Ok(()) });
    assert_eq!(t.actions, CLEANUPS.to_vec());
    assert_eq!(t.result, None);
    let t = supervise(t.state, ParentEvent::CleanedUp { results: vec![Ok(()), Ok(()), Ok(())] });
    assert_eq!(t.state, ParentState::Done);
    assert!(t.actions.is_empty());
    assert_eq!(t.result, Some(Ok(())));
}

#[test]
fn a_cleanup_that_fails_fails_the_run() {
    let failed = Err(ContainerError::Cgroup { message: "Failed to remove cgroup: EBUSY".to_string() });
    let t = supervise(
        ParentState::Cleaning { ended: Ok(()) },
        ParentEvent::CleanedUp { results: vec![Ok(()), failed.clone(), Ok(())] },
    );
    assert_eq!(t.state, ParentState::Done);
    assert_eq!(t.result, Some(failed));
}

#[test]
fn a_network_that_cannot_be_set_up_kills_the_child() {
    let error = ContainerError::Network { message: "Failed to setup network: x".to_string() };
    let t = supervise(
        ParentState::Configuring { child: 77 },
        ParentEvent::NetworkFailed { error: error.clone() },
    );
    assert_eq!(t.state, ParentState::Cleaning { ended: Err(error.clone()) });
    assert_eq!(
        t.actions,
        vec![
            ParentAction::CloseWriteEnd,
            ParentAction::Kill { child: 77 },
            ParentAction::CleanupNetwork,
            ParentAction::CleanupCgroup,
            ParentAction::CleanupVolumes,
        ]
    );
    assert!(!t.actions.iter().any(|a| matches!(a, ParentAction::ReleaseBarrier { .. })));
    assert_eq!(t.result, None);
    let t = supervise(t.state, ParentEvent::CleanedUp { results: vec![Ok(()); 3] });
    assert_eq!(t.result, Some(Err(error)));
}

#[test]
fn the_run_ends_as_the_child_ends() {
    let exited = Err(ContainerError::ProcessExecution {
        message: "Container process exited with non-zero status: 1".to_string(),
    });
    let t = supervise(
        ParentState::Waiting { child: 5 },
        ParentEvent::Waited { outcome: WaitOutcome::Exited { status: 1 } },
    );
    assert_eq!(t.actions, CLEANUPS.to_vec());
    assert_eq!(t.state, ParentState::Cleaning { ended: exited.clone() });
    let t = supervise(t.state, ParentEvent::CleanedUp { results: vec![Ok(()); 3] });
    assert_eq!(t.result, Some(exited));
    let t = supervise(
        ParentState::Waiting { child: 5 },
        ParentEvent::Waited { outcome: WaitOutcome::Failed { reason: "ECHILD".to_string() } },
    );
    assert_eq!(t.actions, CLEANUPS.to_vec());
    assert_eq!(
        t.state,
        ParentState::Cleaning {
            ended: Err(ContainerError::ProcessExecution {
                message: "Wait failed: ECHILD".to_string()
            })
        }
    );
    let t = supervise(
        ParentState::Waiting { child: 5 },
        ParentEvent::Waited { outcome: WaitOutcome::Interrupted },
    );
    assert_eq!(t.state, ParentState::Waiting { child: 5 });
    assert_eq!(t.actions, vec![ParentAction::Wait { child: 5 }]);
    assert_eq!(t.result, None);
}

#[test]
fn a_failed_fork_and_events_out_of_turn() {
    let t = supervise(ParentState::Start, ParentEvent::ForkFailed { reason: "EAGAIN".to_string() });
    assert_eq!(t.state, ParentState::Done);
    assert!(t.actions.is_empty());
    assert_eq!(
        t.result,
        Some(Err(ContainerError::NamespaceSetup { message: "Fork failed: EAGAIN".to_string() }))
    );
    let t = supervise(ParentState::Start, ParentEvent::NetworkReady);
    assert_eq!((t.state, t.actions.len(), t.result), (ParentState::Start, 0, None));
    let t = supervise(ParentState::Waiting { child: 1 }, ParentEvent::NetworkReady);
    assert_eq!((t.state, t.actions.len(), t.result), (ParentState::Waiting { child: 1 }, 0, None));
    let t = supervise(ParentState::Done, ParentEvent::Forked { child: 3 });
    assert_eq!((t.state, t.actions.len(), t.result), (ParentState::Done, 0, None));
    let t = supervise(ParentState::Configuring { child: 1 }, ParentEvent::CleanedUp { results: vec![] });
    assert_eq!((t.state, t.actions.len(), t.result), (ParentState::Configuring { child: 1 }, 0, None));
    let t = supervise(ParentState::Cleaning { ended: Ok(()) }, ParentEvent::NetworkReady);
    assert_eq!(
        (t.state, t.actions.len(), t.result),
        (ParentState::Cleaning { ended: Ok(()) }, 0, None)
    );
}
