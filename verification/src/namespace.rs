//! The namespaces that a container leaves for new ones of its own.

use crate::command::{host_step, needed, Action, ActionView, Policy, Step, StepView};
use crate::error::ErrorKind;
use vstd::prelude::*;

verus! {

/// A kind of namespace.
#[derive(Debug, Clone, Copy, PartialEq, Eq, Structural)]
pub enum Namespace {
    Mount,
    Uts,
    Ipc,
    Network,
    Pid,
    User,
}

/// Which namespaces a container gets for itself.
#[derive(Debug, Clone, Copy, PartialEq, Eq, Structural)]
pub struct NamespaceConfig {
    pub isolate_pid: bool,
    pub isolate_net: bool,
    pub isolate_mount: bool,
    pub isolate_uts: bool,
    pub isolate_ipc: bool,
    pub isolate_user: bool,
}

/// `list` with `item` at its end if `wanted`, and `list` itself if not.
pub open spec fn with_if(list: Seq<Namespace>, wanted: bool, item: Namespace) -> Seq<Namespace> {
    if wanted {
        list.push(item)
    } else {
        list
    }
}

/// The namespaces that `config` asks for, in the order mount, UTS, IPC,
/// network, PID, user.
pub open spec fn selected(config: NamespaceConfig) -> Seq<Namespace> {
    with_if(
        with_if(
            with_if(
                with_if(
                    with_if(
                        with_if(Seq::empty(), config.isolate_mount, Namespace::Mount),
                        config.isolate_uts,
                        Namespace::Uts,
                    ),
                    config.isolate_ipc,
                    Namespace::Ipc,
                ),
                config.isolate_net,
                Namespace::Network,
            ),
            config.isolate_pid,
            Namespace::Pid,
        ),
        config.isolate_user,
        Namespace::User,
    )
}

/// The step that leaves the namespaces that `config` asks for.
pub open spec fn unsharing(config: NamespaceConfig) -> StepView {
    host_step(
        ActionView::Unshare { namespaces: selected(config) },
        needed(ErrorKind::NamespaceSetup, "Failed to unshare namespaces: "@),
    )
}

/// The step that sets the host name inside the container.
pub open spec fn hostname_setting(name: Seq<char>) -> StepView {
    host_step(
        ActionView::SetHostname { name },
        needed(ErrorKind::NamespaceSetup, "Failed to set hostname: "@),
    )
}

/// What a process does after the fork that enters a new PID namespace.
#[derive(Debug, Clone, Copy, PartialEq, Eq, Structural)]
pub enum PidNamespaceRole {
    /// It is the first process of the new namespace, and goes on to become the container.
    Init,
    /// It only waits for the first process and exits as that one exits.
    Waiter { child: i32 },
}

/// How the process that waits for the first process of a namespace ends,
/// once waiting is over.
#[derive(Debug, Clone, Copy, PartialEq, Eq, Structural)]
pub enum ChildEnd {
    /// The child exited with this status.
    Exited { status: i32 },
    /// The child was killed by a signal.
    Signaled,
    /// Waiting failed, or ended for another reason.
    Unknown,
}

/// The exit status that mirrors how the child ended: its own status where
/// it exited, and 1 otherwise.
pub open spec fn mirrored_status(end: ChildEnd) -> i32 {
    match end {
        ChildEnd::Exited { status } => status,
        ChildEnd::Signaled => 1,
        ChildEnd::Unknown => 1,
    }
}

impl NamespaceConfig {
    /// The configuration of a container: namespaces of its own for
    /// processes, mounts, host name and IPC always, for the network where
    /// `isolate_net` says so, and never one for users.
    pub fn for_container(isolate_net: bool) -> (c: NamespaceConfig)
        ensures
            c == (NamespaceConfig {
                isolate_pid: true,
                isolate_net,
                isolate_mount: true,
                isolate_uts: true,
                isolate_ipc: true,
                isolate_user: false,
            }),
    {
        NamespaceConfig {
            isolate_pid: true,
            isolate_net,
            isolate_mount: true,
            isolate_uts: true,
            isolate_ipc: true,
            isolate_user: false,
        }
    }

    /// The namespaces that this configuration asks for.
    pub fn selected(&self) -> (list: Vec<Namespace>)
        ensures
            list@ == selected(*self),
    {
        let mut list: Vec<Namespace> = Vec::new();
        if self.isolate_mount {
            list.push(Namespace::Mount);
        }
        if self.isolate_uts {
            list.push(Namespace::Uts);
        }
        if self.isolate_ipc {
            list.push(Namespace::Ipc);
        }
        if self.isolate_net {
            list.push(Namespace::Network);
        }
        if self.isolate_pid {
            list.push(Namespace::Pid);
        }
        if self.isolate_user {
            list.push(Namespace::User);
        }
        list
    }
}

/// The namespace work of a container.
#[derive(Debug)]
pub struct NamespaceManager;

impl NamespaceManager {
    /// The step that leaves the namespaces that `config` asks for.
    pub fn unshare_namespaces(config: NamespaceConfig) -> (s: Step)
        ensures
            s@ == unsharing(config),
    {
        Step::of(
            Action::Unshare { namespaces: config.selected() },
            Policy::needed(ErrorKind::NamespaceSetup, "Failed to unshare namespaces: "),
        )
    }

    /// What a process is after the fork that enters the new PID namespace:
    /// the process that the fork made is the first of the namespace, and the
    /// one that forked waits for it. `child` is what the fork returned: the
    /// child's id in the parent, and nothing in the child.
    pub fn enter_pid_namespace(child: Option<i32>) -> (role: PidNamespaceRole)
        ensures
            role == match child {
                Some(pid) => PidNamespaceRole::Waiter { child: pid },
                None => PidNamespaceRole::Init,
            },
    {
        match child {
            Some(pid) => PidNamespaceRole::Waiter { child: pid },
            None => PidNamespaceRole::Init,
        }
    }

    /// The status with which the waiting process exits.
    pub fn mirror_exit(end: ChildEnd) -> (status: i32)
        ensures
            status == mirrored_status(end),
    {
        match end {
            ChildEnd::Exited { status } => status,
            ChildEnd::Signaled => 1,
            ChildEnd::Unknown => 1,
        }
    }

    /// The step that sets the host name inside the container.
    pub fn set_hostname(name: &str) -> (s: Step)
        ensures
            s@ == hostname_setting(name@),
    {
        Step::of(
            Action::SetHostname { name: String::from_str(name) },
            Policy::needed(ErrorKind::NamespaceSetup, "Failed to set hostname: "),
        )
    }
}

} // verus!
