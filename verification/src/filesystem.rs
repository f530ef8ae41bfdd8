//! The root file system of a container.

use crate::command::{
    host_step, needed, push_step, Action, ActionView, Policy, Step, StepView,
};
use crate::error::ErrorKind;
use crate::path::{join, joined_path};
use crate::text::{chars_of, string_of, views};
use vstd::prelude::*;

verus! {

/// The options of the terminal file system of a container.
pub open spec fn devpts_options() -> Seq<char> {
    "newinstance,ptmxmode=0666,mode=0620,gid=5"@
}

/// The step that mounts a file system of type `kind` at `target`.
pub open spec fn kernel_mount(kind: Seq<char>, target: Seq<char>, options: Seq<char>) -> StepView {
    host_step(
        ActionView::Mount { source: kind, target, kind, options },
        needed(ErrorKind::Filesystem, "Failed to mount "@ + target + ": "@),
    )
}

/// The steps that make `rootfs` the root of the container, in this order.
///
/// `rootfs` is bound onto itself, so that it is a mount point; the directory
/// `oldroot` is made in it; the root is pivoted there, with the old root
/// moved to `oldroot`, and the working directory becomes `/`. Then `/proc`,
/// `/sys`, `/dev` and `/dev/pts` are mounted, and `/dev/ptmx` is made a link
/// to `/dev/pts/ptmx`. Last, the old root is detached and its directory
/// removed.
pub open spec fn root_setup(rootfs: Seq<char>) -> Seq<StepView> {
    let old = joined_path(rootfs, "oldroot"@);
    seq![
        host_step(
            ActionView::Bind { source: rootfs, target: rootfs },
            needed(ErrorKind::Filesystem, "Failed to bind mount rootfs: "@),
        ),
        host_step(
            ActionView::CreateDir { path: old },
            needed(ErrorKind::Filesystem, "Failed to create oldroot: "@),
        ),
        host_step(
            ActionView::PivotRoot { new_root: rootfs, put_old: old },
            needed(ErrorKind::Filesystem, "Failed to pivot root: "@),
        ),
        host_step(
            ActionView::ChangeDir { path: "/"@ },
            needed(ErrorKind::Filesystem, "Failed to change directory: "@),
        ),
        kernel_mount("proc"@, "/proc"@, ""@),
        kernel_mount("sysfs"@, "/sys"@, ""@),
        kernel_mount("tmpfs"@, "/dev"@, ""@),
        host_step(
            ActionView::CreateDir { path: "/dev/pts"@ },
            needed(ErrorKind::Filesystem, "Failed to create /dev/pts: "@),
        ),
        kernel_mount("devpts"@, "/dev/pts"@, devpts_options()),
        host_step(
            ActionView::Symlink { target: "/dev/pts/ptmx"@, link: "/dev/ptmx"@ },
            needed(ErrorKind::Filesystem, "Failed to link /dev/ptmx: "@),
        ),
        host_step(
            ActionView::Unmount { target: "/oldroot"@ },
            needed(ErrorKind::Filesystem, "Failed to unmount oldroot: "@),
        ),
        host_step(
            ActionView::RemoveDir { path: "/oldroot"@ },
            needed(ErrorKind::Filesystem, "Failed to remove oldroot: "@),
        ),
    ]
}

/// The step that mounts a file system of type `kind` at `target`.
pub fn mount_kernel(kind: &str, target: &str, options: &str) -> (s: Step)
    ensures
        s@ == kernel_mount(kind@, target@, options@),
{
    let mut prefix = String::from_str("Failed to mount ");
    prefix.append(target);
    prefix.append(": ");
    Step::of(
        Action::Mount {
            source: String::from_str(kind),
            target: String::from_str(target),
            kind: String::from_str(kind),
            options: String::from_str(options),
        },
        Policy::needed(ErrorKind::Filesystem, prefix.as_str()),
    )
}

/// The work on the root file system of a container.
#[derive(Debug)]
pub struct FilesystemManager;

impl FilesystemManager {
    /// Plans making `rootfs` the root of the container.
    pub fn setup_container_filesystem(rootfs: &str) -> (plan: Vec<Step>)
        ensures
            views(plan@) == root_setup(rootfs@),
    {
        let base = chars_of(rootfs);
        let leaf = chars_of("oldroot");
        let joined = join(base.as_slice(), leaf.as_slice());
        let old = string_of(joined.as_slice());
        let mut plan: Vec<Step> = Vec::new();
        push_step(
            &mut plan,
            Step::of(
                Action::Bind { source: String::from_str(rootfs), target: String::from_str(rootfs) },
                Policy::needed(ErrorKind::Filesystem, "Failed to bind mount rootfs: "),
            ),
        );
        push_step(
            &mut plan,
            Step::of(
                Action::CreateDir { path: old.clone() },
                Policy::needed(ErrorKind::Filesystem, "Failed to create oldroot: "),
            ),
        );
        push_step(
            &mut plan,
            Step::of(
                Action::PivotRoot { new_root: String::from_str(rootfs), put_old: old },
                Policy::needed(ErrorKind::Filesystem, "Failed to pivot root: "),
            ),
        );
        push_step(
            &mut plan,
            Step::of(
                Action::ChangeDir { path: String::from_str("/") },
                Policy::needed(ErrorKind::Filesystem, "Failed to change directory: "),
            ),
        );
        push_step(&mut plan, mount_kernel("proc", "/proc", ""));
        push_step(&mut plan, mount_kernel("sysfs", "/sys", ""));
        push_step(&mut plan, mount_kernel("tmpfs", "/dev", ""));
        push_step(
            &mut plan,
            Step::of(
                Action::CreateDir { path: String::from_str("/dev/pts") },
                Policy::needed(ErrorKind::Filesystem, "Failed to create /dev/pts: "),
            ),
        );
        push_step(
            &mut plan,
            mount_kernel("devpts", "/dev/pts", "newinstance,ptmxmode=0666,mode=0620,gid=5"),
        );
        push_step(
            &mut plan,
            Step::of(
                Action::Symlink {
                    target: String::from_str("/dev/pts/ptmx"),
                    link: String::from_str("/dev/ptmx"),
                },
                Policy::needed(ErrorKind::Filesystem, "Failed to link /dev/ptmx: "),
            ),
        );
        push_step(
            &mut plan,
            Step::of(
                Action::Unmount { target: String::from_str("/oldroot") },
                Policy::needed(ErrorKind::Filesystem, "Failed to unmount oldroot: "),
            ),
        );
        push_step(
            &mut plan,
            Step::of(
                Action::RemoveDir { path: String::from_str("/oldroot") },
                Policy::needed(ErrorKind::Filesystem, "Failed to remove oldroot: "),
            ),
        );
        assert(views(plan@) =~= root_setup(rootfs@));
        plan
    }
}

} // verus!
