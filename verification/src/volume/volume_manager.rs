//! The host side of a volume: its source directory.

use crate::command::{
    fixed, host_step, needed, push_step, Action, ActionView, Condition, Failure, Policy,
    PolicyView, Step, StepView,
};
use crate::error::ErrorKind;
use crate::text::views;
use crate::volume::volume::{VolumeMount, VolumeMountView};
use vstd::prelude::*;

verus! {

/// The message for a volume source that is no directory.
pub open spec fn not_a_directory(source: Seq<char>) -> Seq<char> {
    "Volume source must be a directory: \""@ + source + "\""@
}

/// The steps that make sure the source of a volume is a directory: it is
/// made if nothing is there, and what is there in the end must be a directory.
pub open spec fn source_preparation(source: Seq<char>) -> Seq<StepView> {
    seq![
        host_step(ActionView::Exists { path: source }, PolicyView::Ignore),
        host_step(ActionView::CreateDir { path: source }, needed(ErrorKind::Io, Seq::empty())).when(
            Condition::AfterRefusal,
        ),
        host_step(
            ActionView::IsDir { path: source },
            PolicyView::Confirmed { failure: fixed(ErrorKind::Volume, not_a_directory(source)) },
        ),
    ]
}

/// The steps that remove the source of a volume if the runtime made it; a
/// removal that fails is accepted.
pub open spec fn source_removal(volume: VolumeMountView) -> Seq<StepView> {
    if volume.is_anonymous {
        seq![host_step(ActionView::RemoveTree { path: volume.source }, PolicyView::Ignore)]
    } else {
        seq![]
    }
}

/// The work on the sources of volumes.
#[derive(Debug)]
pub struct VolumeManager;

impl VolumeManager {
    /// Plans making sure that the source of `mount` is a directory.
    pub fn setup_volume(mount: &VolumeMount) -> (plan: Vec<Step>)
        ensures
            views(plan@) == source_preparation(mount.source@),
    {
        let mut plan: Vec<Step> = Vec::new();
        push_step(
            &mut plan,
            Step::of(Action::Exists { path: mount.source.clone() }, Policy::Ignore),
        );
        push_step(
            &mut plan,
            Step::of(
                Action::CreateDir { path: mount.source.clone() },
                Policy::needed(ErrorKind::Io, ""),
            ).when(Condition::AfterRefusal),
        );
        let mut message = String::from_str("Volume source must be a directory: \"");
        message.append(mount.source.as_str());
        message.append("\"");
        push_step(
            &mut plan,
            Step::of(
                Action::IsDir { path: mount.source.clone() },
                Policy::Confirmed { failure: Failure::fixed(ErrorKind::Volume, message.as_str()) },
            ),
        );
        proof {
            reveal_strlit("");
            assert(""@ =~= Seq::<char>::empty());
            assert(views(plan@) =~= source_preparation(mount.source@));
        }
        plan
    }

    /// Plans removing the source of `mount` if the runtime made it.
    pub fn cleanup_anonymous_volume(mount: &VolumeMount) -> (plan: Vec<Step>)
        ensures
            views(plan@) == source_removal(mount@),
    {
        let mut plan: Vec<Step> = Vec::new();
        if mount.is_anonymous {
            push_step(
                &mut plan,
                Step::of(Action::RemoveTree { path: mount.source.clone() }, Policy::Ignore),
            );
        }
        assert(views(plan@) =~= source_removal(mount@));
        plan
    }
}

} // verus!
