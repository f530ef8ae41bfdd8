//! The volumes of one container: preparing, binding and releasing them.

use crate::command::{
    append_steps, host_step, needed, push_step, Action, ActionView, Policy, PolicyView, Step,
    StepView,
};
use crate::error::{ContainerResult, ErrorKind, ErrorView};
use crate::path::{inside_root, under_root};
use crate::text::{lemma_views_push, views};
use crate::volume::volume::{
    fresh_uuid, is_uuid_text, volume_of, MountMode, VolumeMount, VolumeMountView,
};
use crate::volume::volume_manager::{source_preparation, source_removal, VolumeManager};
use vstd::prelude::*;

verus! {

/// The tag at position `i`, or the empty tag where the list is too short.
pub open spec fn tag_at(tags: Seq<Seq<char>>, i: int) -> Seq<char> {
    if 0 <= i < tags.len() {
        tags[i]
    } else {
        Seq::empty()
    }
}

/// What a list of volume texts denotes, with the tag at position `i` naming
/// the source of the `i`-th volume where it is anonymous. The first text
/// that denotes no volume decides the error.
pub open spec fn volumes_of(specs: Seq<Seq<char>>, tmp: Seq<char>, tags: Seq<Seq<char>>) -> Result<
    Seq<VolumeMountView>,
    ErrorView,
>
    decreases specs.len(),
{
    if specs.len() == 0 {
        Ok(Seq::empty())
    } else {
        match volumes_of(specs.drop_last(), tmp, tags) {
            Err(e) => Err(e),
            Ok(earlier) => match volume_of(specs.last(), tmp, tag_at(tags, specs.len() - 1)) {
                Err(e) => Err(e),
                Ok(volume) => Ok(earlier.push(volume)),
            },
        }
    }
}

/// The steps that prepare the sources of `volumes`, volume by volume.
pub open spec fn preparation(volumes: Seq<VolumeMountView>) -> Seq<StepView>
    decreases volumes.len(),
{
    if volumes.len() == 0 {
        seq![]
    } else {
        preparation(volumes.drop_last()) + source_preparation(volumes.last().source)
    }
}

/// The steps that make one volume appear under `rootfs`: its place is made,
/// the source is bound there with everything mounted below it, and for a
/// read-only volume the binding is made read-only.
pub open spec fn mounting(volume: VolumeMountView, rootfs: Seq<char>) -> Seq<StepView> {
    let target = inside_root(rootfs, volume.dest);
    seq![
        host_step(ActionView::CreateDir { path: target }, needed(ErrorKind::Io, Seq::empty())),
        host_step(
            ActionView::Bind { source: volume.source, target },
            needed(ErrorKind::Volume, "Failed to mount volume: "@),
        ),
    ] + (if volume.mode == MountMode::ReadOnly {
        seq![
            host_step(
                ActionView::RemountReadOnly { target },
                needed(ErrorKind::Volume, "Failed to remount volume read-only: "@),
            ),
        ]
    } else {
        seq![]
    })
}

/// The steps that make `volumes` appear under `rootfs`, volume by volume.
pub open spec fn binding(volumes: Seq<VolumeMountView>, rootfs: Seq<char>) -> Seq<StepView>
    decreases volumes.len(),
{
    if volumes.len() == 0 {
        seq![]
    } else {
        binding(volumes.drop_last(), rootfs) + mounting(volumes.last(), rootfs)
    }
}

/// The step that detaches one volume under `rootfs`; whatever comes of it is accepted.
pub open spec fn unmounting(volume: VolumeMountView, rootfs: Seq<char>) -> StepView {
    host_step(
        ActionView::Unmount { target: inside_root(rootfs, volume.dest) },
        PolicyView::Ignore,
    )
}

/// The steps that release `volumes`, the last one first: each is detached,
/// and after a tenth of a second its source is removed if the runtime made it.
pub open spec fn releasing(volumes: Seq<VolumeMountView>, rootfs: Seq<char>) -> Seq<StepView>
    decreases volumes.len(),
{
    if volumes.len() == 0 {
        seq![]
    } else {
        seq![
            unmounting(volumes.last(), rootfs),
            host_step(ActionView::Sleep { millis: 100 }, PolicyView::Ignore),
        ] + source_removal(volumes.last()) + releasing(volumes.drop_last(), rootfs)
    }
}

/// The steps that remove the sources of the anonymous volumes among
/// `volumes`, the last one first. Nothing under the root file system of the
/// container is touched.
pub open spec fn discarding(volumes: Seq<VolumeMountView>) -> Seq<StepView>
    decreases volumes.len(),
{
    if volumes.len() == 0 {
        seq![]
    } else {
        source_removal(volumes.last()) + discarding(volumes.drop_last())
    }
}

/// The volumes of one container.
#[derive(Debug, Clone, PartialEq, Eq)]
pub struct ImplVolume {
    pub volumes: Vec<VolumeMount>,
}

/// The volumes of a container with the steps that prepare their sources.
pub struct VolumeSetup {
    pub volumes: ImplVolume,
    pub prepare: Vec<Step>,
}

/// Prepared volumes or an error, as plain values.
pub open spec fn volume_setup_outcome(r: ContainerResult<VolumeSetup>) -> Result<
    (Seq<VolumeMountView>, Seq<StepView>),
    ErrorView,
> {
    match r {
        Ok(setup) => Ok((views(setup.volumes.volumes@), views(setup.prepare@))),
        Err(e) => Err(e@),
    }
}

/// What `setup_volumes` comes to: the volumes that the texts denote and the
/// steps that prepare their sources, or the error of the first text that
/// denotes no volume.
pub open spec fn volumes_prepared(
    specs: Seq<Seq<char>>,
    tmp: Seq<char>,
    tags: Seq<Seq<char>>,
) -> Result<(Seq<VolumeMountView>, Seq<StepView>), ErrorView> {
    match volumes_of(specs, tmp, tags) {
        Ok(volumes) => Ok((volumes, preparation(volumes))),
        Err(e) => Err(e),
    }
}

/// Whether every one of `tags` has the shape of a UUID.
pub open spec fn all_uuid_texts(tags: Seq<Seq<char>>) -> bool {
    forall|i: int| 0 <= i < tags.len() ==> is_uuid_text(#[trigger] tags[i])
}

impl ImplVolume {
    /// Reads the volumes of a container and plans the preparation of their
    /// sources. `tags[i]` names the source of the `i`-th volume where it is
    /// anonymous.
    pub fn setup_volumes_with(volumes: &Vec<String>, tmp_dir: &str, tags: &Vec<String>) -> (r:
        ContainerResult<VolumeSetup>)
        ensures
            volume_setup_outcome(r) == volumes_prepared(views(volumes@), tmp_dir@, views(tags@)),
    {
        let ghost specs = views(volumes@);
        let ghost names = views(tags@);
        let mut mounts: Vec<VolumeMount> = Vec::new();
        let mut prepare: Vec<Step> = Vec::new();
        let mut i: usize = 0;
        assert(specs.take(0) =~= Seq::<Seq<char>>::empty());
        assert(views(mounts@) =~= Seq::<VolumeMountView>::empty());
        assert(views(prepare@) =~= Seq::<StepView>::empty());
        while i < volumes.len()
            invariant
                i <= volumes.len(),
                specs == views(volumes@),
                names == views(tags@),
                volumes_of(specs.take(i as int), tmp_dir@, names) == Ok::<
                    Seq<VolumeMountView>,
                    ErrorView,
                >(views(mounts@)),
                views(prepare@) == preparation(views(mounts@)),
            decreases volumes.len() - i,
        {
            proof {
                let upto = specs.take(i + 1);
                assert(upto.drop_last() =~= specs.take(i as int));
                assert(upto.last() == volumes@[i as int]@);
                if i < tags.len() {
                    assert(names[i as int] == tags@[i as int]@);
                }
                reveal_strlit("");
                assert(""@ =~= Seq::<char>::empty());
            }
            let tag: &str = if i < tags.len() {
                tags[i].as_str()
            } else {
                ""
            };
            match VolumeMount::parse_with(volumes[i].as_str(), tmp_dir, tag) {
                Ok(mount) => {
                    proof {
                        lemma_views_push(mounts@, mount);
                        let grown = views(mounts@).push(mount@);
                        assert(grown.drop_last() =~= views(mounts@));
                        assert(grown.last() == mount@);
                    }
                    append_steps(&mut prepare, VolumeManager::setup_volume(&mount));
                    mounts.push(mount);
                },
                Err(e) => {
                    proof {
                        lemma_volumes_rest(specs, tmp_dir@, names, i + 1, e@);
                    }
                    return Err(e);
                },
            }
            i += 1;
        }
        assert(specs.take(i as int) =~= specs);
        Ok(VolumeSetup { volumes: ImplVolume { volumes: mounts }, prepare })
    }

    /// Reads the volumes of a container and plans the preparation of their
    /// sources. The source of each anonymous volume is named by a fresh UUID.
    pub fn setup_volumes(volumes: &Vec<String>, tmp_dir: &str) -> (r: ContainerResult<VolumeSetup>)
        ensures
            exists|tags: Seq<Seq<char>>|
                tags.len() == volumes.len() && all_uuid_texts(tags) && volume_setup_outcome(r)
                    == #[trigger] volumes_prepared(views(volumes@), tmp_dir@, tags),
    {
        let mut tags: Vec<String> = Vec::new();
        let mut i: usize = 0;
        while i < volumes.len()
            invariant
                i <= volumes.len(),
                tags.len() == i,
                all_uuid_texts(views(tags@)),
            decreases volumes.len() - i,
        {
            let ghost before = views(tags@);
            let tag = fresh_uuid();
            proof {
                lemma_views_push(tags@, tag);
            }
            tags.push(tag);
            assert forall|k: int| 0 <= k < views(tags@).len() implies is_uuid_text(
                #[trigger] views(tags@)[k],
            ) by {
                if k < before.len() {
                    assert(views(tags@)[k] == before[k]);
                }
            }
            i += 1;
        }
        let r = ImplVolume::setup_volumes_with(volumes, tmp_dir, &tags);
        assert(views(tags@).len() == volumes.len() && all_uuid_texts(views(tags@))
            && volume_setup_outcome(r) == volumes_prepared(
            views(volumes@),
            tmp_dir@,
            views(tags@),
        ));
        r
    }

    /// Plans making one volume appear under `rootfs`.
    pub fn mount_volume(&self, volume: &VolumeMount, rootfs: &str) -> (plan: Vec<Step>)
        ensures
            views(plan@) == mounting(volume@, rootfs@),
    {
        let target = under_root(rootfs, volume.dest.as_str());
        let mut plan: Vec<Step> = Vec::new();
        push_step(
            &mut plan,
            Step::of(Action::CreateDir { path: target.clone() }, Policy::needed(ErrorKind::Io, "")),
        );
        push_step(
            &mut plan,
            Step::of(
                Action::Bind { source: volume.source.clone(), target: target.clone() },
                Policy::needed(ErrorKind::Volume, "Failed to mount volume: "),
            ),
        );
        match volume.mode {
            MountMode::ReadOnly => {
                push_step(
                    &mut plan,
                    Step::of(
                        Action::RemountReadOnly { target },
                        Policy::needed(ErrorKind::Volume, "Failed to remount volume read-only: "),
                    ),
                );
            },
            MountMode::ReadWrite => {},
        }
        proof {
            reveal_strlit("");
            assert(""@ =~= Seq::<char>::empty());
            assert(views(plan@) =~= mounting(volume@, rootfs@));
        }
        plan
    }

    /// Plans making every volume appear under `rootfs`, in their order.
    pub fn setup_fs(&self, rootfs: &str) -> (plan: Vec<Step>)
        ensures
            views(plan@) == binding(views(self.volumes@), rootfs@),
    {
        let ghost all = views(self.volumes@);
        let mut plan: Vec<Step> = Vec::new();
        let mut i: usize = 0;
        assert(views(plan@) =~= binding(all.take(0), rootfs@));
        while i < self.volumes.len()
            invariant
                i <= self.volumes.len(),
                all == views(self.volumes@),
                views(plan@) == binding(all.take(i as int), rootfs@),
            decreases self.volumes.len() - i,
        {
            proof {
                let upto = all.take(i + 1);
                assert(upto.drop_last() =~= all.take(i as int));
                assert(upto.last() == self.volumes@[i as int]@);
            }
            append_steps(&mut plan, self.mount_volume(&self.volumes[i], rootfs));
            i += 1;
        }
        assert(all.take(i as int) =~= all);
        plan
    }

    /// The step that detaches one volume under `rootfs`.
    pub fn unmount_volume(&self, volume: &VolumeMount, rootfs: &str) -> (s: Step)
        ensures
            s@ == unmounting(volume@, rootfs@),
    {
        Step::of(
            Action::Unmount { target: under_root(rootfs, volume.dest.as_str()) },
            Policy::Ignore,
        )
    }

    /// Plans removing the sources of the anonymous volumes, the last one
    /// first, for a container whose volumes were never bound.
    pub fn discard(&self) -> (plan: Vec<Step>)
        ensures
            views(plan@) == discarding(views(self.volumes@)),
    {
        let ghost all = views(self.volumes@);
        let mut plan: Vec<Step> = Vec::new();
        let mut left: usize = self.volumes.len();
        assert(all.take(left as int) =~= all);
        assert(views(plan@) + discarding(all) =~= discarding(all));
        while left > 0
            invariant
                left <= self.volumes.len(),
                all == views(self.volumes@),
                views(plan@) + discarding(all.take(left as int)) == discarding(all),
            decreases left,
        {
            let ghost before = views(plan@);
            let volume = &self.volumes[left - 1];
            proof {
                let upto = all.take(left as int);
                assert(upto.drop_last() =~= all.take(left - 1));
                assert(upto.last() == volume@);
            }
            append_steps(&mut plan, VolumeManager::cleanup_anonymous_volume(volume));
            proof {
                assert(views(plan@) + discarding(all.take(left - 1)) =~= before + discarding(
                    all.take(left as int),
                ));
            }
            left -= 1;
        }
        assert(views(plan@) + discarding(all.take(0)) =~= views(plan@));
        plan
    }

    /// Plans releasing every volume, the last one first.
    pub fn cleanup_volume(&self, rootfs: &str) -> (plan: Vec<Step>)
        ensures
            views(plan@) == releasing(views(self.volumes@), rootfs@),
    {
        let ghost all = views(self.volumes@);
        let mut plan: Vec<Step> = Vec::new();
        let mut left: usize = self.volumes.len();
        assert(all.take(left as int) =~= all);
        assert(views(plan@) + releasing(all, rootfs@) =~= releasing(all, rootfs@));
        while left > 0
            invariant
                left <= self.volumes.len(),
                all == views(self.volumes@),
                views(plan@) + releasing(all.take(left as int), rootfs@) == releasing(all, rootfs@),
            decreases left,
        {
            let ghost before = views(plan@);
            let volume = &self.volumes[left - 1];
            proof {
                let upto = all.take(left as int);
                assert(upto.drop_last() =~= all.take(left - 1));
                assert(upto.last() == volume@);
            }
            push_step(&mut plan, self.unmount_volume(volume, rootfs));
            push_step(&mut plan, Step::of(Action::Sleep { millis: 100 }, Policy::Ignore));
            append_steps(&mut plan, VolumeManager::cleanup_anonymous_volume(volume));
            proof {
                assert(views(plan@) =~= before + (seq![
                    unmounting(volume@, rootfs@),
                    host_step(ActionView::Sleep { millis: 100 }, PolicyView::Ignore),
                ] + source_removal(volume@)));
                assert(views(plan@) + releasing(all.take(left - 1), rootfs@) =~= before + releasing(
                    all.take(left as int),
                    rootfs@,
                ));
            }
            left -= 1;
        }
        assert(views(plan@) + releasing(all.take(0), rootfs@) =~= views(plan@));
        plan
    }
}

/// Once a text denotes no volume, the whole list comes to its error.
proof fn lemma_volumes_rest(
    specs: Seq<Seq<char>>,
    tmp: Seq<char>,
    tags: Seq<Seq<char>>,
    k: int,
    e: ErrorView,
)
    requires
        0 < k <= specs.len(),
        volumes_of(specs.take(k), tmp, tags) == Err::<Seq<VolumeMountView>, ErrorView>(e),
    ensures
        volumes_of(specs, tmp, tags) == Err::<Seq<VolumeMountView>, ErrorView>(e),
    decreases specs.len() - k,
{
    if k == specs.len() {
        assert(specs.take(k) =~= specs);
    } else {
        let upto = specs.take(k + 1);
        assert(upto.drop_last() =~= specs.take(k));
        lemma_volumes_rest(specs, tmp, tags, k + 1, e);
    }
}

} // verus!
