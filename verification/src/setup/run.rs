//! The order of events in the life of one container.

use crate::cli::ContainerConfig;
use crate::error::{
    error_of, process_failure, ContainerError, ContainerResult, ErrorKind, ErrorView,
};
use crate::namespace::NamespaceConfig;
use crate::error::outcome_of;
use crate::network::{NetworkModeView};
use crate::process::{wait_turn, ProcessManager, WaitOutcome, WaitOutcomeView};
use crate::text::{decimal_text, push_decimal, signed_string, signed_text};
use vstd::prelude::*;

verus! {

/// The id of the container that the process `pid` starts at `secs` seconds
/// after the epoch.
pub open spec fn container_id_of(pid: i32, secs: u64) -> Seq<char> {
    "container-"@ + signed_text(pid as int) + "-"@ + decimal_text(secs as nat)
}

/// How a container is launched.
#[derive(Debug, Clone, PartialEq, Eq)]
pub struct Launch {
    pub container_id: String,
    /// Whether the container gets a network namespace of its own, which
    /// the supervising process has to configure from outside.
    pub isolate_net: bool,
    pub ns_config: NamespaceConfig,
}

/// `Launch`, with every text as the sequence of its characters.
pub struct LaunchView {
    pub container_id: Seq<char>,
    pub isolate_net: bool,
    pub ns_config: NamespaceConfig,
}

impl View for Launch {
    type V = LaunchView;

    open spec fn view(&self) -> LaunchView {
        LaunchView {
            container_id: self.container_id@,
            isolate_net: self.isolate_net,
            ns_config: self.ns_config,
        }
    }
}

/// How the container of a request is launched by the user `euid`: only root
/// may launch one. The network is isolated in every mode but `Host`; the
/// namespaces for processes, mounts, host name and IPC always are, the one
/// for users never.
pub open spec fn launch_of(mode: NetworkModeView, euid: u32, pid: i32, secs: u64) -> Result<
    LaunchView,
    ErrorView,
> {
    if euid != 0 {
        Err(error_of(ErrorKind::RootRequired, Seq::empty()))
    } else {
        Ok(
            LaunchView {
                container_id: container_id_of(pid, secs),
                isolate_net: !(mode is Host),
                ns_config: NamespaceConfig {
                    isolate_pid: true,
                    isolate_net: !(mode is Host),
                    isolate_mount: true,
                    isolate_uts: true,
                    isolate_ipc: true,
                    isolate_user: false,
                },
            },
        )
    }
}

/// A launch or an error, as plain values.
pub open spec fn launch_outcome(r: ContainerResult<Launch>) -> Result<LaunchView, ErrorView> {
    match r {
        Ok(l) => Ok(l@),
        Err(e) => Err(e@),
    }
}

/// Decides how the container of `config` is launched. `euid` is the
/// effective user id of the runtime, `pid` its process id, and `now_secs`
/// the time in seconds since the epoch.
pub fn run(config: &ContainerConfig, euid: u32, pid: i32, now_secs: u64) -> (r: ContainerResult<
    Launch,
>)
    ensures
        launch_outcome(r) == launch_of(config.network_mode@, euid, pid, now_secs),
{
    if euid != 0 {
        return Err(ContainerError::RootRequired);
    }
    let mut container_id = String::from_str("container-");
    let number = signed_string(pid as i64);
    container_id.append(number.as_str());
    container_id.append("-");
    push_decimal(&mut container_id, now_secs);
    let isolate_net = config.network_mode.isolates();
    Ok(Launch { container_id, isolate_net, ns_config: NamespaceConfig::for_container(isolate_net) })
}

/// A stage in the life of the container process.
#[derive(Debug, Clone, Copy, PartialEq, Eq, Structural)]
pub enum Stage {
    /// Make the control group, write its limits, and join it.
    SetupCgroup,
    /// Prepare the sources of the volumes, while host paths still resolve.
    PrepareVolumes,
    /// Leave the namespaces of the host.
    Unshare { config: NamespaceConfig },
    /// Block until the supervising process says that the network is ready.
    AwaitBarrier,
    /// Fork, so that the container is the first process of its PID namespace.
    EnterPidNamespace,
    /// Set the host name.
    SetHostname,
    /// Pivot into the root file system and mount what belongs in it.
    SetupFilesystem,
    /// Bind the volumes into the root file system.
    BindVolumes,
    /// Run the payload and wait for it.
    Execute,
    /// Detach the volumes and remove the anonymous ones.
    ReleaseVolumes,
    /// Remove the sources of the anonymous volumes, for volumes that were
    /// never bound. This is no stage of a run that goes well: it is entered
    /// only to clean up after a failure.
    DiscardVolumes,
}

/// What the container process read at the barrier.
#[derive(Debug, Clone, PartialEq, Eq)]
pub enum BarrierRead {
    /// The byte of the supervising process.
    Byte,
    /// Nothing: the other end of the pipe was closed without a byte.
    Eof,
    /// Reading failed.
    Failed { reason: String },
}

/// `BarrierRead`, with every text as the sequence of its characters.
pub enum BarrierReadView {
    Byte,
    Eof,
    Failed { reason: Seq<char> },
}

impl View for BarrierRead {
    type V = BarrierReadView;

    open spec fn view(&self) -> BarrierReadView {
        match self {
            BarrierRead::Byte => BarrierReadView::Byte,
            BarrierRead::Eof => BarrierReadView::Eof,
            BarrierRead::Failed { reason } => BarrierReadView::Failed { reason: reason@ },
        }
    }
}

/// Whether the container process may pass the barrier: only the byte of
/// the supervising process lets it pass. A pipe that was closed without a
/// byte, and a read that failed, end the run before the root file system is
/// touched.
pub open spec fn barrier_outcome(read: BarrierReadView) -> Result<(), ErrorView> {
    match read {
        BarrierReadView::Byte => Ok(()),
        BarrierReadView::Eof => Err(
            error_of(ErrorKind::NamespaceSetup, "Read 0 bytes from sync pipe"@),
        ),
        BarrierReadView::Failed { reason } => Err(
            error_of(ErrorKind::NamespaceSetup, "Failed to read from sync pipe: "@ + reason),
        ),
    }
}

/// Judges what the container process read at the barrier. The result is
/// the result of the stage `AwaitBarrier`.
pub fn barrier_passed(read: &BarrierRead) -> (r: ContainerResult<()>)
    ensures
        outcome_of(r) == barrier_outcome(read@),
        r is Ok <==> read is Byte,
{
    match read {
        BarrierRead::Byte => Ok(()),
        BarrierRead::Eof => Err(
            ContainerError::NamespaceSetup {
                message: String::from_str("Read 0 bytes from sync pipe"),
            },
        ),
        BarrierRead::Failed { reason } => {
            let mut message = String::from_str("Failed to read from sync pipe: ");
            message.append(reason.as_str());
            Err(ContainerError::NamespaceSetup { message })
        },
    }
}

/// `stage` if `wanted`, and nothing otherwise.
pub open spec fn stage_if(wanted: bool, stage: Stage) -> Seq<Stage> {
    if wanted {
        seq![stage]
    } else {
        seq![]
    }
}

/// The stages of the container process, in their order. The control group
/// is set up only where limits are asked for, and volumes are handled only
/// where there are any. With `sync`, the process waits at the barrier after
/// it has left the namespaces and before anything else.
pub open spec fn stages(
    has_limits: bool,
    has_volumes: bool,
    ns_config: NamespaceConfig,
    sync: bool,
) -> Seq<Stage> {
    stage_if(has_limits, Stage::SetupCgroup) + stage_if(has_volumes, Stage::PrepareVolumes)
        + seq![Stage::Unshare { config: ns_config }] + stage_if(sync, Stage::AwaitBarrier) + seq![
        Stage::EnterPidNamespace,
        Stage::SetHostname,
        Stage::SetupFilesystem,
    ] + stage_if(has_volumes, Stage::BindVolumes) + seq![Stage::Execute] + stage_if(
        has_volumes,
        Stage::ReleaseVolumes,
    )
}

/// Whether a stage works on the root file system of the container.
pub open spec fn touches_rootfs(stage: Stage) -> bool {
    stage is SetupFilesystem || stage is BindVolumes || stage is Execute || stage
        is ReleaseVolumes
}

/// The container process never touches its root file system before it has
/// passed the barrier: in the stages of a synchronised run, the barrier
/// stands before every stage that works on the root file system, and
/// directly after the namespaces were left.
pub proof fn lemma_barrier_first(
    has_limits: bool,
    has_volumes: bool,
    ns_config: NamespaceConfig,
    i: int,
)
    requires
        0 <= i < stages(has_limits, has_volumes, ns_config, true).len(),
        touches_rootfs(stages(has_limits, has_volumes, ns_config, true)[i]),
    ensures
        exists|j: int|
            1 <= j < i && stages(has_limits, has_volumes, ns_config, true)[j]
                == Stage::AwaitBarrier && #[trigger] stages(
                has_limits,
                has_volumes,
                ns_config,
                true,
            )[j - 1] == (Stage::Unshare { config: ns_config }),
{
    let all = stages(has_limits, has_volumes, ns_config, true);
    let j: int = (if has_limits {
        1int
    } else {
        0int
    }) + (if has_volumes {
        1int
    } else {
        0int
    }) + 1;
    assert(all[j] == Stage::AwaitBarrier);
    assert(all[j - 1] == (Stage::Unshare { config: ns_config }));
    assert(forall|k: int| 0 <= k <= j ==> !touches_rootfs(all[k]));
}

fn plan_stages(config: &ContainerConfig, ns_config: NamespaceConfig, sync: bool) -> (list: Vec<
    Stage,
>)
    ensures
        list@ == stages(
            config.memory_limit_mb is Some || config.cpu_percent is Some || config.pids_limit
                is Some,
            config.volumes.len() > 0,
            ns_config,
            sync,
        ),
{
    let has_volumes = config.volumes.len() > 0;
    let has_limits = config.has_limits();
    let mut list: Vec<Stage> = Vec::new();
    if has_limits {
        list.push(Stage::SetupCgroup);
    }
    if has_volumes {
        list.push(Stage::PrepareVolumes);
    }
    list.push(Stage::Unshare { config: ns_config });
    if sync {
        list.push(Stage::AwaitBarrier);
    }
    list.push(Stage::EnterPidNamespace);
    list.push(Stage::SetHostname);
    list.push(Stage::SetupFilesystem);
    if has_volumes {
        list.push(Stage::BindVolumes);
    }
    list.push(Stage::Execute);
    if has_volumes {
        list.push(Stage::ReleaseVolumes);
    }
    assert(list@ =~= stages(has_limits, has_volumes, ns_config, sync));
    list
}

/// The stages of a container that shares the network of the host: nothing
/// has to be configured from outside, and there is no barrier.
pub fn run_container(config: &ContainerConfig, ns_config: NamespaceConfig) -> (list: Vec<Stage>)
    ensures
        list@ == stages(
            config.memory_limit_mb is Some || config.cpu_percent is Some || config.pids_limit
                is Some,
            config.volumes.len() > 0,
            ns_config,
            false,
        ),
{
    plan_stages(config, ns_config, false)
}

/// The stages of a container with a network namespace of its own: it waits
/// at the barrier until the supervising process has configured the network.
pub fn run_container_with_sync(config: &ContainerConfig, ns_config: NamespaceConfig) -> (list: Vec<
    Stage,
>)
    ensures
        list@ == stages(
            config.memory_limit_mb is Some || config.cpu_percent is Some || config.pids_limit
                is Some,
            config.volumes.len() > 0,
            ns_config,
            true,
        ),
{
    plan_stages(config, ns_config, true)
}

/// What the container process does once a stage is over.
#[derive(Debug, Clone, Copy, PartialEq, Eq, Structural)]
pub enum StageProgress {
    /// Go on with the stage at `index`.
    Enter { index: usize },
    /// Perform `stage` to clean up, whatever comes of it, and exit with `status`.
    Cleanup { stage: Stage, status: i32 },
    /// Exit with `status`.
    Exit { status: i32 },
}

/// The first position of `stage` in `list`, or the length of `list` where
/// it does not occur.
pub open spec fn position_of(list: Seq<Stage>, stage: Stage) -> int
    decreases list.len(),
{
    if list.len() == 0 {
        0
    } else if list[0] == stage {
        0
    } else {
        1 + position_of(list.skip(1), stage)
    }
}

/// What follows the stage at `index`, where `failed` tells whether that
/// stage failed.
///
/// While nothing fails, the next stage follows, and after the last one the
/// process exits with status 0. After a failure the process exits with
/// status 1, and the volumes are cleaned up first: volumes that were bound,
/// or were being bound, are released; volumes whose sources were prepared,
/// or were being prepared, and that were never bound have their anonymous
/// sources removed.
pub open spec fn progress_of(list: Seq<Stage>, index: int, failed: bool) -> StageProgress {
    let prepared = position_of(list, Stage::PrepareVolumes);
    let bound = position_of(list, Stage::BindVolumes);
    let released = position_of(list, Stage::ReleaseVolumes);
    if !failed {
        if 0 <= index && index + 1 < list.len() {
            StageProgress::Enter { index: (index + 1) as usize }
        } else {
            StageProgress::Exit { status: 0 }
        }
    } else if bound <= index < released && bound < list.len() {
        StageProgress::Cleanup { stage: Stage::ReleaseVolumes, status: 1 }
    } else if prepared <= index < bound && prepared < list.len() {
        StageProgress::Cleanup { stage: Stage::DiscardVolumes, status: 1 }
    } else {
        StageProgress::Exit { status: 1 }
    }
}

/// The first position of `stage` in `list`, or the length of `list`.
pub fn find_stage(list: &Vec<Stage>, stage: Stage) -> (r: usize)
    ensures
        r == position_of(list@, stage),
        r <= list.len(),
{
    let mut i: usize = 0;
    assert(list@.skip(0) =~= list@);
    while i < list.len()
        invariant
            i <= list.len(),
            position_of(list@, stage) == i + position_of(list@.skip(i as int), stage),
        decreases list.len() - i,
    {
        if list[i] == stage {
            return i;
        }
        assert(list@.skip(i as int).skip(1) =~= list@.skip(i + 1));
        i += 1;
    }
    i
}

/// What the container process does once the stage at `index` is over with `result`.
pub fn after_stage(list: &Vec<Stage>, index: usize, result: &ContainerResult<()>) -> (p:
    StageProgress)
    ensures
        p == progress_of(list@, index as int, result is Err),
{
    if result.is_ok() {
        if index < list.len() && index + 1 < list.len() {
            StageProgress::Enter { index: index + 1 }
        } else {
            StageProgress::Exit { status: 0 }
        }
    } else {
        let prepared = find_stage(list, Stage::PrepareVolumes);
        let bound = find_stage(list, Stage::BindVolumes);
        let released = find_stage(list, Stage::ReleaseVolumes);
        if bound <= index && index < released && bound < list.len() {
            StageProgress::Cleanup { stage: Stage::ReleaseVolumes, status: 1 }
        } else if prepared <= index && index < bound && prepared < list.len() {
            StageProgress::Cleanup { stage: Stage::DiscardVolumes, status: 1 }
        } else {
            StageProgress::Exit { status: 1 }
        }
    }
}

/// Cleaning up after a failure keeps the barrier: a failed run works on the
/// root file system again only to release volumes that were bound or being
/// bound, and volumes are bound only after the barrier.
pub proof fn lemma_release_after_barrier(
    has_limits: bool,
    has_volumes: bool,
    ns_config: NamespaceConfig,
    index: int,
)
    requires
        0 <= index < stages(has_limits, has_volumes, ns_config, true).len(),
        progress_of(
            stages(has_limits, has_volumes, ns_config, true),
            index,
            true,
        ) matches StageProgress::Cleanup { stage, .. } && touches_rootfs(stage),
    ensures
        position_of(stages(has_limits, has_volumes, ns_config, true), Stage::AwaitBarrier)
            < index,
{
    let all = stages(has_limits, has_volumes, ns_config, true);
    lemma_position_of(all, Stage::BindVolumes);
    lemma_position_of(all, Stage::AwaitBarrier);
    let j: int = (if has_limits {
        1int
    } else {
        0int
    }) + (if has_volumes {
        1int
    } else {
        0int
    }) + 1;
    assert(all[j] == Stage::AwaitBarrier);
    let b = position_of(all, Stage::BindVolumes);
    assert(all[b] == Stage::BindVolumes);
    assert(forall|k: int| 0 <= k <= j ==> all[k] != Stage::BindVolumes);
}

/// A barrier that was not passed ends the run before the root file system
/// is touched: after a failure of the stage `AwaitBarrier` no further
/// stage is entered, the process exits with status 1, and what it cleans
/// up on the way does not lie under the root file system.
pub proof fn lemma_closed_barrier_stops(
    has_limits: bool,
    has_volumes: bool,
    ns_config: NamespaceConfig,
)
    ensures
        match progress_of(
            stages(has_limits, has_volumes, ns_config, true),
            position_of(stages(has_limits, has_volumes, ns_config, true), Stage::AwaitBarrier),
            true,
        ) {
            StageProgress::Enter { .. } => false,
            StageProgress::Cleanup { stage, status } => !touches_rootfs(stage) && status == 1,
            StageProgress::Exit { status } => status == 1,
        },
{
    let all = stages(has_limits, has_volumes, ns_config, true);
    lemma_position_of(all, Stage::AwaitBarrier);
    lemma_position_of(all, Stage::BindVolumes);
    let j: int = (if has_limits {
        1int
    } else {
        0int
    }) + (if has_volumes {
        1int
    } else {
        0int
    }) + 1;
    assert(all[j] == Stage::AwaitBarrier);
    assert(forall|k: int| 0 <= k <= j ==> all[k] != Stage::BindVolumes);
}

/// Every failure after the sources of the volumes were prepared, or while
/// they were, is followed by a cleanup of the volumes, unless the volumes
/// were released already or were being released.
pub proof fn lemma_volumes_cleaned(
    has_limits: bool,
    ns_config: NamespaceConfig,
    sync: bool,
    index: int,
)
    requires
        0 <= index < stages(has_limits, true, ns_config, sync).len(),
        position_of(stages(has_limits, true, ns_config, sync), Stage::PrepareVolumes) <= index
            < position_of(stages(has_limits, true, ns_config, sync), Stage::ReleaseVolumes),
    ensures
        progress_of(stages(has_limits, true, ns_config, sync), index, true) is Cleanup,
{
    let all = stages(has_limits, true, ns_config, sync);
    lemma_position_of(all, Stage::PrepareVolumes);
    lemma_position_of(all, Stage::BindVolumes);
    lemma_position_of(all, Stage::ReleaseVolumes);
    let p: int = if has_limits {
        1int
    } else {
        0int
    };
    assert(all[p] == Stage::PrepareVolumes);
    let b: int = p + (if sync {
        6int
    } else {
        5int
    });
    assert(all[b] == Stage::BindVolumes);
}

/// The first position of a stage holds it, and no earlier position does.
pub proof fn lemma_position_of(list: Seq<Stage>, stage: Stage)
    ensures
        0 <= position_of(list, stage) <= list.len(),
        position_of(list, stage) < list.len() ==> list[position_of(list, stage)] == stage,
        forall|k: int| 0 <= k < position_of(list, stage) ==> list[k] != stage,
    decreases list.len(),
{
    if list.len() > 0 && list[0] != stage {
        let rest = list.skip(1);
        lemma_position_of(rest, stage);
        assert forall|k: int| 0 <= k < position_of(list, stage) implies list[k] != stage by {
            if k > 0 {
                assert(list[k] == rest[k - 1]);
            }
        }
    }
}

/// The results of a list of cleanups, with every error as plain values.
pub open spec fn outcomes(results: Seq<ContainerResult<()>>) -> Seq<Result<(), ErrorView>> {
    Seq::new(results.len(), |i: int| outcome_of(results[i]))
}

/// The first error among `results`, or success where there is none.
pub open spec fn first_error(results: Seq<Result<(), ErrorView>>) -> Result<(), ErrorView>
    decreases results.len(),
{
    if results.len() == 0 {
        Ok(())
    } else if results[0] is Err {
        results[0]
    } else {
        first_error(results.skip(1))
    }
}

/// How a run ends, given how the container ended and what came of each
/// cleanup: it succeeds exactly when the container ended well and every
/// cleanup succeeded. Otherwise its error is that of the container, or,
/// where the container ended well, that of the first cleanup that failed.
pub open spec fn concluded(
    ended: Result<(), ErrorView>,
    cleanup: Seq<Result<(), ErrorView>>,
) -> Result<(), ErrorView> {
    match ended {
        Err(e) => Err(e),
        Ok(_) => first_error(cleanup),
    }
}

/// `first_error` succeeds exactly when nothing failed.
pub proof fn lemma_first_error(results: Seq<Result<(), ErrorView>>)
    ensures
        first_error(results) is Ok <==> forall|i: int|
            0 <= i < results.len() ==> (#[trigger] results[i]) is Ok,
    decreases results.len(),
{
    if results.len() > 0 {
        let rest = results.skip(1);
        lemma_first_error(rest);
        if results[0] is Ok {
            if first_error(rest) is Ok {
                assert forall|i: int| 0 <= i < results.len() implies (#[trigger] results[i])
                    is Ok by {
                    if i > 0 {
                        assert(results[i] == rest[i - 1]);
                    }
                }
            } else {
                let k = choose|k: int| 0 <= k < rest.len() && !((#[trigger] rest[k]) is Ok);
                assert(results[k + 1] == rest[k]);
            }
        }
    }
}

/// Says how a run ends, given how the container ended and what came of
/// each cleanup.
#[verifier::loop_isolation(false)]
pub fn conclude(ended: ContainerResult<()>, cleanup: &Vec<ContainerResult<()>>) -> (r:
    ContainerResult<()>)
    ensures
        outcome_of(r) == concluded(outcome_of(ended), outcomes(cleanup@)),
        r is Ok <==> ended is Ok && forall|i: int|
            0 <= i < cleanup.len() ==> (#[trigger] cleanup[i]) is Ok,
{
    proof {
        lemma_first_error(outcomes(cleanup@));
        assert forall|i: int| 0 <= i < cleanup.len() implies ((#[trigger] cleanup[i]) is Ok
            <==> outcomes(cleanup@)[i] is Ok) by {}
        if first_error(outcomes(cleanup@)) is Ok {
            assert forall|i: int| 0 <= i < cleanup.len() implies (#[trigger] cleanup[i]) is Ok by {
                assert(outcomes(cleanup@)[i] is Ok);
            }
        } else {
            let k = choose|k: int|
                0 <= k < outcomes(cleanup@).len() && !((#[trigger] outcomes(cleanup@)[k]) is Ok);
            assert(!(cleanup[k] is Ok));
        }
    }
    if ended.is_err() {
        return ended;
    }
    let ghost all = outcomes(cleanup@);
    let mut i: usize = 0;
    assert(all.skip(0) =~= all);
    while i < cleanup.len()
        invariant
            i <= cleanup.len(),
            all == outcomes(cleanup@),
            first_error(all) == first_error(all.skip(i as int)),
        decreases cleanup.len() - i,
    {
        assert(all.skip(i as int)[0] == outcome_of(cleanup@[i as int]));
        match &cleanup[i] {
            Err(e) => {
                return Err(e.duplicate());
            },
            Ok(_) => {},
        }
        assert(all.skip(i as int).skip(1) =~= all.skip(i + 1));
        i += 1;
    }
    Ok(())
}

/// Where the supervising process is.
#[derive(Debug, PartialEq, Eq)]
pub enum ParentState {
    /// It has made the pipe and is about to fork.
    Start,
    /// It configures the network of the child.
    Configuring { child: i32 },
    /// It waits for the child to end.
    Waiting { child: i32 },
    /// The container has ended as `ended` says, and it cleans up.
    Cleaning { ended: ContainerResult<()> },
    /// It is done.
    Done,
}

/// `ParentState`, with every text as the sequence of its characters.
pub enum ParentStateView {
    Start,
    Configuring { child: i32 },
    Waiting { child: i32 },
    Cleaning { ended: Result<(), ErrorView> },
    Done,
}

impl View for ParentState {
    type V = ParentStateView;

    open spec fn view(&self) -> ParentStateView {
        match self {
            ParentState::Start => ParentStateView::Start,
            ParentState::Configuring { child } => ParentStateView::Configuring { child: *child },
            ParentState::Waiting { child } => ParentStateView::Waiting { child: *child },
            ParentState::Cleaning { ended } => ParentStateView::Cleaning {
                ended: outcome_of(*ended),
            },
            ParentState::Done => ParentStateView::Done,
        }
    }
}

/// Something that happened to the supervising process.
#[derive(Debug, Clone, PartialEq, Eq)]
pub enum ParentEvent {
    /// The fork made the process `child`.
    Forked { child: i32 },
    /// The fork failed.
    ForkFailed { reason: String },
    /// The network of the child is configured.
    NetworkReady,
    /// The network of the child could not be configured.
    NetworkFailed { error: ContainerError },
    /// Waiting for the child came to `outcome`.
    Waited { outcome: WaitOutcome },
    /// The cleanups were performed, in the order in which they were asked
    /// for, and came to `results`.
    CleanedUp { results: Vec<ContainerResult<()>> },
}

/// `ParentEvent`, with every text as the sequence of its characters.
pub enum ParentEventView {
    Forked { child: i32 },
    ForkFailed { reason: Seq<char> },
    NetworkReady,
    NetworkFailed { error: ErrorView },
    Waited { outcome: WaitOutcomeView },
    CleanedUp { results: Seq<Result<(), ErrorView>> },
}

impl View for ParentEvent {
    type V = ParentEventView;

    open spec fn view(&self) -> ParentEventView {
        match self {
            ParentEvent::Forked { child } => ParentEventView::Forked { child: *child },
            ParentEvent::ForkFailed { reason } => ParentEventView::ForkFailed { reason: reason@ },
            ParentEvent::NetworkReady => ParentEventView::NetworkReady,
            ParentEvent::NetworkFailed { error } => ParentEventView::NetworkFailed {
                error: error@,
            },
            ParentEvent::Waited { outcome } => ParentEventView::Waited { outcome: outcome@ },
            ParentEvent::CleanedUp { results } => ParentEventView::CleanedUp {
                results: outcomes(results@),
            },
        }
    }
}

/// Something for the supervising process to do.
#[derive(Debug, Clone, Copy, PartialEq, Eq, Structural)]
pub enum ParentAction {
    /// Close the reading end of the pipe.
    CloseReadEnd,
    /// Wait for so many milliseconds.
    Sleep { millis: u64 },
    /// Set up the network of the child and report how it went.
    SetupNetwork { child: i32 },
    /// Write the byte that lets the child pass the barrier.
    ReleaseBarrier { byte: u8 },
    /// Close the writing end of the pipe.
    CloseWriteEnd,
    /// Kill the child.
    Kill { child: i32 },
    /// Wait until the child has ended and report how.
    Wait { child: i32 },
    /// Take the network of the container down, and keep what came of it.
    CleanupNetwork,
    /// Remove the control group of the container, if it has one, and keep
    /// what came of it.
    CleanupCgroup,
    /// Remove the sources of the anonymous volumes of the container, and
    /// keep what came of it.
    CleanupVolumes,
}

/// How long the supervising process gives the child to leave the
/// namespaces of the host before it looks at the child's namespaces.
pub const SETTLE_MILLIS: u64 = 300;

/// The byte that lets the child pass the barrier: the digit `1`.
pub const BARRIER_BYTE: u8 = 49;

/// One turn of the supervising process.
pub struct ParentTurn {
    pub state: ParentState,
    pub actions: Vec<ParentAction>,
    pub result: Option<ContainerResult<()>>,
}

/// `ParentTurn`, with every text as the sequence of its characters.
pub struct ParentTurnView {
    pub state: ParentStateView,
    pub actions: Seq<ParentAction>,
    pub result: Option<Result<(), ErrorView>>,
}

impl View for ParentTurn {
    type V = ParentTurnView;

    open spec fn view(&self) -> ParentTurnView {
        ParentTurnView {
            state: self.state@,
            actions: self.actions@,
            result: match self.result {
                Some(r) => Some(outcome_of(r)),
                None => None,
            },
        }
    }
}

/// How the container ended for the supervising process once waiting for
/// the child is over, or nothing where it has to wait again. The container
/// ended well exactly if the child exited with status zero.
pub open spec fn reaped(outcome: WaitOutcomeView) -> Option<Result<(), ErrorView>> {
    match outcome {
        WaitOutcomeView::NoChild => Some(
            Err(process_failure("Wait failed: ECHILD: No child processes"@)),
        ),
        WaitOutcomeView::Failed { reason } => Some(
            Err(process_failure("Wait failed: "@ + reason)),
        ),
        _ => wait_turn(outcome),
    }
}

/// The cleanups after a container, in their order.
pub open spec fn cleanups() -> Seq<ParentAction> {
    seq![ParentAction::CleanupNetwork, ParentAction::CleanupCgroup, ParentAction::CleanupVolumes]
}

/// One turn of the supervising process.
///
/// After the fork it closes its reading end, lets the child settle, and
/// sets up the child's network. When the network is ready it releases the
/// barrier, closes its writing end and waits for the child. When the
/// network cannot be set up, it closes the writing end without releasing
/// the barrier, kills the child, and the container has ended with the
/// error of the setup. When the child has ended, the container has ended
/// as the child ended. Either way the network, the control group and the
/// volumes are cleaned up, and when that is reported, the run ends: well
/// exactly when the container ended well and every cleanup succeeded. A
/// fork that fails ends the run at once. Every other event changes nothing.
pub open spec fn parent_turn(state: ParentStateView, event: ParentEventView) -> ParentTurnView {
    match (state, event) {
        (ParentStateView::Start, ParentEventView::Forked { child }) => ParentTurnView {
            state: ParentStateView::Configuring { child },
            actions: seq![
                ParentAction::CloseReadEnd,
                ParentAction::Sleep { millis: SETTLE_MILLIS },
                ParentAction::SetupNetwork { child },
            ],
            result: None,
        },
        (ParentStateView::Start, ParentEventView::ForkFailed { reason }) => ParentTurnView {
            state: ParentStateView::Done,
            actions: seq![],
            result: Some(Err(error_of(ErrorKind::NamespaceSetup, "Fork failed: "@ + reason))),
        },
        (
            ParentStateView::Configuring { child },
            ParentEventView::NetworkReady,
        ) => ParentTurnView {
            state: ParentStateView::Waiting { child },
            actions: seq![
                ParentAction::ReleaseBarrier { byte: BARRIER_BYTE },
                ParentAction::CloseWriteEnd,
                ParentAction::Wait { child },
            ],
            result: None,
        },
        (
            ParentStateView::Configuring { child },
            ParentEventView::NetworkFailed { error },
        ) => ParentTurnView {
            state: ParentStateView::Cleaning { ended: Err(error) },
            actions: seq![ParentAction::CloseWriteEnd, ParentAction::Kill { child }] + cleanups(),
            result: None,
        },
        (
            ParentStateView::Waiting { child },
            ParentEventView::Waited { outcome },
        ) => match reaped(outcome) {
            Some(ended) => ParentTurnView {
                state: ParentStateView::Cleaning { ended },
                actions: cleanups(),
                result: None,
            },
            None => ParentTurnView {
                state: ParentStateView::Waiting { child },
                actions: seq![ParentAction::Wait { child }],
                result: None,
            },
        },
        (
            ParentStateView::Cleaning { ended },
            ParentEventView::CleanedUp { results },
        ) => ParentTurnView {
            state: ParentStateView::Done,
            actions: seq![],
            result: Some(concluded(ended, results)),
        },
        _ => ParentTurnView { state, actions: seq![], result: None },
    }
}

/// The barrier is released only after the network is ready: a turn of the
/// supervising process tells it to write the byte exactly when it is
/// configuring the network and hears that the network is ready.
pub proof fn lemma_release_after_network(state: ParentStateView, event: ParentEventView, i: int)
    requires
        0 <= i < parent_turn(state, event).actions.len(),
        parent_turn(state, event).actions[i] is ReleaseBarrier,
    ensures
        state is Configuring,
        event is NetworkReady,
{
}

/// A run ends well only if the container ended well and every cleanup
/// succeeded, and no run ends before its cleanups are reported, but one
/// whose fork failed.
pub proof fn lemma_run_ends_after_cleanup(state: ParentStateView, event: ParentEventView)
    requires
        parent_turn(state, event).result is Some,
    ensures
        state is Start || (state matches ParentStateView::Cleaning { ended }
            && event matches ParentEventView::CleanedUp { results } && (parent_turn(
            state,
            event,
        ).result->0 is Ok <==> ended is Ok && forall|i: int|
            0 <= i < results.len() ==> (#[trigger] results[i]) is Ok)),
{
    if let ParentStateView::Cleaning { ended } = state {
        if let ParentEventView::CleanedUp { results } = event {
            lemma_first_error(results);
        }
    }
}

fn push_cleanups(actions: &mut Vec<ParentAction>)
    ensures
        final(actions)@ == old(actions)@ + cleanups(),
{
    actions.push(ParentAction::CleanupNetwork);
    actions.push(ParentAction::CleanupCgroup);
    actions.push(ParentAction::CleanupVolumes);
    assert(actions@ =~= old(actions)@ + cleanups());
}

/// One turn of the supervising process.
pub fn supervise(state: ParentState, event: ParentEvent) -> (turn: ParentTurn)
    ensures
        turn@ == parent_turn(state@, event@),
{
    let mut actions: Vec<ParentAction> = Vec::new();
    let turn = match (state, event) {
        (ParentState::Start, ParentEvent::Forked { child }) => {
            actions.push(ParentAction::CloseReadEnd);
            actions.push(ParentAction::Sleep { millis: SETTLE_MILLIS });
            actions.push(ParentAction::SetupNetwork { child });
            ParentTurn { state: ParentState::Configuring { child }, actions, result: None }
        },
        (ParentState::Start, ParentEvent::ForkFailed { reason }) => {
            let mut message = String::from_str("Fork failed: ");
            message.append(reason.as_str());
            ParentTurn {
                state: ParentState::Done,
                actions,
                result: Some(Err(ContainerError::NamespaceSetup { message })),
            }
        },
        (ParentState::Configuring { child }, ParentEvent::NetworkReady) => {
            actions.push(ParentAction::ReleaseBarrier { byte: BARRIER_BYTE });
            actions.push(ParentAction::CloseWriteEnd);
            actions.push(ParentAction::Wait { child });
            ParentTurn { state: ParentState::Waiting { child }, actions, result: None }
        },
        (ParentState::Configuring { child }, ParentEvent::NetworkFailed { error }) => {
            actions.push(ParentAction::CloseWriteEnd);
            actions.push(ParentAction::Kill { child });
            push_cleanups(&mut actions);
            ParentTurn { state: ParentState::Cleaning { ended: Err(error) }, actions, result: None }
        },
        (ParentState::Waiting { child }, ParentEvent::Waited { outcome }) => {
            let ended: Option<ContainerResult<()>> = match &outcome {
                WaitOutcome::NoChild => Some(
                    Err(
                        ContainerError::ProcessExecution {
                            message: String::from_str("Wait failed: ECHILD: No child processes"),
                        },
                    ),
                ),
                WaitOutcome::Failed { reason } => {
                    let mut message = String::from_str("Wait failed: ");
                    message.append(reason.as_str());
                    Some(Err(ContainerError::ProcessExecution { message }))
                },
                _ => ProcessManager::wait_for_child(&outcome),
            };
            match ended {
                Some(ended) => {
                    push_cleanups(&mut actions);
                    ParentTurn { state: ParentState::Cleaning { ended }, actions, result: None }
                },
                None => {
                    actions.push(ParentAction::Wait { child });
                    ParentTurn { state: ParentState::Waiting { child }, actions, result: None }
                },
            }
        },
        (ParentState::Cleaning { ended }, ParentEvent::CleanedUp { results }) => {
            let result = conclude(ended, &results);
            ParentTurn { state: ParentState::Done, actions, result: Some(result) }
        },
        (state, _) => ParentTurn { state, actions, result: None },
    };
    assert(turn@.actions =~= parent_turn(state@, event@).actions);
    turn
}

} // verus!
