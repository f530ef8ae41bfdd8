//! Finding, starting and supervising the payload of a container.

use crate::command::{
    host_step, needed, push_step, Action, ActionView, Condition, Policy, PolicyView, Step,
    StepView,
};
use crate::error::{process_failure, ContainerError, ContainerResult, ErrorKind, ErrorView};
use crate::filesystem::devpts_options;
use crate::error::outcome_of;
use crate::path::{absolute, is_absolute};
use crate::text::{
    chars_of, contains, contains_text, lemma_views_push, prefixed, signed_string, signed_text,
    split, split_on, strings_of, texts, views,
};
use vstd::prelude::*;

verus! {

/// The directories in which a command without a path is looked for, in this order.
pub open spec fn search_dirs() -> Seq<Seq<char>> {
    seq!["/bin"@, "/usr/bin"@, "/sbin"@, "/usr/sbin"@]
}

/// The places where `command` may be: itself where it is an absolute path,
/// and otherwise its name in each of the search directories.
pub open spec fn candidates(command: Seq<char>) -> Seq<Seq<char>> {
    if is_absolute(command) {
        seq![command]
    } else {
        Seq::new(4, |i: int| search_dirs()[i] + "/"@ + command)
    }
}

/// The first position from `from` on, below `limit`, at which `present` is
/// true; `limit` where there is none. Positions that `present` does not
/// have count as false.
pub open spec fn first_true(present: Seq<bool>, from: int, limit: int) -> int
    decreases limit - from,
{
    if from >= limit || from < 0 || from >= present.len() {
        limit
    } else if present[from] {
        from
    } else {
        first_true(present, from + 1, limit)
    }
}

/// The failure for a command that is nowhere.
pub open spec fn not_found(path: Seq<char>) -> ErrorView {
    process_failure("command not found in container: "@ + path)
}

/// The failure for a command that is nowhere says so in these words,
/// whatever the command.
pub proof fn lemma_not_found_says_so(path: Seq<char>)
    ensures
        not_found(path).kind == ErrorKind::ProcessExecution,
        contains_text(not_found(path).message, "command not found in container"@),
{
    reveal_strlit("command not found in container: ");
    reveal_strlit("command not found in container");
    let words = "command not found in container"@;
    let message = not_found(path).message;
    assert(message.subrange(0, 0 + words.len() as int) =~= words);
    assert(crate::text::occurs_at(message, words, 0));
}

/// The program to run for `command`, where `present[i]` tells whether the
/// `i`-th candidate is there: the first candidate that is there. Where none
/// is, the error names the first candidate.
pub open spec fn resolved(command: Seq<char>, present: Seq<bool>) -> Result<Seq<char>, ErrorView> {
    let places = candidates(command);
    let i = first_true(present, 0, places.len() as int);
    if i < places.len() {
        Ok(places[i])
    } else {
        Err(not_found(places[0]))
    }
}

/// Whether one of `items` holds the character NUL, which no argument of a
/// program can hold.
pub open spec fn has_nul(items: Seq<Seq<char>>) -> bool {
    exists|i: int, j: int|
        0 <= i < items.len() && 0 <= j < items[i].len() && #[trigger] items[i][j] as u32 == 0
}

/// The failure for an argument that holds the character NUL.
pub open spec fn nul_argument() -> ErrorView {
    process_failure("Argument contains a NUL byte"@)
}

/// The argument vector of the payload: the program, then the arguments.
pub open spec fn argv_of(program: Seq<char>, args: Seq<Seq<char>>) -> Result<
    Seq<Seq<char>>,
    ErrorView,
> {
    if has_nul(seq![program] + args) {
        Err(nul_argument())
    } else {
        Ok(seq![program] + args)
    }
}

/// The environment of every payload. Nothing of the host's environment is handed on.
pub open spec fn environment() -> Seq<Seq<char>> {
    seq![
        "PATH=/usr/local/sbin:/usr/local/bin:/usr/sbin:/usr/bin:/sbin:/bin"@,
        "TERM=xterm-256color"@,
        "HOME=/root"@,
        "HOSTNAME=rust-container"@,
        "container=rust-container-runtime"@,
    ]
}

/// How the payload is to be started.
#[derive(Debug, Clone, PartialEq, Eq)]
pub struct Execution {
    /// The program to execute.
    pub program: String,
    /// Its argument vector, the program first.
    pub argv: Vec<String>,
    /// Its environment.
    pub envp: Vec<String>,
    /// Whether it runs under a pseudo-terminal.
    pub use_pty: bool,
}

/// `Execution`, with every text as the sequence of its characters.
pub struct ExecutionView {
    pub program: Seq<char>,
    pub argv: Seq<Seq<char>>,
    pub envp: Seq<Seq<char>>,
    pub use_pty: bool,
}

impl View for Execution {
    type V = ExecutionView;

    open spec fn view(&self) -> ExecutionView {
        ExecutionView {
            program: self.program@,
            argv: views(self.argv@),
            envp: views(self.envp@),
            use_pty: self.use_pty,
        }
    }
}

/// How `command` with `args` is started: the program is the first candidate
/// that is there, the environment is the fixed one, and a pseudo-terminal is
/// used where one can be had.
pub open spec fn execution_of(
    command: Seq<char>,
    args: Seq<Seq<char>>,
    present: Seq<bool>,
    pty_available: bool,
) -> Result<ExecutionView, ErrorView> {
    match resolved(command, present) {
        Err(e) => Err(e),
        Ok(program) => match argv_of(program, args) {
            Err(e) => Err(e),
            Ok(argv) => Ok(
                ExecutionView { program, argv, envp: environment(), use_pty: pty_available },
            ),
        },
    }
}

/// Whether the list of mounts shows a terminal file system at `/dev/pts`:
/// one of its lines holds both `/dev/pts` and `devpts`.
pub open spec fn devpts_listed(mounts: Seq<char>) -> bool {
    exists|i: int|
        0 <= i < split_on(mounts, '\n').len() && contains_text(
            #[trigger] split_on(mounts, '\n')[i],
            "/dev/pts"@,
        ) && contains_text(split_on(mounts, '\n')[i], "devpts"@)
}

/// The steps that make sure the container has a terminal file system.
/// `/dev/pts` is made if it is missing. Unless it is mounted already, the
/// file system is mounted there and `/dev/ptmx` is linked to it; a failure
/// of these two is accepted.
pub open spec fn devpts_setup(mounted: bool) -> Seq<StepView> {
    seq![
        host_step(ActionView::Exists { path: "/dev/pts"@ }, PolicyView::Ignore),
        host_step(
            ActionView::CreateDir { path: "/dev/pts"@ },
            needed(ErrorKind::Cgroup, "Failed to create /dev/pts: "@),
        ).when(Condition::AfterRefusal),
    ] + (if mounted {
        seq![]
    } else {
        seq![
            host_step(
                ActionView::Mount {
                    source: "devpts"@,
                    target: "/dev/pts"@,
                    kind: "devpts"@,
                    options: devpts_options(),
                },
                PolicyView::Ignore,
            ),
            host_step(
                ActionView::Symlink { target: "/dev/pts/ptmx"@, link: "/dev/ptmx"@ },
                PolicyView::Ignore,
            ),
        ]
    })
}

/// A signal that the runtime handles.
#[derive(Debug, Clone, Copy, PartialEq, Eq, Structural)]
pub enum Signal {
    Int,
    Term,
    Quit,
    Tstp,
    Ttin,
    Ttou,
}

/// What the new process does between the fork and the payload.
#[derive(Debug, Clone, Copy, PartialEq, Eq, Structural)]
pub enum ChildAction {
    /// Close the master side of the pseudo-terminal.
    CloseMaster,
    /// Start a new session and lead it.
    NewSession,
    /// Make the slave side standard input, output and error.
    AttachTerminal,
    /// Make the terminal at standard input the controlling terminal.
    ControlTerminal,
    /// Make the process group the foreground group of the terminal.
    ForegroundGroup,
    /// Close the slave side, now that the standard streams hold it.
    CloseSlave,
    /// Handle the signal as a process does by default.
    DefaultSignal { signal: Signal },
    /// Replace the process by the payload.
    Execute,
}

/// The signals that the supervisor hands on to the payload.
pub open spec fn forwarded_signals() -> Seq<Signal> {
    seq![Signal::Int, Signal::Term, Signal::Quit]
}

/// What the new process does before the payload, in this order.
pub open spec fn child_actions(use_pty: bool) -> Seq<ChildAction> {
    if use_pty {
        seq![
            ChildAction::CloseMaster,
            ChildAction::NewSession,
            ChildAction::AttachTerminal,
            ChildAction::ControlTerminal,
            ChildAction::ForegroundGroup,
            ChildAction::CloseSlave,
            ChildAction::DefaultSignal { signal: Signal::Int },
            ChildAction::DefaultSignal { signal: Signal::Term },
            ChildAction::DefaultSignal { signal: Signal::Quit },
            ChildAction::DefaultSignal { signal: Signal::Tstp },
            ChildAction::DefaultSignal { signal: Signal::Ttin },
            ChildAction::DefaultSignal { signal: Signal::Ttou },
            ChildAction::Execute,
        ]
    } else {
        seq![
            ChildAction::NewSession,
            ChildAction::DefaultSignal { signal: Signal::Int },
            ChildAction::DefaultSignal { signal: Signal::Term },
            ChildAction::DefaultSignal { signal: Signal::Quit },
            ChildAction::Execute,
        ]
    }
}

/// A signal to send to a process.
#[derive(Debug, Clone, Copy, PartialEq, Eq, Structural)]
pub struct Delivery {
    pub pid: i32,
    pub signal: Signal,
}

/// What the supervisor does with a signal it receives: while a payload is
/// tracked, which is when `child` is positive, the same signal goes to it.
pub open spec fn forwarding(child: i32, signal: Signal) -> Option<Delivery> {
    if child > 0 {
        Some(Delivery { pid: child, signal })
    } else {
        None
    }
}

/// A flag of the terminal.
#[derive(Debug, Clone, Copy, PartialEq, Eq, Structural)]
pub enum TermFlag {
    Icanon,
    Echo,
    Isig,
    Iexten,
    Ixon,
    Icrnl,
    Brkint,
    Inpck,
    Istrip,
    Opost,
    Cs8,
}

/// Flags to clear and flags to set.
#[derive(Debug, Clone, PartialEq, Eq)]
pub struct TerminalChange {
    pub clear: Vec<TermFlag>,
    pub set: Vec<TermFlag>,
}

/// The flags that raw mode clears.
pub open spec fn raw_cleared() -> Seq<TermFlag> {
    seq![
        TermFlag::Icanon,
        TermFlag::Echo,
        TermFlag::Isig,
        TermFlag::Iexten,
        TermFlag::Ixon,
        TermFlag::Icrnl,
        TermFlag::Brkint,
        TermFlag::Inpck,
        TermFlag::Istrip,
        TermFlag::Opost,
    ]
}

/// The flags that cooked mode sets again.
pub open spec fn cooked_set() -> Seq<TermFlag> {
    seq![TermFlag::Icanon, TermFlag::Echo, TermFlag::Isig, TermFlag::Icrnl, TermFlag::Opost]
}

/// How waiting for the payload went.
#[derive(Debug, Clone, PartialEq, Eq)]
pub enum WaitOutcome {
    /// It exited with this status.
    Exited { status: i32 },
    /// It was killed by the signal of this name.
    Signaled { signal: String },
    /// It is still running.
    StillAlive,
    /// It changed its state in another way.
    Other,
    /// There is no such child.
    NoChild,
    /// Waiting was interrupted.
    Interrupted,
    /// Waiting failed for another reason.
    Failed { reason: String },
}

/// `WaitOutcome`, with every text as the sequence of its characters.
pub enum WaitOutcomeView {
    Exited { status: i32 },
    Signaled { signal: Seq<char> },
    StillAlive,
    Other,
    NoChild,
    Interrupted,
    Failed { reason: Seq<char> },
}

impl View for WaitOutcome {
    type V = WaitOutcomeView;

    open spec fn view(&self) -> WaitOutcomeView {
        match self {
            WaitOutcome::Exited { status } => WaitOutcomeView::Exited { status: *status },
            WaitOutcome::Signaled { signal } => WaitOutcomeView::Signaled { signal: signal@ },
            WaitOutcome::StillAlive => WaitOutcomeView::StillAlive,
            WaitOutcome::Other => WaitOutcomeView::Other,
            WaitOutcome::NoChild => WaitOutcomeView::NoChild,
            WaitOutcome::Interrupted => WaitOutcomeView::Interrupted,
            WaitOutcome::Failed { reason } => WaitOutcomeView::Failed { reason: reason@ },
        }
    }
}

/// How reading from the master side of the pseudo-terminal went.
#[derive(Debug, Clone, Copy, PartialEq, Eq, Structural)]
pub enum ReadOutcome {
    /// Nothing more will come.
    Eof,
    /// So many bytes were read.
    Data { len: usize },
    /// Nothing is there yet.
    WouldBlock,
    /// Reading failed.
    Failed,
}

/// Something that happened while the payload is supervised.
#[derive(Debug, Clone, PartialEq, Eq)]
pub enum SupervisorEvent {
    Waited { outcome: WaitOutcome },
    Read { outcome: ReadOutcome },
}

/// `SupervisorEvent`, with every text as the sequence of its characters.
pub enum SupervisorEventView {
    Waited { outcome: WaitOutcomeView },
    Read { outcome: ReadOutcome },
}

impl View for SupervisorEvent {
    type V = SupervisorEventView;

    open spec fn view(&self) -> SupervisorEventView {
        match self {
            SupervisorEvent::Waited { outcome } => SupervisorEventView::Waited {
                outcome: outcome@,
            },
            SupervisorEvent::Read { outcome } => SupervisorEventView::Read { outcome: *outcome },
        }
    }
}

/// What the supervisor of a payload under a pseudo-terminal does next.
#[derive(Debug, Clone, Copy, PartialEq, Eq, Structural)]
pub enum SupervisorState {
    /// It asks, without waiting, whether the payload has ended.
    Polling,
    /// It reads what the payload has written.
    Reading,
    /// It waits until the payload has ended.
    Finishing,
    /// It is done.
    Done,
}

/// Something for the supervisor to do.
#[derive(Debug, Clone, Copy, PartialEq, Eq, Structural)]
pub enum SupervisorAction {
    /// Write everything that can still be read to standard output.
    Drain,
    /// Flush standard output.
    Flush,
    /// Forget the payload, so that signals are no longer handed on.
    ClearChild,
    /// Put the terminal back into cooked mode.
    RestoreTerminal,
    /// Write the bytes that were read to standard output and flush it.
    Forward { len: usize },
    /// Wait for so many milliseconds.
    Sleep { millis: u64 },
}

/// How long the supervisor waits when there is nothing to read.
pub const IDLE_MILLIS: u64 = 10;

/// One turn of the supervisor: its next state, what it does on the way, and
/// the result of the supervision once that is known.
pub struct Turn {
    pub state: SupervisorState,
    pub actions: Vec<SupervisorAction>,
    pub result: Option<ContainerResult<()>>,
}

/// `Turn`, with every text as the sequence of its characters.
pub struct TurnView {
    pub state: SupervisorState,
    pub actions: Seq<SupervisorAction>,
    pub result: Option<Result<(), ErrorView>>,
}

impl View for Turn {
    type V = TurnView;

    open spec fn view(&self) -> TurnView {
        TurnView {
            state: self.state,
            actions: self.actions@,
            result: match self.result {
                Some(r) => Some(outcome_of(r)),
                None => None,
            },
        }
    }
}

/// What the exit status of the payload means: zero is success, anything
/// else an error that names the status.
pub open spec fn exit_outcome(status: i32) -> Result<(), ErrorView> {
    if status == 0 {
        Ok(())
    } else {
        Err(
            process_failure(
                "Container process exited with non-zero status: "@ + signed_text(status as int),
            ),
        )
    }
}

/// The failure of a payload that a signal killed.
pub open spec fn killed(signal: Seq<char>) -> ErrorView {
    process_failure("Container process killed by signal: "@ + signal)
}

/// What the supervisor does when the payload has ended: what the payload
/// still wrote is drained to standard output, which is flushed; the payload
/// is forgotten; and the terminal is put back into cooked mode.
pub open spec fn winding_up() -> Seq<SupervisorAction> {
    seq![
        SupervisorAction::Drain,
        SupervisorAction::Flush,
        SupervisorAction::ClearChild,
        SupervisorAction::RestoreTerminal,
    ]
}

/// A turn that leaves the supervisor where it is.
pub open spec fn stay(state: SupervisorState) -> TurnView {
    TurnView { state, actions: seq![], result: None }
}

/// One turn of the supervisor of a payload under a pseudo-terminal.
///
/// While polling: a payload that has ended, by exit or by a signal, is
/// wound up as `winding_up` says, and the result is known. A payload that
/// runs is read from. If the system knows no such child, the supervisor
/// goes on to wait for good. Anything else is asked again.
///
/// While reading: bytes that were read are handed on; otherwise the
/// supervisor idles for a moment. Either way it polls again.
///
/// While finishing: however waiting ends, the payload is wound up; an exit
/// status or a signal decides the result, and anything else counts as
/// success.
pub open spec fn pty_turn(state: SupervisorState, event: SupervisorEventView) -> TurnView {
    match (state, event) {
        (SupervisorState::Polling, SupervisorEventView::Waited { outcome }) => match outcome {
            WaitOutcomeView::Exited { status } => TurnView {
                state: SupervisorState::Done,
                actions: winding_up(),
                result: Some(exit_outcome(status)),
            },
            WaitOutcomeView::Signaled { signal } => TurnView {
                state: SupervisorState::Done,
                actions: winding_up(),
                result: Some(Err(killed(signal))),
            },
            WaitOutcomeView::StillAlive => stay(SupervisorState::Reading),
            WaitOutcomeView::NoChild => stay(SupervisorState::Finishing),
            _ => stay(SupervisorState::Polling),
        },
        (SupervisorState::Reading, SupervisorEventView::Read { outcome }) => match outcome {
            ReadOutcome::Data { len } => TurnView {
                state: SupervisorState::Polling,
                actions: seq![SupervisorAction::Forward { len }],
                result: None,
            },
            _ => TurnView {
                state: SupervisorState::Polling,
                actions: seq![SupervisorAction::Sleep { millis: IDLE_MILLIS }],
                result: None,
            },
        },
        (SupervisorState::Finishing, SupervisorEventView::Waited { outcome }) => match outcome {
            WaitOutcomeView::Exited { status } => TurnView {
                state: SupervisorState::Done,
                actions: winding_up(),
                result: Some(exit_outcome(status)),
            },
            WaitOutcomeView::Signaled { signal } => TurnView {
                state: SupervisorState::Done,
                actions: winding_up(),
                result: Some(Err(killed(signal))),
            },
            _ => TurnView {
                state: SupervisorState::Done,
                actions: winding_up(),
                result: Some(Ok(())),
            },
        },
        _ => stay(state),
    }
}

/// What waiting for a payload without pseudo-terminal comes to: the result,
/// or nothing where waiting has to be tried again.
///
/// An exit status or a signal decides the result. Waiting that was
/// interrupted, and a change of state that is no end, are tried again. Any
/// other failure of waiting is the result.
pub open spec fn wait_turn(outcome: WaitOutcomeView) -> Option<Result<(), ErrorView>> {
    match outcome {
        WaitOutcomeView::Exited { status } => Some(exit_outcome(status)),
        WaitOutcomeView::Signaled { signal } => Some(Err(killed(signal))),
        WaitOutcomeView::StillAlive => None,
        WaitOutcomeView::Other => None,
        WaitOutcomeView::Interrupted => None,
        WaitOutcomeView::NoChild => Some(
            Err(process_failure("waitpid failed: ECHILD: No child processes"@)),
        ),
        WaitOutcomeView::Failed { reason } => Some(
            Err(process_failure("waitpid failed: "@ + reason)),
        ),
    }
}


/// One turn of the runtime while it waits for a payload without
/// pseudo-terminal: it waits again, or it is done with the result, and the
/// payload is forgotten however it ended.
pub open spec fn plain_turn(outcome: WaitOutcomeView) -> TurnView {
    match wait_turn(outcome) {
        None => stay(SupervisorState::Finishing),
        Some(result) => TurnView {
            state: SupervisorState::Done,
            actions: seq![SupervisorAction::ClearChild],
            result: Some(result),
        },
    }
}

/// Every turn that ends the supervision forgets the payload, so that no
/// signal is handed on to a process that is gone.
pub proof fn lemma_ending_turn_clears(
    state: SupervisorState,
    event: SupervisorEventView,
    outcome: WaitOutcomeView,
)
    ensures
        pty_turn(state, event).result is Some ==> pty_turn(state, event).actions.contains(
            SupervisorAction::ClearChild,
        ),
        plain_turn(outcome).result is Some ==> plain_turn(outcome).actions.contains(
            SupervisorAction::ClearChild,
        ),
{
    let turn = pty_turn(state, event);
    if turn.result is Some {
        assert(turn.actions[2] == SupervisorAction::ClearChild);
    }
    if plain_turn(outcome).result is Some {
        assert(plain_turn(outcome).actions[0] == SupervisorAction::ClearChild);
    }
}

/// A text or an error, as plain values.
pub open spec fn text_outcome(r: ContainerResult<String>) -> Result<Seq<char>, ErrorView> {
    match r {
        Ok(s) => Ok(s@),
        Err(e) => Err(e@),
    }
}

/// A list of texts or an error, as plain values.
pub open spec fn list_outcome(r: ContainerResult<Vec<String>>) -> Result<
    Seq<Seq<char>>,
    ErrorView,
> {
    match r {
        Ok(v) => Ok(views(v@)),
        Err(e) => Err(e@),
    }
}

/// An execution or an error, as plain values.
pub open spec fn execution_outcome(r: ContainerResult<Execution>) -> Result<
    ExecutionView,
    ErrorView,
> {
    match r {
        Ok(x) => Ok(x@),
        Err(e) => Err(e@),
    }
}

fn holds_nul(s: &str) -> (r: bool)
    ensures
        r == exists|j: int| 0 <= j < s@.len() && #[trigger] s@[j] as u32 == 0,
{
    let text = chars_of(s);
    let mut j: usize = 0;
    while j < text.len()
        invariant
            j <= text.len(),
            text@ == s@,
            forall|k: int| 0 <= k < j ==> #[trigger] s@[k] as u32 != 0,
        decreases text.len() - j,
    {
        if text[j] as u32 == 0 {
            return true;
        }
        j += 1;
    }
    false
}

/// What the exit status of a payload means.
pub fn status_result(status: i32) -> (r: ContainerResult<()>)
    ensures
        outcome_of(r) == exit_outcome(status),
{
    if status == 0 {
        Ok(())
    } else {
        let mut message = String::from_str("Container process exited with non-zero status: ");
        let number = signed_string(status as i64);
        message.append(number.as_str());
        Err(ContainerError::ProcessExecution { message })
    }
}

fn killed_by(signal: &String) -> (e: ContainerError)
    ensures
        e@ == killed(signal@),
{
    let mut message = String::from_str("Container process killed by signal: ");
    message.append(signal.as_str());
    ContainerError::ProcessExecution { message }
}

fn wind_up(actions: &mut Vec<SupervisorAction>)
    ensures
        final(actions)@ == old(actions)@ + winding_up(),
{
    actions.push(SupervisorAction::Drain);
    actions.push(SupervisorAction::Flush);
    actions.push(SupervisorAction::ClearChild);
    actions.push(SupervisorAction::RestoreTerminal);
    assert(actions@ =~= old(actions)@ + winding_up());
}

/// The work on the payload of a container.
#[derive(Debug)]
pub struct ProcessManager;

impl ProcessManager {
    /// The places where `command` may be.
    pub fn command_candidates(command: &str) -> (places: Vec<String>)
        ensures
            views(places@) == candidates(command@),
    {
        let text = chars_of(command);
        if absolute(text.as_slice()) {
            let places = strings_of(&[command]);
            assert(views(places@) =~= candidates(command@));
            return places;
        }
        let mut places: Vec<String> = Vec::new();
        let dirs: [&str; 4] = ["/bin", "/usr/bin", "/sbin", "/usr/sbin"];
        let mut i: usize = 0;
        while i < 4
            invariant
                i <= 4,
                places.len() == i,
                dirs@ == seq!["/bin", "/usr/bin", "/sbin", "/usr/sbin"],
                forall|k: int| 0 <= k < i ==> places@[k]@ == search_dirs()[k] + "/"@ + command@,
            decreases 4 - i,
        {
            let mut place = String::from_str(dirs[i]);
            place.append("/");
            place.append(command);
            places.push(place);
            i += 1;
        }
        assert(views(places@) =~= candidates(command@));
        places
    }

    /// The program to run for `command`, where `present[i]` tells whether
    /// the `i`-th of its candidates is there.
    pub fn resolve_command(command: &str, present: &Vec<bool>) -> (r: ContainerResult<String>)
        ensures
            text_outcome(r) == resolved(command@, present@),
    {
        let places = ProcessManager::command_candidates(command);
        let ghost all = views(places@);
        let mut i: usize = 0;
        while i < places.len() && i < present.len()
            invariant
                i <= places.len(),
                all == views(places@),
                all == candidates(command@),
                first_true(present@, 0, all.len() as int) == first_true(
                    present@,
                    i as int,
                    all.len() as int,
                ),
            decreases places.len() - i,
        {
            if present[i] {
                assert(all[i as int] == places@[i as int]@);
                return Ok(places[i].clone());
            }
            i += 1;
        }
        assert(all[0] == places@[0]@);
        let first = chars_of(places[0].as_str());
        Err(
            ContainerError::ProcessExecution {
                message: prefixed("command not found in container: ", first.as_slice()),
            },
        )
    }

    /// The argument vector of the payload: the program, then the arguments.
    /// An argument that holds the character NUL is refused.
    pub fn build_argv(command_path: &str, args: &Vec<String>) -> (r: ContainerResult<Vec<String>>)
        ensures
            list_outcome(r) == argv_of(command_path@, views(args@)),
    {
        let ghost all = seq![command_path@] + views(args@);
        if holds_nul(command_path) {
            proof {
                let j = choose|j: int|
                    0 <= j < command_path@.len() && #[trigger] command_path@[j] as u32 == 0;
                assert(all[0][j] as u32 == 0);
            }
            return Err(
                ContainerError::ProcessExecution {
                    message: String::from_str("Argument contains a NUL byte"),
                },
            );
        }
        let mut argv: Vec<String> = Vec::new();
        argv.push(String::from_str(command_path));
        let mut i: usize = 0;
        assert(views(argv@) =~= seq![command_path@] + views(args@).take(0));
        while i < args.len()
            invariant
                i <= args.len(),
                all == seq![command_path@] + views(args@),
                views(argv@) == seq![command_path@] + views(args@).take(i as int),
                forall|a: int, b: int|
                    0 <= a <= i && 0 <= b < all[a].len() ==> #[trigger] all[a][b] as u32 != 0,
            decreases args.len() - i,
        {
            assert(all[i + 1] == args@[i as int]@);
            if holds_nul(args[i].as_str()) {
                proof {
                    let item = args@[i as int]@;
                    let j = choose|j: int| 0 <= j < item.len() && #[trigger] item[j] as u32 == 0;
                    assert(all[i + 1][j] as u32 == 0);
                }
                return Err(
                    ContainerError::ProcessExecution {
                        message: String::from_str("Argument contains a NUL byte"),
                    },
                );
            }
            proof {
                lemma_views_push(argv@, args@[i as int]);
                assert(views(args@).take(i + 1) =~= views(args@).take(i as int).push(
                    args@[i as int]@,
                ));
            }
            argv.push(args[i].clone());
            assert(views(argv@) =~= seq![command_path@] + views(args@).take(i + 1));
            i += 1;
        }
        assert(views(args@).take(i as int) =~= views(args@));
        Ok(argv)
    }

    /// The environment of every payload.
    pub fn build_environment() -> (r: ContainerResult<Vec<String>>)
        ensures
            list_outcome(r) == Ok::<Seq<Seq<char>>, ErrorView>(environment()),
    {
        let envp = strings_of(
            &[
                "PATH=/usr/local/sbin:/usr/local/bin:/usr/sbin:/usr/bin:/sbin:/bin",
                "TERM=xterm-256color",
                "HOME=/root",
                "HOSTNAME=rust-container",
                "container=rust-container-runtime",
            ],
        );
        assert(views(envp@) =~= environment());
        Ok(envp)
    }

    /// Says how the payload is started. `present[i]` tells whether the
    /// `i`-th candidate for the command is there, and `pty_available`
    /// whether a pseudo-terminal can be had.
    pub fn execute_container_command(
        command: &str,
        args: &Vec<String>,
        present: &Vec<bool>,
        pty_available: bool,
    ) -> (r: ContainerResult<Execution>)
        ensures
            execution_outcome(r) == execution_of(command@, views(args@), present@, pty_available),
    {
        let program = ProcessManager::resolve_command(command, present)?;
        let argv = ProcessManager::build_argv(program.as_str(), args)?;
        let envp = ProcessManager::build_environment()?;
        Ok(Execution { program, argv, envp, use_pty: pty_available })
    }

    /// Whether the list of mounts shows a terminal file system at `/dev/pts`.
    pub fn devpts_mounted(mounts: &str) -> (r: bool)
        ensures
            r == devpts_listed(mounts@),
    {
        let text = chars_of(mounts);
        let lines = split(text.as_slice(), '\n');
        let place = chars_of("/dev/pts");
        let kind = chars_of("devpts");
        let mut i: usize = 0;
        while i < lines.len()
            invariant
                i <= lines.len(),
                views(lines@) == split_on(mounts@, '\n'),
                place@ == "/dev/pts"@,
                kind@ == "devpts"@,
                forall|k: int|
                    0 <= k < i ==> !(contains_text(
                        #[trigger] split_on(mounts@, '\n')[k],
                        "/dev/pts"@,
                    ) && contains_text(split_on(mounts@, '\n')[k], "devpts"@)),
            decreases lines.len() - i,
        {
            assert(views(lines@)[i as int] == lines@[i as int]@);
            if contains(lines[i].as_slice(), place.as_slice()) && contains(
                lines[i].as_slice(),
                kind.as_slice(),
            ) {
                return true;
            }
            i += 1;
        }
        false
    }

    /// Plans making sure that the container has a terminal file system.
    /// `mounts` is the list of mounts, if it could be read.
    pub fn ensure_devpts_mounted(mounts: Option<&str>) -> (plan: Vec<Step>)
        ensures
            views(plan@) == devpts_setup(mounts matches Some(m) && devpts_listed(m@)),
    {
        let mounted = match mounts {
            Some(m) => ProcessManager::devpts_mounted(m),
            None => false,
        };
        let mut plan: Vec<Step> = Vec::new();
        push_step(
            &mut plan,
            Step::of(Action::Exists { path: String::from_str("/dev/pts") }, Policy::Ignore),
        );
        push_step(
            &mut plan,
            Step::of(
                Action::CreateDir { path: String::from_str("/dev/pts") },
                Policy::needed(ErrorKind::Cgroup, "Failed to create /dev/pts: "),
            ).when(Condition::AfterRefusal),
        );
        if !mounted {
            push_step(
                &mut plan,
                Step::of(
                    Action::Mount {
                        source: String::from_str("devpts"),
                        target: String::from_str("/dev/pts"),
                        kind: String::from_str("devpts"),
                        options: String::from_str("newinstance,ptmxmode=0666,mode=0620,gid=5"),
                    },
                    Policy::Ignore,
                ),
            );
            push_step(
                &mut plan,
                Step::of(
                    Action::Symlink {
                        target: String::from_str("/dev/pts/ptmx"),
                        link: String::from_str("/dev/ptmx"),
                    },
                    Policy::Ignore,
                ),
            );
        }
        assert(views(plan@) =~= devpts_setup(mounted));
        plan
    }

    /// What the new process does before the payload.
    pub fn child_actions(use_pty: bool) -> (actions: Vec<ChildAction>)
        ensures
            actions@ == child_actions(use_pty),
    {
        let mut actions: Vec<ChildAction> = Vec::new();
        if use_pty {
            actions.push(ChildAction::CloseMaster);
            actions.push(ChildAction::NewSession);
            actions.push(ChildAction::AttachTerminal);
            actions.push(ChildAction::ControlTerminal);
            actions.push(ChildAction::ForegroundGroup);
            actions.push(ChildAction::CloseSlave);
            actions.push(ChildAction::DefaultSignal { signal: Signal::Int });
            actions.push(ChildAction::DefaultSignal { signal: Signal::Term });
            actions.push(ChildAction::DefaultSignal { signal: Signal::Quit });
            actions.push(ChildAction::DefaultSignal { signal: Signal::Tstp });
            actions.push(ChildAction::DefaultSignal { signal: Signal::Ttin });
            actions.push(ChildAction::DefaultSignal { signal: Signal::Ttou });
        } else {
            actions.push(ChildAction::NewSession);
            actions.push(ChildAction::DefaultSignal { signal: Signal::Int });
            actions.push(ChildAction::DefaultSignal { signal: Signal::Term });
            actions.push(ChildAction::DefaultSignal { signal: Signal::Quit });
        }
        actions.push(ChildAction::Execute);
        assert(actions@ =~= child_actions(use_pty));
        actions
    }

    /// The signals that the supervisor hands on to the payload.
    pub fn forwarded_signals() -> (signals: Vec<Signal>)
        ensures
            signals@ == forwarded_signals(),
    {
        let mut signals: Vec<Signal> = Vec::new();
        signals.push(Signal::Int);
        signals.push(Signal::Term);
        signals.push(Signal::Quit);
        assert(signals@ =~= forwarded_signals());
        signals
    }

    /// What the supervisor does with a signal it receives, where `child` is
    /// the payload it tracks, or zero while it tracks none.
    pub fn handle_signal(child: i32, signal: Signal) -> (r: Option<Delivery>)
        ensures
            r == forwarding(child, signal),
    {
        if child > 0 {
            Some(Delivery { pid: child, signal })
        } else {
            None
        }
    }

    /// How the terminal changes when raw mode is switched on, and how when
    /// cooked mode comes back.
    pub fn set_raw_mode(enable: bool) -> (change: TerminalChange)
        ensures
            change.clear@ == if enable {
                raw_cleared()
            } else {
                Seq::<TermFlag>::empty()
            },
            change.set@ == if enable {
                seq![TermFlag::Cs8]
            } else {
                cooked_set()
            },
    {
        let mut clear: Vec<TermFlag> = Vec::new();
        let mut set: Vec<TermFlag> = Vec::new();
        if enable {
            clear.push(TermFlag::Icanon);
            clear.push(TermFlag::Echo);
            clear.push(TermFlag::Isig);
            clear.push(TermFlag::Iexten);
            clear.push(TermFlag::Ixon);
            clear.push(TermFlag::Icrnl);
            clear.push(TermFlag::Brkint);
            clear.push(TermFlag::Inpck);
            clear.push(TermFlag::Istrip);
            clear.push(TermFlag::Opost);
            set.push(TermFlag::Cs8);
            assert(clear@ =~= raw_cleared());
            assert(set@ =~= seq![TermFlag::Cs8]);
        } else {
            set.push(TermFlag::Icanon);
            set.push(TermFlag::Echo);
            set.push(TermFlag::Isig);
            set.push(TermFlag::Icrnl);
            set.push(TermFlag::Opost);
            assert(set@ =~= cooked_set());
        }
        TerminalChange { clear, set }
    }

    /// What waiting for a payload comes to, or nothing where waiting has to
    /// be tried again.
    pub fn wait_for_child(outcome: &WaitOutcome) -> (r: Option<ContainerResult<()>>)
        ensures
            match r {
                Some(result) => wait_turn(outcome@) == Some(outcome_of(result)),
                None => wait_turn(outcome@) is None,
            },
    {
        match outcome {
            WaitOutcome::Exited { status } => Some(status_result(*status)),
            WaitOutcome::Signaled { signal } => Some(Err(killed_by(signal))),
            WaitOutcome::StillAlive => None,
            WaitOutcome::Other => None,
            WaitOutcome::Interrupted => None,
            WaitOutcome::NoChild => Some(
                Err(
                    ContainerError::ProcessExecution {
                        message: String::from_str("waitpid failed: ECHILD: No child processes"),
                    },
                ),
            ),
            WaitOutcome::Failed { reason } => {
                let mut message = String::from_str("waitpid failed: ");
                message.append(reason.as_str());
                Some(Err(ContainerError::ProcessExecution { message }))
            },
        }
    }

    /// One turn of the runtime while it waits for a payload without pseudo-terminal.
    pub fn execute_without_pty(outcome: &WaitOutcome) -> (turn: Turn)
        ensures
            turn@ == plain_turn(outcome@),
    {
        match ProcessManager::wait_for_child(outcome) {
            None => Turn { state: SupervisorState::Finishing, actions: Vec::new(), result: None },
            Some(result) => {
                let mut actions: Vec<SupervisorAction> = Vec::new();
                actions.push(SupervisorAction::ClearChild);
                let turn = Turn { state: SupervisorState::Done, actions, result: Some(result) };
                assert(turn@.actions =~= plain_turn(outcome@).actions);
                turn
            },
        }
    }

    /// One turn of the supervisor of a payload under a pseudo-terminal.
    pub fn execute_with_pty(state: SupervisorState, event: &SupervisorEvent) -> (turn: Turn)
        ensures
            turn@ == pty_turn(state, event@),
    {
        let mut actions: Vec<SupervisorAction> = Vec::new();
        let turn = match (state, event) {
            (SupervisorState::Polling, SupervisorEvent::Waited { outcome }) => match outcome {
                WaitOutcome::Exited { status } => {
                    wind_up(&mut actions);
                    Turn {
                        state: SupervisorState::Done,
                        actions,
                        result: Some(status_result(*status)),
                    }
                },
                WaitOutcome::Signaled { signal } => {
                    wind_up(&mut actions);
                    Turn {
                        state: SupervisorState::Done,
                        actions,
                        result: Some(Err(killed_by(signal))),
                    }
                },
                WaitOutcome::StillAlive => Turn {
                    state: SupervisorState::Reading,
                    actions,
                    result: None,
                },
                WaitOutcome::NoChild => Turn {
                    state: SupervisorState::Finishing,
                    actions,
                    result: None,
                },
                _ => Turn { state: SupervisorState::Polling, actions, result: None },
            },
            (SupervisorState::Reading, SupervisorEvent::Read { outcome }) => match outcome {
                ReadOutcome::Data { len } => {
                    actions.push(SupervisorAction::Forward { len: *len });
                    Turn { state: SupervisorState::Polling, actions, result: None }
                },
                _ => {
                    actions.push(SupervisorAction::Sleep { millis: IDLE_MILLIS });
                    Turn { state: SupervisorState::Polling, actions, result: None }
                },
            },
            (SupervisorState::Finishing, SupervisorEvent::Waited { outcome }) => match outcome {
                WaitOutcome::Exited { status } => {
                    wind_up(&mut actions);
                    Turn {
                        state: SupervisorState::Done,
                        actions,
                        result: Some(status_result(*status)),
                    }
                },
                WaitOutcome::Signaled { signal } => {
                    wind_up(&mut actions);
                    Turn {
                        state: SupervisorState::Done,
                        actions,
                        result: Some(Err(killed_by(signal))),
                    }
                },
                _ => {
                    wind_up(&mut actions);
                    Turn { state: SupervisorState::Done, actions, result: Some(Ok(())) }
                },
            },
            _ => Turn { state, actions, result: None },
        };
        assert(turn@.actions =~= pty_turn(state, event@).actions);
        turn
    }
}

} // verus!
