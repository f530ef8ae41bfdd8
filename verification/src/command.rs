//! The protocol between the library and the program that acts for it.
//!
//! The library never runs a command or touches a file. It hands out steps:
//! an action, where to perform it, and how to judge what comes back. The
//! program performs the action, reports, and the library says what follows.

use crate::error::{
    error_of, network_failure, ContainerError, ContainerResult, ErrorKind, ErrorView,
};
use crate::namespace::Namespace;
use crate::error::outcome_of;
use crate::text::{
    chars_of, contains, contains_text, lemma_views_push, prefixed, signed_string, signed_text,
    strings_of, texts, views,
};
use vstd::prelude::*;

verus! {

/// A program to run on the host, with its arguments.
#[derive(Debug, Clone, PartialEq, Eq)]
pub struct HostCommand {
    pub program: String,
    pub args: Vec<String>,
}

/// A command as plain text.
pub struct CommandView {
    pub program: Seq<char>,
    pub args: Seq<Seq<char>>,
}

impl View for HostCommand {
    type V = CommandView;

    open spec fn view(&self) -> CommandView {
        CommandView { program: self.program@, args: views(self.args@) }
    }
}

/// Something for the program to do on the library's behalf.
#[derive(Debug, Clone, PartialEq, Eq)]
pub enum Action {
    /// Run the command and wait for it, keeping what it printed.
    Run { command: HostCommand },
    /// Replace the content of the file at `path`.
    Write { path: String, content: String },
    /// Read the file at `path` as text.
    Read { path: String },
    /// Write `content` at the end of the file at `path`.
    Append { path: String, content: String },
    /// Make the directory at `path` with every directory above it that is
    /// missing; a directory that is there already is left as it is.
    CreateDir { path: String },
    /// Remove the empty directory at `path`.
    RemoveDir { path: String },
    /// Remove the directory at `path` with everything in it.
    RemoveTree { path: String },
    /// Make the tree at `source`, with everything mounted below it, appear at
    /// `target` as well.
    Bind { source: String, target: String },
    /// Make the bind mount at `target` read-only.
    RemountReadOnly { target: String },
    /// Mount a file system of type `kind` at `target`, with the given options.
    Mount { source: String, target: String, kind: String, options: String },
    /// Detach what is mounted at `target`, at once for new users and for good
    /// when the last user is gone.
    Unmount { target: String },
    /// Make `new_root` the root of the mount namespace and move the old root
    /// to `put_old`.
    PivotRoot { new_root: String, put_old: String },
    /// Change the working directory to `path`.
    ChangeDir { path: String },
    /// Make `link` a symbolic link to `target`, if `target` is there and
    /// nothing is at `link`.
    Symlink { target: String, link: String },
    /// Leave the given namespaces for new ones.
    Unshare { namespaces: Vec<Namespace> },
    /// Set the host name.
    SetHostname { name: String },
    /// Wait for so many milliseconds.
    Sleep { millis: u64 },
    /// Find out whether anything is at `path`; it succeeds exactly if so.
    Exists { path: String },
    /// Find out whether a directory is at `path`; it succeeds exactly if so.
    IsDir { path: String },
}

/// `Action`, with every text as the sequence of its characters.
pub enum ActionView {
    Run { command: CommandView },
    Write { path: Seq<char>, content: Seq<char> },
    Read { path: Seq<char> },
    Append { path: Seq<char>, content: Seq<char> },
    CreateDir { path: Seq<char> },
    RemoveDir { path: Seq<char> },
    RemoveTree { path: Seq<char> },
    Bind { source: Seq<char>, target: Seq<char> },
    RemountReadOnly { target: Seq<char> },
    Mount { source: Seq<char>, target: Seq<char>, kind: Seq<char>, options: Seq<char> },
    Unmount { target: Seq<char> },
    PivotRoot { new_root: Seq<char>, put_old: Seq<char> },
    ChangeDir { path: Seq<char> },
    Symlink { target: Seq<char>, link: Seq<char> },
    Unshare { namespaces: Seq<Namespace> },
    SetHostname { name: Seq<char> },
    Sleep { millis: u64 },
    Exists { path: Seq<char> },
    IsDir { path: Seq<char> },
}

impl View for Action {
    type V = ActionView;

    open spec fn view(&self) -> ActionView {
        match self {
            Action::Run { command } => ActionView::Run { command: command@ },
            Action::Write { path, content } => ActionView::Write {
                path: path@,
                content: content@,
            },
            Action::Read { path } => ActionView::Read { path: path@ },
            Action::Append { path, content } => ActionView::Append {
                path: path@,
                content: content@,
            },
            Action::CreateDir { path } => ActionView::CreateDir { path: path@ },
            Action::RemoveDir { path } => ActionView::RemoveDir { path: path@ },
            Action::RemoveTree { path } => ActionView::RemoveTree { path: path@ },
            Action::Bind { source, target } => ActionView::Bind {
                source: source@,
                target: target@,
            },
            Action::RemountReadOnly { target } => ActionView::RemountReadOnly { target: target@ },
            Action::Mount { source, target, kind, options } => ActionView::Mount {
                source: source@,
                target: target@,
                kind: kind@,
                options: options@,
            },
            Action::Unmount { target } => ActionView::Unmount { target: target@ },
            Action::PivotRoot { new_root, put_old } => ActionView::PivotRoot {
                new_root: new_root@,
                put_old: put_old@,
            },
            Action::ChangeDir { path } => ActionView::ChangeDir { path: path@ },
            Action::Symlink { target, link } => ActionView::Symlink {
                target: target@,
                link: link@,
            },
            Action::Unshare { namespaces } => ActionView::Unshare { namespaces: namespaces@ },
            Action::SetHostname { name } => ActionView::SetHostname { name: name@ },
            Action::Sleep { millis } => ActionView::Sleep { millis: *millis },
            Action::Exists { path } => ActionView::Exists { path: path@ },
            Action::IsDir { path } => ActionView::IsDir { path: path@ },
        }
    }
}

/// What came of an action.
#[derive(Debug, Clone, PartialEq, Eq)]
pub enum Outcome {
    /// The action could not be performed at all: the program did not start,
    /// the file could not be written or read. `reason` is the system's
    /// message, and `missing` tells whether the system said that what the
    /// action was aimed at is not there.
    Failed { reason: String, missing: bool },
    /// The action was performed. For a command, `success` tells whether it
    /// exited with status zero, and the two texts are what it printed. For a
    /// file that was read, `stdout` is its content.
    Done { success: bool, stdout: String, stderr: String },
}

/// `Outcome`, with every text as the sequence of its characters.
pub enum OutcomeView {
    Failed { reason: Seq<char>, missing: bool },
    Done { success: bool, stdout: Seq<char>, stderr: Seq<char> },
}

impl View for Outcome {
    type V = OutcomeView;

    open spec fn view(&self) -> OutcomeView {
        match self {
            Outcome::Failed { reason, missing } => OutcomeView::Failed {
                reason: reason@,
                missing: *missing,
            },
            Outcome::Done { success, stdout, stderr } => OutcomeView::Done {
                success: *success,
                stdout: stdout@,
                stderr: stderr@,
            },
        }
    }
}

/// Where an action is performed.
#[derive(Debug, Clone, Copy, PartialEq, Eq, Structural)]
pub enum Scope {
    /// In the caller's own network namespace.
    Host,
    /// Inside the network namespace of the process `pid`: the caller enters
    /// it, performs the action, and returns to its own.
    Namespace { pid: i32 },
}

/// How an action that could not be performed is reported.
#[derive(Debug, Clone, PartialEq, Eq)]
pub struct Failure {
    /// The kind of the error.
    pub kind: ErrorKind,
    /// The message of the error, or its beginning.
    pub message: String,
    /// Whether the system's own message follows `message`.
    pub detailed: bool,
}

/// `Failure`, with every text as the sequence of its characters.
pub struct FailureView {
    pub kind: ErrorKind,
    pub message: Seq<char>,
    pub detailed: bool,
}

impl View for Failure {
    type V = FailureView;

    open spec fn view(&self) -> FailureView {
        FailureView { kind: self.kind, message: self.message@, detailed: self.detailed }
    }
}

/// The failure that is reported as an error of `kind` with exactly `message`.
pub open spec fn fixed(kind: ErrorKind, message: Seq<char>) -> FailureView {
    FailureView { kind, message, detailed: false }
}

/// The failure that is reported as an error of `kind` with `prefix` and then
/// the system's own message.
pub open spec fn detailed(kind: ErrorKind, prefix: Seq<char>) -> FailureView {
    FailureView { kind, message: prefix, detailed: true }
}

/// The failure that is reported as an `Io` error with the system's own message.
pub open spec fn io_failure() -> FailureView {
    detailed(ErrorKind::Io, Seq::empty())
}

/// How the outcome of an action is judged.
#[derive(Debug, Clone, PartialEq, Eq)]
pub enum Policy {
    /// Whatever happens, the step counts as done.
    Ignore,
    /// The action must be performed; how a command exits does not matter.
    Required { failure: Failure },
    /// The action must be performed, unless what it was aimed at is not there.
    Present { failure: Failure },
    /// The action must be performed and must succeed.
    Confirmed { failure: Failure },
    /// The action must be performed and the command must succeed, unless what
    /// it printed as its error holds one of the `tolerated` texts. A failure
    /// is reported as `prefix` followed by what it printed.
    Checked { failure: Failure, prefix: String, tolerated: Vec<String> },
    /// The action must be performed, and its output must hold every one of
    /// `needles`; otherwise the error is `message`.
    Shown { failure: Failure, needles: Vec<String>, message: String },
    /// The output, with white space at both ends removed, must be `expected`.
    /// An action that could not be performed counts as empty output. The
    /// error is `prefix`, the trimmed output, `suffix`.
    Holds { expected: String, prefix: String, suffix: String },
}

/// `Policy`, with every text as the sequence of its characters.
pub enum PolicyView {
    Ignore,
    Required { failure: FailureView },
    Present { failure: FailureView },
    Confirmed { failure: FailureView },
    Checked { failure: FailureView, prefix: Seq<char>, tolerated: Seq<Seq<char>> },
    Shown { failure: FailureView, needles: Seq<Seq<char>>, message: Seq<char> },
    Holds { expected: Seq<char>, prefix: Seq<char>, suffix: Seq<char> },
}

impl View for Policy {
    type V = PolicyView;

    open spec fn view(&self) -> PolicyView {
        match self {
            Policy::Ignore => PolicyView::Ignore,
            Policy::Required { failure } => PolicyView::Required { failure: failure@ },
            Policy::Present { failure } => PolicyView::Present { failure: failure@ },
            Policy::Confirmed { failure } => PolicyView::Confirmed { failure: failure@ },
            Policy::Checked { failure, prefix, tolerated } => PolicyView::Checked {
                failure: failure@,
                prefix: prefix@,
                tolerated: views(tolerated@),
            },
            Policy::Shown { failure, needles, message } => PolicyView::Shown {
                failure: failure@,
                needles: views(needles@),
                message: message@,
            },
            Policy::Holds { expected, prefix, suffix } => PolicyView::Holds {
                expected: expected@,
                prefix: prefix@,
                suffix: suffix@,
            },
        }
    }
}

/// When a step of a plan is performed.
#[derive(Debug, Clone, Copy, PartialEq, Eq, Structural)]
pub enum Condition {
    /// Whenever the plan reaches it.
    Always,
    /// Only if the action of the step before it could not be performed.
    AfterFailure,
    /// Only if the step before it ran a command that did not succeed.
    AfterRefusal,
}

/// One step of a plan.
#[derive(Debug, Clone, PartialEq, Eq)]
pub struct Step {
    pub action: Action,
    pub scope: Scope,
    pub policy: Policy,
    pub condition: Condition,
}

/// `Step`, with every text as the sequence of its characters.
pub struct StepView {
    pub action: ActionView,
    pub scope: Scope,
    pub policy: PolicyView,
    pub condition: Condition,
}

impl View for Step {
    type V = StepView;

    open spec fn view(&self) -> StepView {
        StepView {
            action: self.action@,
            scope: self.scope,
            policy: self.policy@,
            condition: self.condition,
        }
    }
}

/// What the program reports after it was asked to perform a step.
#[derive(Debug, Clone, PartialEq, Eq)]
pub enum Report {
    /// The handle of the caller's own network namespace could not be opened.
    CurrentUnavailable,
    /// The network namespace of the process `pid` could not be opened.
    TargetUnavailable { pid: i32 },
    /// Entering the target namespace failed, with the system's message.
    EnterFailed { reason: String },
    /// The action was attempted, with this outcome. `restored` tells whether
    /// the caller is back in its own namespace; it is `true` for a step that
    /// never left it.
    Performed { outcome: Outcome, restored: bool },
}

/// `Report`, with every text as the sequence of its characters.
pub enum ReportView {
    CurrentUnavailable,
    TargetUnavailable { pid: i32 },
    EnterFailed { reason: Seq<char> },
    Performed { outcome: OutcomeView, restored: bool },
}

impl View for Report {
    type V = ReportView;

    open spec fn view(&self) -> ReportView {
        match self {
            Report::CurrentUnavailable => ReportView::CurrentUnavailable,
            Report::TargetUnavailable { pid } => ReportView::TargetUnavailable { pid: *pid },
            Report::EnterFailed { reason } => ReportView::EnterFailed { reason: reason@ },
            Report::Performed { outcome, restored } => ReportView::Performed {
                outcome: outcome@,
                restored: *restored,
            },
        }
    }
}

/// The command `program` with the arguments `args`.
pub open spec fn run_of(program: Seq<char>, args: Seq<Seq<char>>) -> ActionView {
    ActionView::Run { command: CommandView { program, args } }
}

/// Whether one of `needles` stands in `hay`.
pub open spec fn holds_any(hay: Seq<char>, needles: Seq<Seq<char>>) -> bool {
    exists|i: int| 0 <= i < needles.len() && contains_text(hay, #[trigger] needles[i])
}

/// Whether every one of `needles` stands in `hay`.
pub open spec fn holds_all(hay: Seq<char>, needles: Seq<Seq<char>>) -> bool {
    forall|i: int| 0 <= i < needles.len() ==> contains_text(hay, #[trigger] needles[i])
}

/// Whether `c` is white space: a blank, a tab, or one of the line and page breaks.
pub open spec fn is_space(c: char) -> bool {
    c == ' ' || c == '\t' || c == '\n' || c == '\r' || c as u32 == 11 || c as u32 == 12
}

/// Where the text of `s` begins once leading white space is skipped.
pub open spec fn trim_start(s: Seq<char>) -> int
    decreases s.len(),
{
    if s.len() > 0 && is_space(s[0]) {
        1 + trim_start(s.skip(1))
    } else {
        0
    }
}

/// Where the text of `s` ends once trailing white space is dropped.
pub open spec fn trim_end(s: Seq<char>) -> int
    decreases s.len(),
{
    if s.len() > 0 && is_space(s.last()) {
        trim_end(s.drop_last())
    } else {
        s.len() as int
    }
}

/// `s` without the white space at its two ends.
pub open spec fn trimmed(s: Seq<char>) -> Seq<char> {
    let from = trim_start(s);
    let to = trim_end(s);
    if from <= to {
        s.subrange(from, to)
    } else {
        Seq::empty()
    }
}

/// The error for an action that could not be performed.
pub open spec fn failure_error(failure: FailureView, reason: Seq<char>) -> ErrorView {
    error_of(
        failure.kind,
        if failure.detailed {
            failure.message + reason
        } else {
            failure.message
        },
    )
}

/// The text that an outcome is searched and compared in: what was printed or
/// read; empty for an action that could not be performed.
pub open spec fn output_of(outcome: OutcomeView) -> Seq<char> {
    match outcome {
        OutcomeView::Failed { .. } => Seq::empty(),
        OutcomeView::Done { stdout, .. } => stdout,
    }
}

/// How a policy judges an outcome.
pub open spec fn verdict(policy: PolicyView, outcome: OutcomeView) -> Result<(), ErrorView> {
    match policy {
        PolicyView::Ignore => Ok(()),
        PolicyView::Required { failure } => match outcome {
            OutcomeView::Failed { reason, .. } => Err(failure_error(failure, reason)),
            OutcomeView::Done { .. } => Ok(()),
        },
        PolicyView::Present { failure } => match outcome {
            OutcomeView::Failed { reason, missing } => if missing {
                Ok(())
            } else {
                Err(failure_error(failure, reason))
            },
            OutcomeView::Done { .. } => Ok(()),
        },
        PolicyView::Confirmed { failure } => match outcome {
            OutcomeView::Failed { reason, .. } => Err(failure_error(failure, reason)),
            OutcomeView::Done { success, .. } => if success {
                Ok(())
            } else {
                Err(failure_error(failure, Seq::empty()))
            },
        },
        PolicyView::Checked { failure, prefix, tolerated } => match outcome {
            OutcomeView::Failed { reason, .. } => Err(failure_error(failure, reason)),
            OutcomeView::Done { success, stdout, stderr } => if success || holds_any(
                stderr,
                tolerated,
            ) {
                Ok(())
            } else {
                Err(network_failure(prefix + stderr))
            },
        },
        PolicyView::Shown { failure, needles, message } => match outcome {
            OutcomeView::Failed { reason, .. } => Err(failure_error(failure, reason)),
            OutcomeView::Done { success, stdout, stderr } => if holds_all(stdout, needles) {
                Ok(())
            } else {
                Err(network_failure(message))
            },
        },
        PolicyView::Holds { expected, prefix, suffix } => if trimmed(output_of(outcome))
            == expected {
            Ok(())
        } else {
            Err(network_failure(prefix + trimmed(output_of(outcome)) + suffix))
        },
    }
}

/// The error for a network namespace that could not be visited, if the report tells of one.
pub open spec fn visit_error(report: ReportView) -> Option<ErrorView> {
    match report {
        ReportView::CurrentUnavailable => Some(
            network_failure("Failed to open current network namespace"@),
        ),
        ReportView::TargetUnavailable { pid } => Some(
            network_failure("Failed to open namespace for PID "@ + signed_text(pid as int)),
        ),
        ReportView::EnterFailed { reason } => Some(
            network_failure("Failed to enter container namespace: "@ + reason),
        ),
        ReportView::Performed { outcome, restored } => if restored {
            None
        } else {
            Some(network_failure("Failed to return to original namespace"@))
        },
    }
}

/// How a step judges a report: an ignored step is always done; otherwise a
/// namespace that could not be entered or left is an error, whatever the
/// action did; otherwise the policy decides.
pub open spec fn judgement(step: StepView, report: ReportView) -> Result<(), ErrorView> {
    if step.policy is Ignore {
        Ok(())
    } else {
        match visit_error(report) {
            Some(e) => Err(e),
            None => verdict(step.policy, report->outcome),
        }
    }
}


/// Whether a step with the given condition is performed after a step that was
/// reported as `previous`.
pub open spec fn applies(condition: Condition, previous: ReportView) -> bool {
    match condition {
        Condition::Always => true,
        Condition::AfterFailure => previous matches ReportView::Performed { outcome, .. }
            && outcome is Failed,
        Condition::AfterRefusal => previous matches ReportView::Performed { outcome, .. }
            && outcome matches OutcomeView::Done { success, .. } && !success,
    }
}

/// The first step at or after position `from` that is to be performed, or the
/// length of the plan when there is none. `previous` is the report on the
/// step just before `from`; a conditional step that follows a skipped step
/// is skipped too.
pub open spec fn next_from(plan: Seq<StepView>, from: int, previous: Option<ReportView>) -> int
    decreases plan.len() - from,
{
    if from < 0 || from >= plan.len() {
        plan.len() as int
    } else if plan[from].condition is Always {
        from
    } else if previous is Some && applies(plan[from].condition, previous->0) {
        from
    } else {
        next_from(plan, from + 1, None)
    }
}

/// What the program does next with a plan.
#[derive(Debug, Clone, PartialEq, Eq)]
pub enum Progress {
    /// Perform the step at `index` and report.
    Perform { index: usize },
    /// Every step is done.
    Finished,
    /// The plan failed; no further step is performed.
    Failed { error: ContainerError },
}

/// `Progress`, with every text as the sequence of its characters.
pub enum ProgressView {
    Perform { index: int },
    Finished,
    Failed { error: ErrorView },
}

impl View for Progress {
    type V = ProgressView;

    open spec fn view(&self) -> ProgressView {
        match self {
            Progress::Perform { index } => ProgressView::Perform { index: *index as int },
            Progress::Finished => ProgressView::Finished,
            Progress::Failed { error } => ProgressView::Failed { error: error@ },
        }
    }
}

/// `Perform` for a position of the plan, `Finished` for its length.
pub open spec fn progress_to(plan: Seq<StepView>, index: int) -> ProgressView {
    if index < plan.len() {
        ProgressView::Perform { index }
    } else {
        ProgressView::Finished
    }
}

/// What follows once the step at `index` was reported: the plan fails with
/// the step's error, or goes on with the next step that is to be performed.
/// A plan that has no step at `index` is finished.
pub open spec fn progress_after(
    plan: Seq<StepView>,
    index: int,
    report: ReportView,
) -> ProgressView {
    if 0 <= index < plan.len() {
        match judgement(plan[index], report) {
            Err(error) => ProgressView::Failed { error },
            Ok(_) => progress_to(plan, next_from(plan, index + 1, Some(report))),
        }
    } else {
        ProgressView::Finished
    }
}

impl HostCommand {
    /// The command `program` with the arguments `args`.
    pub fn new(program: &str, args: &[&str]) -> (c: HostCommand)
        ensures
            c@ == (CommandView { program: program@, args: texts(args@) }),
    {
        HostCommand { program: String::from_str(program), args: strings_of(args) }
    }
}

impl Failure {
    /// A failure that is reported as an error of `kind` with exactly `message`.
    pub fn fixed(kind: ErrorKind, message: &str) -> (f: Failure)
        ensures
            f@ == fixed(kind, message@),
    {
        Failure { kind, message: String::from_str(message), detailed: false }
    }

    /// A failure that is reported as an error of `kind` with `prefix` and
    /// then the system's own message.
    pub fn detailed(kind: ErrorKind, prefix: &str) -> (f: Failure)
        ensures
            f@ == detailed(kind, prefix@),
    {
        Failure { kind, message: String::from_str(prefix), detailed: true }
    }

    /// A failure that is reported as a `Network` error with `message`.
    pub fn network(message: &str) -> (f: Failure)
        ensures
            f@ == fixed(ErrorKind::Network, message@),
    {
        Failure::fixed(ErrorKind::Network, message)
    }

    /// A failure that is reported as an `Io` error with the system's own message.
    pub fn io() -> (f: Failure)
        ensures
            f@ == io_failure(),
    {
        let f = Failure { kind: ErrorKind::Io, message: String::new(), detailed: true };
        f
    }

    /// The error for an action that could not be performed for `reason`.
    pub fn error(&self, reason: &String) -> (e: ContainerError)
        ensures
            e@ == failure_error(self@, reason@),
    {
        let mut message = self.message.clone();
        if self.detailed {
            message.append(reason.as_str());
        }
        ContainerError::of(self.kind, message)
    }
}

/// Whether one of `needles` stands in `hay`.
pub fn any_in(hay: &[char], needles: &Vec<String>) -> (r: bool)
    ensures
        r == holds_any(hay@, views(needles@)),
{
    let mut i: usize = 0;
    while i < needles.len()
        invariant
            i <= needles.len(),
            forall|j: int| 0 <= j < i ==> !contains_text(hay@, #[trigger] views(needles@)[j]),
        decreases needles.len() - i,
    {
        let needle = chars_of(needles[i].as_str());
        assert(views(needles@)[i as int] == needle@);
        if contains(hay, needle.as_slice()) {
            return true;
        }
        i += 1;
    }
    false
}

/// Whether every one of `needles` stands in `hay`.
pub fn all_in(hay: &[char], needles: &Vec<String>) -> (r: bool)
    ensures
        r == holds_all(hay@, views(needles@)),
{
    let mut i: usize = 0;
    while i < needles.len()
        invariant
            i <= needles.len(),
            forall|j: int| 0 <= j < i ==> contains_text(hay@, #[trigger] views(needles@)[j]),
        decreases needles.len() - i,
    {
        let needle = chars_of(needles[i].as_str());
        assert(views(needles@)[i as int] == needle@);
        if !contains(hay, needle.as_slice()) {
            return false;
        }
        i += 1;
    }
    true
}

fn space(c: char) -> (r: bool)
    ensures
        r == is_space(c),
{
    c == ' ' || c == '\t' || c == '\n' || c == '\r' || c as u32 == 11 || c as u32 == 12
}

/// `s` without the white space at its two ends.
pub fn trim(s: &[char]) -> (t: Vec<char>)
    ensures
        t@ == trimmed(s@),
{
    let mut from: usize = 0;
    assert(s@.skip(0) =~= s@);
    while from < s.len() && space(s[from])
        invariant
            from <= s.len(),
            trim_start(s@) == from + trim_start(s@.skip(from as int)),
        decreases s.len() - from,
    {
        assert(s@.skip(from as int).skip(1) =~= s@.skip(from + 1));
        from += 1;
    }
    let mut to: usize = s.len();
    assert(s@.take(to as int) =~= s@);
    while to > 0 && space(s[to - 1])
        invariant
            to <= s.len(),
            trim_end(s@) == trim_end(s@.take(to as int)),
        decreases to,
    {
        assert(s@.take(to as int).drop_last() =~= s@.take(to - 1));
        to -= 1;
    }
    assert(trim_start(s@) == from);
    assert(trim_end(s@) == to);
    let mut t: Vec<char> = Vec::new();
    if from <= to {
        let mut i: usize = from;
        while i < to
            invariant
                from <= i <= to <= s.len(),
                t@ == s@.subrange(from as int, i as int),
            decreases to - i,
        {
            t.push(s[i]);
            assert(t@ =~= s@.subrange(from as int, i + 1));
            i += 1;
        }
    }
    t
}

impl Policy {
    /// Judges the outcome of an action.
    pub fn verdict(&self, outcome: &Outcome) -> (r: ContainerResult<()>)
        ensures
            outcome_of(r) == verdict(self@, outcome@),
    {
        match self {
            Policy::Ignore => Ok(()),
            Policy::Required { failure } => match outcome {
                Outcome::Failed { reason, .. } => Err(failure.error(reason)),
                Outcome::Done { .. } => Ok(()),
            },
            Policy::Present { failure } => match outcome {
                Outcome::Failed { reason, missing } => if *missing {
                    Ok(())
                } else {
                    Err(failure.error(reason))
                },
                Outcome::Done { .. } => Ok(()),
            },
            Policy::Confirmed { failure } => match outcome {
                Outcome::Failed { reason, .. } => Err(failure.error(reason)),
                Outcome::Done { success, .. } => if *success {
                    Ok(())
                } else {
                    let nothing = String::new();
                    assert(failure@.message + nothing@ =~= failure@.message);
                    Err(failure.error(&nothing))
                },
            },
            Policy::Checked { failure, prefix, tolerated } => match outcome {
                Outcome::Failed { reason, .. } => Err(failure.error(reason)),
                Outcome::Done { success, stdout, stderr } => {
                    let printed = chars_of(stderr.as_str());
                    if *success || any_in(printed.as_slice(), tolerated) {
                        Ok(())
                    } else {
                        Err(
                            ContainerError::Network {
                                message: prefixed(prefix.as_str(), printed.as_slice()),
                            },
                        )
                    }
                },
            },
            Policy::Shown { failure, needles, message } => match outcome {
                Outcome::Failed { reason, .. } => Err(failure.error(reason)),
                Outcome::Done { success, stdout, stderr } => {
                    let printed = chars_of(stdout.as_str());
                    if all_in(printed.as_slice(), needles) {
                        Ok(())
                    } else {
                        Err(ContainerError::Network { message: message.clone() })
                    }
                },
            },
            Policy::Holds { expected, prefix, suffix } => {
                let printed: Vec<char> = match outcome {
                    Outcome::Failed { .. } => Vec::new(),
                    Outcome::Done { stdout, .. } => chars_of(stdout.as_str()),
                };
                assert(printed@ =~= output_of(outcome@));
                let value = trim(printed.as_slice());
                let wanted = chars_of(expected.as_str());
                if crate::text::matches_whole(value.as_slice(), wanted.as_slice()) {
                    Ok(())
                } else {
                    let mut message = prefixed(prefix.as_str(), value.as_slice());
                    message.append(suffix.as_str());
                    Err(ContainerError::Network { message })
                }
            },
        }
    }
}

impl Report {
    /// The error for a network namespace that could not be entered or left,
    /// if the report tells of one.
    pub fn visit_error(&self) -> (r: Option<ContainerError>)
        ensures
            match r {
                Some(e) => visit_error(self@) == Some(e@),
                None => visit_error(self@) is None,
            },
    {
        match self {
            Report::CurrentUnavailable => Some(
                ContainerError::Network {
                    message: String::from_str("Failed to open current network namespace"),
                },
            ),
            Report::TargetUnavailable { pid } => {
                let mut message = String::from_str("Failed to open namespace for PID ");
                let number = signed_string(*pid as i64);
                message.append(number.as_str());
                Some(ContainerError::Network { message })
            },
            Report::EnterFailed { reason } => {
                let mut message = String::from_str("Failed to enter container namespace: ");
                message.append(reason.as_str());
                Some(ContainerError::Network { message })
            },
            Report::Performed { outcome, restored } => if *restored {
                None
            } else {
                Some(
                    ContainerError::Network {
                        message: String::from_str("Failed to return to original namespace"),
                    },
                )
            },
        }
    }
}

impl Step {
    /// The step that runs `command` on the host, whenever the plan reaches it.
    pub fn run(command: HostCommand, policy: Policy) -> (s: Step)
        ensures
            s@ == (StepView {
                action: ActionView::Run { command: command@ },
                scope: Scope::Host,
                policy: policy@,
                condition: Condition::Always,
            }),
    {
        Step {
            action: Action::Run { command },
            scope: Scope::Host,
            policy,
            condition: Condition::Always,
        }
    }

    /// The step that runs `command` inside the network namespace of `pid`.
    pub fn run_inside(pid: i32, command: HostCommand, policy: Policy) -> (s: Step)
        ensures
            s@ == (StepView {
                action: ActionView::Run { command: command@ },
                scope: Scope::Namespace { pid },
                policy: policy@,
                condition: Condition::Always,
            }),
    {
        Step {
            action: Action::Run { command },
            scope: Scope::Namespace { pid },
            policy,
            condition: Condition::Always,
        }
    }

    /// Judges what the program reported for this step.
    pub fn judge(&self, report: &Report) -> (r: ContainerResult<()>)
        ensures
            outcome_of(r) == judgement(self@, report@),
    {
        if let Policy::Ignore = self.policy {
            return Ok(());
        }
        match report.visit_error() {
            Some(e) => Err(e),
            None => match report {
                Report::Performed { outcome, .. } => self.policy.verdict(outcome),
                _ => Ok(()),
            },
        }
    }
}

fn applies_to(condition: Condition, previous: &Report) -> (r: bool)
    ensures
        r == applies(condition, previous@),
{
    match condition {
        Condition::Always => true,
        Condition::AfterFailure => match previous {
            Report::Performed { outcome: Outcome::Failed { .. }, .. } => true,
            _ => false,
        },
        Condition::AfterRefusal => match previous {
            Report::Performed { outcome: Outcome::Done { success, .. }, .. } => !*success,
            _ => false,
        },
    }
}

fn seek(plan: &Vec<Step>, from: usize, previous: Option<&Report>) -> (index: usize)
    ensures
        index == next_from(
            views(plan@),
            from as int,
            match previous {
                Some(r) => Some(r@),
                None => None,
            },
        ),
        index <= plan.len(),
{
    let ghost steps = views(plan@);
    let ghost prior: Option<ReportView> = match previous {
        Some(r) => Some(r@),
        None => None,
    };
    if from >= plan.len() {
        return plan.len();
    }
    assert(steps[from as int] == plan@[from as int]@);
    let first_applies = match plan[from].condition {
        Condition::Always => true,
        c => match previous {
            Some(r) => applies_to(c, r),
            None => false,
        },
    };
    if first_applies {
        return from;
    }
    let mut j: usize = from + 1;
    while j < plan.len()
        invariant
            from < j <= plan.len(),
            steps == views(plan@),
            prior == match previous {
                Some(r) => Some(r@),
                None => None,
            },
            next_from(steps, from as int, prior) == next_from(steps, j as int, None),
        decreases plan.len() - j,
    {
        assert(steps[j as int] == plan@[j as int]@);
        if let Condition::Always = plan[j].condition {
            assert(steps[j as int].condition is Always);
            assert(next_from(steps, j as int, None) == j);
            return j;
        }
        j += 1;
    }
    j
}

/// The first thing to do with a plan.
pub fn begin(plan: &Vec<Step>) -> (p: Progress)
    ensures
        p@ == progress_to(views(plan@), next_from(views(plan@), 0, None)),
{
    let index = seek(plan, 0, None);
    if index < plan.len() {
        Progress::Perform { index }
    } else {
        Progress::Finished
    }
}

/// What to do once the step at `index` was reported.
pub fn advance(plan: &Vec<Step>, index: usize, report: &Report) -> (p: Progress)
    ensures
        p@ == progress_after(views(plan@), index as int, report@),
{
    if index >= plan.len() {
        return Progress::Finished;
    }
    assert(views(plan@)[index as int] == plan@[index as int]@);
    match plan[index].judge(report) {
        Err(error) => Progress::Failed { error },
        Ok(_) => {
            let next = seek(plan, index + 1, Some(report));
            if next < plan.len() {
                Progress::Perform { index: next }
            } else {
                Progress::Finished
            }
        },
    }
}


/// The policy that asks only that the action be performed, and reports one
/// that was not as a `Network` error with `message`.
pub open spec fn required(message: Seq<char>) -> PolicyView {
    PolicyView::Required { failure: fixed(ErrorKind::Network, message) }
}

/// The policy that asks that the command succeed, unless what it printed as
/// its error holds one of `tolerated`.
pub open spec fn checked(
    message: Seq<char>,
    prefix: Seq<char>,
    tolerated: Seq<Seq<char>>,
) -> PolicyView {
    PolicyView::Checked { failure: fixed(ErrorKind::Network, message), prefix, tolerated }
}

/// The step that runs `program` with `args` on the host.
pub open spec fn host_run(
    program: Seq<char>,
    args: Seq<Seq<char>>,
    policy: PolicyView,
) -> StepView {
    StepView {
        action: run_of(program, args),
        scope: Scope::Host,
        policy,
        condition: Condition::Always,
    }
}

/// The step that runs `program` with `args` inside the network namespace of `pid`.
pub open spec fn inside_run(
    pid: i32,
    program: Seq<char>,
    args: Seq<Seq<char>>,
    policy: PolicyView,
) -> StepView {
    StepView {
        action: run_of(program, args),
        scope: Scope::Namespace { pid },
        policy,
        condition: Condition::Always,
    }
}

/// The step that performs `action` on the host.
pub open spec fn host_step(action: ActionView, policy: PolicyView) -> StepView {
    StepView { action, scope: Scope::Host, policy, condition: Condition::Always }
}

/// The policy that asks that the action be performed, and reports one that
/// was not as an error of `kind` whose message is `prefix` and then the
/// system's own message.
pub open spec fn needed(kind: ErrorKind, prefix: Seq<char>) -> PolicyView {
    PolicyView::Required { failure: detailed(kind, prefix) }
}

/// The step that writes `content` to the file at `path`.
pub open spec fn host_write(path: Seq<char>, content: Seq<char>, policy: PolicyView) -> StepView {
    StepView {
        action: ActionView::Write { path, content },
        scope: Scope::Host,
        policy,
        condition: Condition::Always,
    }
}

/// The step that reads the file at `path`.
pub open spec fn host_read(path: Seq<char>, policy: PolicyView) -> StepView {
    StepView {
        action: ActionView::Read { path },
        scope: Scope::Host,
        policy,
        condition: Condition::Always,
    }
}

impl StepView {
    /// The same step, performed only under `condition`.
    pub open spec fn when(self, condition: Condition) -> StepView {
        StepView { condition, ..self }
    }

    /// The same step, with whatever comes of it accepted.
    pub open spec fn ignored(self) -> StepView {
        StepView { policy: PolicyView::Ignore, ..self }
    }
}

/// Every step of `plan`, with whatever comes of it accepted.
pub open spec fn all_ignored(plan: Seq<StepView>) -> Seq<StepView> {
    Seq::new(plan.len(), |i: int| plan[i].ignored())
}

impl Policy {
    /// The policy that asks only that the action be performed.
    pub fn required(message: &str) -> (p: Policy)
        ensures
            p@ == required(message@),
    {
        Policy::Required { failure: Failure::network(message) }
    }

    /// The policy that asks that the action be performed, and reports one
    /// that was not as an error of `kind` whose message is `prefix` and then
    /// the system's own message.
    pub fn needed(kind: ErrorKind, prefix: &str) -> (p: Policy)
        ensures
            p@ == needed(kind, prefix@),
    {
        Policy::Required { failure: Failure::detailed(kind, prefix) }
    }

    /// The policy that asks that the command succeed or fail in a tolerated way.
    pub fn checked(message: &str, prefix: &str, tolerated: &[&str]) -> (p: Policy)
        ensures
            p@ == checked(message@, prefix@, texts(tolerated@)),
    {
        Policy::Checked {
            failure: Failure::network(message),
            prefix: String::from_str(prefix),
            tolerated: strings_of(tolerated),
        }
    }
}

impl Step {
    /// The step that runs `program` with `args` on the host.
    pub fn host(program: &str, args: &[&str], policy: Policy) -> (s: Step)
        ensures
            s@ == host_run(program@, texts(args@), policy@),
    {
        Step::run(HostCommand::new(program, args), policy)
    }

    /// The step that runs `program` with `args` inside the network namespace of `pid`.
    pub fn inside(pid: i32, program: &str, args: &[&str], policy: Policy) -> (s: Step)
        ensures
            s@ == inside_run(pid, program@, texts(args@), policy@),
    {
        Step::run_inside(pid, HostCommand::new(program, args), policy)
    }

    /// The step that performs `action` on the host.
    pub fn of(action: Action, policy: Policy) -> (s: Step)
        ensures
            s@ == host_step(action@, policy@),
    {
        Step { action, scope: Scope::Host, policy, condition: Condition::Always }
    }

    /// The step that writes `content` to the file at `path`.
    pub fn write(path: String, content: &str, policy: Policy) -> (s: Step)
        ensures
            s@ == host_write(path@, content@, policy@),
    {
        Step {
            action: Action::Write { path, content: String::from_str(content) },
            scope: Scope::Host,
            policy,
            condition: Condition::Always,
        }
    }

    /// The step that reads the file at `path`.
    pub fn read(path: &str, policy: Policy) -> (s: Step)
        ensures
            s@ == host_read(path@, policy@),
    {
        Step {
            action: Action::Read { path: String::from_str(path) },
            scope: Scope::Host,
            policy,
            condition: Condition::Always,
        }
    }

    /// The same step, performed only under `condition`.
    pub fn when(self, condition: Condition) -> (s: Step)
        ensures
            s@ == self@.when(condition),
    {
        Step { action: self.action, scope: self.scope, policy: self.policy, condition }
    }

    /// The same step, with whatever comes of it accepted.
    pub fn ignored(self) -> (s: Step)
        ensures
            s@ == self@.ignored(),
    {
        Step {
            action: self.action,
            scope: self.scope,
            policy: Policy::Ignore,
            condition: self.condition,
        }
    }
}

/// Adds `step` at the end of `plan`.
pub fn push_step(plan: &mut Vec<Step>, step: Step)
    ensures
        views(final(plan)@) == views(old(plan)@).push(step@),
{
    proof {
        lemma_views_push(plan@, step);
    }
    plan.push(step);
}

/// Adds the steps of `more` at the end of `plan`, in their order.
pub fn append_steps(plan: &mut Vec<Step>, more: Vec<Step>)
    ensures
        views(final(plan)@) == views(old(plan)@) + views(more@),
{
    let ghost given = more@;
    let mut rest = more;
    plan.append(&mut rest);
    assert(views(plan@) =~= views(old(plan)@) + views(given));
}

/// Every step of `plan`, with whatever comes of it accepted.
pub fn ignore_all(plan: Vec<Step>) -> (r: Vec<Step>)
    ensures
        views(r@) == all_ignored(views(plan@)),
{
    let ghost all = plan@;
    let mut r: Vec<Step> = Vec::new();
    for step in it: plan
        invariant
            it.seq() == all,
            r.len() == it.index(),
            forall|k: int| 0 <= k < r.len() ==> r@[k]@ == all[k]@.ignored(),
    {
        r.push(step.ignored());
    }
    assert(views(r@) =~= all_ignored(views(all)));
    r
}

} // verus!
