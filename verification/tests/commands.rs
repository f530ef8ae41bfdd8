use corerun::command::{
    advance, append_steps, begin, ignore_all, Action, Condition, Failure, HostCommand, Outcome,
    Policy, Progress, Report, Scope, Step,
};
use corerun::error::{ContainerError, ErrorKind};

fn done(success: bool, stdout: &str, stderr: &str) -> Outcome {
    Outcome::Done { success, stdout: stdout.to_string(), stderr: stderr.to_string() }
}

fn failed(reason: &str) -> Outcome {
    Outcome::Failed { reason: reason.to_string(), missing: false }
}

fn performed(outcome: Outcome) -> Report {
    Report::Performed { outcome, restored: true }
}

fn network(message: &str) -> ContainerError {
    ContainerError::Network { message: message.to_string() }
}

#[test]
fn a_command_keeps_its_words() {
    let c = HostCommand::new("ip", &["link", "show", "corerun0"]);
    assert_eq!(c.program, "ip");
    assert_eq!(c.args, vec!["link", "show", "corerun0"]);
}

#[test]
fn ignore_accepts_everything() {
    assert_eq!(Policy::Ignore.verdict(&failed("x")), Ok(()));
    assert_eq!(Policy::Ignore.verdict(&done(false, "", "bad")), Ok(()));
}

#[test]
fn required_asks_only_that_it_ran() {
    let p = Policy::required("Failed to add FORWARD rule (incoming)");
    assert_eq!(p.verdict(&done(false, "", "whatever")), Ok(()));
    assert_eq!(p.verdict(&failed("no such file")), Err(network("Failed to add FORWARD rule (incoming)")));
}

#[test]
fn io_failures_carry_the_reason_of_the_system() {
    let p = Policy::Required { failure: Failure::io() };
    assert_eq!(
        p.verdict(&failed("No such file or directory")),
        Err(ContainerError::Io { message: "No such file or directory".to_string() })
    );
}

#[test]
fn checked_reports_what_the_command_printed() {
    let p = Policy::checked("Failed to set bridge IP", "Failed to set bridge IP: ", &["File exists"]);
    assert_eq!(p.verdict(&done(true, "", "")), Ok(()));
    assert_eq!(p.verdict(&done(false, "", "RTNETLINK answers: File exists\n")), Ok(()));
    assert_eq!(
        p.verdict(&done(false, "", "Cannot find device")),
        Err(network("Failed to set bridge IP: Cannot find device"))
    );
    assert_eq!(p.verdict(&failed("enoent")), Err(network("Failed to set bridge IP")));
}

#[test]
fn checked_without_tolerance_fails_on_any_refusal() {
    let p = Policy::checked("a", "b: ", &[]);
    assert_eq!(p.verdict(&done(false, "", "")), Err(network("b: ")));
}

#[test]
fn shown_looks_for_every_needle() {
    let p = Policy::Shown {
        failure: Failure::io(),
        needles: vec!["MASQUERADE".to_string(), "172.18.0.0/16".to_string()],
        message: "MASQUERADE rule verification failed".to_string(),
    };
    assert_eq!(p.verdict(&done(true, "MASQUERADE all -- 172.18.0.0/16 0.0.0.0/0", "")), Ok(()));
    assert_eq!(
        p.verdict(&done(true, "MASQUERADE all -- 10.0.0.0/8", "")),
        Err(network("MASQUERADE rule verification failed"))
    );
    assert_eq!(p.verdict(&failed("boom")), Err(ContainerError::Io { message: "boom".to_string() }));
}

#[test]
fn holds_compares_the_trimmed_output() {
    let p = Policy::Holds {
        expected: "1".to_string(),
        prefix: "IP forwarding is not enabled (value: ".to_string(),
        suffix: ")".to_string(),
    };
    assert_eq!(p.verdict(&done(true, "1\n", "")), Ok(()));
    assert_eq!(p.verdict(&done(true, " \t1 \r\n", "")), Ok(()));
    assert_eq!(
        p.verdict(&done(true, "0\n", "")),
        Err(network("IP forwarding is not enabled (value: 0)"))
    );
    assert_eq!(p.verdict(&failed("x")), Err(network("IP forwarding is not enabled (value: )")));
}

#[test]
fn present_spares_what_is_gone() {
    let p = Policy::Present { failure: Failure::detailed(ErrorKind::Cgroup, "Failed to remove cgroup: ") };
    assert_eq!(p.verdict(&Outcome::Failed { reason: "gone".to_string(), missing: true }), Ok(()));
    assert_eq!(
        p.verdict(&Outcome::Failed { reason: "busy".to_string(), missing: false }),
        Err(ContainerError::Cgroup { message: "Failed to remove cgroup: busy".to_string() })
    );
    assert_eq!(p.verdict(&done(true, "", "")), Ok(()));
}

#[test]
fn confirmed_wants_success() {
    let p = Policy::Confirmed { failure: Failure::fixed(ErrorKind::Volume, "not a directory") };
    assert_eq!(p.verdict(&done(true, "", "")), Ok(()));
    assert_eq!(
        p.verdict(&done(false, "", "")),
        Err(ContainerError::Volume { message: "not a directory".to_string() })
    );
    assert_eq!(
        p.verdict(&failed("x")),
        Err(ContainerError::Volume { message: "not a directory".to_string() })
    );
}

#[test]
fn a_visit_that_fails_is_an_error_whatever_the_action_did() {
    let step = Step::inside(7, "ip", &["link", "set", "lo", "up"], Policy::checked("a", "b: ", &[]));
    assert_eq!(step.scope, Scope::Namespace { pid: 7 });
    assert_eq!(
        step.judge(&Report::CurrentUnavailable),
        Err(network("Failed to open current network namespace"))
    );
    assert_eq!(
        step.judge(&Report::TargetUnavailable { pid: 7 }),
        Err(network("Failed to open namespace for PID 7"))
    );
    assert_eq!(
        step.judge(&Report::EnterFailed { reason: "EPERM".to_string() }),
        Err(network("Failed to enter container namespace: EPERM"))
    );
    assert_eq!(
        step.judge(&Report::Performed { outcome: done(true, "", ""), restored: false }),
        Err(network("Failed to return to original namespace"))
    );
    assert_eq!(step.judge(&performed(done(true, "", ""))), Ok(()));
    assert_eq!(step.judge(&performed(done(false, "", "x"))), Err(network("b: x")));
}

#[test]
fn an_ignored_step_is_always_done() {
    let step = Step::inside(7, "ip", &["x"], Policy::checked("a", "b: ", &[])).ignored();
    assert_eq!(step.policy, Policy::Ignore);
    assert_eq!(step.judge(&Report::CurrentUnavailable), Ok(()));
    assert_eq!(step.judge(&Report::Performed { outcome: failed("x"), restored: false }), Ok(()));
}

fn fallback_plan() -> Vec<Step> {
    vec![
        Step::write("/proc/sys/net/ipv4/ip_forward".to_string(), "1", Policy::Ignore),
        Step::host("sysctl", &["-w", "net.ipv4.ip_forward=1"], Policy::checked("a", "b: ", &[]))
            .when(Condition::AfterFailure),
        Step::read("/proc/sys/net/ipv4/ip_forward", Policy::Ignore),
    ]
}

#[test]
fn a_plan_starts_at_its_first_unconditional_step() {
    assert_eq!(begin(&fallback_plan()), Progress::Perform { index: 0 });
    assert_eq!(begin(&vec![]), Progress::Finished);
    let conditional = vec![fallback_plan().remove(1)];
    assert_eq!(begin(&conditional), Progress::Finished);
}

#[test]
fn the_fallback_runs_only_after_a_failure() {
    let plan = fallback_plan();
    assert_eq!(advance(&plan, 0, &performed(done(true, "", ""))), Progress::Perform { index: 2 });
    assert_eq!(advance(&plan, 0, &performed(failed("ro"))), Progress::Perform { index: 1 });
    assert_eq!(advance(&plan, 1, &performed(done(true, "", ""))), Progress::Perform { index: 2 });
    assert_eq!(
        advance(&plan, 1, &performed(done(false, "", "denied"))),
        Progress::Failed { error: network("b: denied") }
    );
    assert_eq!(advance(&plan, 2, &performed(done(true, "1", ""))), Progress::Finished);
}

#[test]
fn a_step_after_a_refusal_runs_only_after_a_refusal() {
    let plan = vec![
        Step::host("ip", &["link", "show", "b"], Policy::required("x")),
        Step::host("ip", &["link", "add", "b"], Policy::Ignore).when(Condition::AfterRefusal),
    ];
    assert_eq!(advance(&plan, 0, &performed(done(true, "", ""))), Progress::Finished);
    assert_eq!(advance(&plan, 0, &performed(done(false, "", ""))), Progress::Perform { index: 1 });
    assert_eq!(advance(&plan, 0, &performed(failed("x"))), Progress::Failed { error: network("x") });
}

#[test]
fn plans_are_appended_and_ignored_step_by_step() {
    let mut plan = vec![Step::host("a", &[], Policy::required("x"))];
    append_steps(&mut plan, vec![Step::host("b", &[], Policy::required("y"))]);
    assert_eq!(plan.len(), 2);
    let ignored = ignore_all(plan.clone());
    assert_eq!(ignored.len(), 2);
    for (before, after) in plan.iter().zip(ignored.iter()) {
        assert_eq!(after.action, before.action);
        assert_eq!(after.scope, before.scope);
        assert_eq!(after.condition, before.condition);
        assert_eq!(after.policy, Policy::Ignore);
    }
    assert_eq!(plan[1].action, Action::Run { command: HostCommand::new("b", &[]) });
}
