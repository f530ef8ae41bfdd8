//! The host bridge that container interfaces are attached to.

use crate::command::{
    checked, host_run, push_step, required, Condition, Outcome, OutcomeView, Policy, Step,
    StepView,
};
use crate::error::{network_failure, ContainerError, ContainerResult};
use crate::error::outcome_of;
use crate::network::subnet::{ipv4_string, ipv4_text};
use crate::text::{decimal_string, decimal_text, views};
use vstd::prelude::*;

verus! {

/// A bridge device on the host, known by its name.
#[derive(Debug, Clone, PartialEq, Eq)]
pub struct Bridge {
    pub name: String,
}

/// An address with its prefix length, as `ip` takes it: `a.b.c.d/n`.
pub open spec fn address_with_prefix(ip: u32, prefix: u8) -> Seq<char> {
    ipv4_text(ip) + "/"@ + decimal_text(prefix as nat)
}

/// The step that asks whether the device `name` is there: the command
/// succeeds exactly when it is.
pub open spec fn bridge_probe(name: Seq<char>) -> StepView {
    host_run("ip"@, seq!["link"@, "show"@, name], required("Failed to check bridge existence"@))
}

/// The steps that make the bridge `name` unless it is there already.
pub open spec fn bridge_creation(name: Seq<char>) -> Seq<StepView> {
    seq![
        bridge_probe(name),
        host_run(
            "ip"@,
            seq!["link"@, "add"@, "name"@, name, "type"@, "bridge"@],
            checked("Failed to create bridge"@, "Failed to create bridge: "@, seq![]),
        ).when(Condition::AfterRefusal),
    ]
}

/// The step that removes the bridge `name`.
pub open spec fn bridge_removal(name: Seq<char>) -> StepView {
    host_run(
        "ip"@,
        seq!["link"@, "delete"@, name],
        checked("Failed to delete bridge"@, "Failed to delete bridge: "@, seq![]),
    )
}

/// The step that gives the bridge `name` its address; an address that it has
/// already is no failure.
pub open spec fn bridge_address(name: Seq<char>, ip: u32, prefix: u8) -> StepView {
    host_run(
        "ip"@,
        seq!["addr"@, "add"@, address_with_prefix(ip, prefix), "dev"@, name],
        checked("Failed to set bridge IP"@, "Failed to set bridge IP: "@, seq!["File exists"@]),
    )
}

/// The step that brings the bridge `name` up.
pub open spec fn bridge_up(name: Seq<char>) -> StepView {
    host_run(
        "ip"@,
        seq!["link"@, "set"@, name, "up"@],
        checked("Failed to bring bridge up"@, "Failed to bring bridge up: "@, seq![]),
    )
}

/// The steps that attach `interface` to the bridge `name` and bring it up.
pub open spec fn bridge_attachment(name: Seq<char>, interface: Seq<char>) -> Seq<StepView> {
    seq![
        host_run(
            "ip"@,
            seq!["link"@, "set"@, interface, "master"@, name],
            checked(
                "Failed to attach interface to bridge"@,
                "Failed to attach interface to bridge: "@,
                seq![],
            ),
        ),
        host_run(
            "ip"@,
            seq!["link"@, "set"@, interface, "up"@],
            checked("Failed to bring interface up"@, "Failed to bring interface up: "@, seq![]),
        ),
    ]
}

/// The text `a.b.c.d/n`.
pub fn address_string(ip: u32, prefix: u8) -> (s: String)
    ensures
        s@ == address_with_prefix(ip, prefix),
{
    let mut s = ipv4_string(ip);
    s.append("/");
    let n = decimal_string(prefix as u64);
    s.append(n.as_str());
    s
}

impl Bridge {
    /// The bridge with the given name. Nothing is done to the host.
    pub fn new(name: &str) -> (r: ContainerResult<Bridge>)
        ensures
            r matches Ok(b) && b.name@ == name@,
    {
        Ok(Bridge { name: String::from_str(name) })
    }

    /// The step that asks whether the bridge is there.
    pub fn probe(&self) -> (s: Step)
        ensures
            s@ == bridge_probe(self.name@),
    {
        let s = Step::host(
            "ip",
            &["link", "show", self.name.as_str()],
            Policy::required("Failed to check bridge existence"),
        );
        assert(s@.action->command.args =~= bridge_probe(self.name@).action->command.args);
        s
    }

    /// Reads the answer to `probe`: the bridge is there exactly when the
    /// command succeeded; a command that could not be run is an error.
    pub fn found(outcome: &Outcome) -> (r: ContainerResult<bool>)
        ensures
            outcome_of(r) == match outcome@ {
                OutcomeView::Failed { .. } => Err(
                    network_failure("Failed to check bridge existence"@),
                ),
                OutcomeView::Done { success, .. } => Ok(success),
            },
    {
        match outcome {
            Outcome::Failed { .. } => Err(
                ContainerError::Network {
                    message: String::from_str("Failed to check bridge existence"),
                },
            ),
            Outcome::Done { success, .. } => Ok(*success),
        }
    }

    /// Plans the creation of the bridge: it is made only where the probe
    /// does not find it.
    pub fn create(&self) -> (plan: Vec<Step>)
        ensures
            views(plan@) == bridge_creation(self.name@),
    {
        let ghost want = bridge_creation(self.name@);
        let mut plan: Vec<Step> = Vec::new();
        push_step(&mut plan, self.probe());
        let s = Step::host(
            "ip",
            &["link", "add", "name", self.name.as_str(), "type", "bridge"],
            Policy::checked("Failed to create bridge", "Failed to create bridge: ", &[]),
        ).when(Condition::AfterRefusal);
        assert(s@.action->command.args =~= want[1].action->command.args);
        assert(s@.policy->Checked_tolerated =~= seq![]);
        push_step(&mut plan, s);
        assert(views(plan@) =~= want);
        plan
    }

    /// The step that removes the bridge.
    pub fn delete(&self) -> (s: Step)
        ensures
            s@ == bridge_removal(self.name@),
    {
        let s = Step::host(
            "ip",
            &["link", "delete", self.name.as_str()],
            Policy::checked("Failed to delete bridge", "Failed to delete bridge: ", &[]),
        );
        assert(s@.action->command.args =~= bridge_removal(self.name@).action->command.args);
        assert(s@.policy->Checked_tolerated =~= seq![]);
        s
    }

    /// The step that gives the bridge the address `ip` with the prefix length `prefix`.
    pub fn set_ip(&self, ip: u32, prefix: u8) -> (s: Step)
        ensures
            s@ == bridge_address(self.name@, ip, prefix),
    {
        let address = address_string(ip, prefix);
        let s = Step::host(
            "ip",
            &["addr", "add", address.as_str(), "dev", self.name.as_str()],
            Policy::checked(
                "Failed to set bridge IP",
                "Failed to set bridge IP: ",
                &["File exists"],
            ),
        );
        assert(s@.action->command.args =~= bridge_address(
            self.name@,
            ip,
            prefix,
        ).action->command.args);
        assert(s@.policy->Checked_tolerated =~= seq!["File exists"@]);
        s
    }

    /// The step that brings the bridge up.
    pub fn up(&self) -> (s: Step)
        ensures
            s@ == bridge_up(self.name@),
    {
        let s = Step::host(
            "ip",
            &["link", "set", self.name.as_str(), "up"],
            Policy::checked("Failed to bring bridge up", "Failed to bring bridge up: ", &[]),
        );
        assert(s@.action->command.args =~= bridge_up(self.name@).action->command.args);
        assert(s@.policy->Checked_tolerated =~= seq![]);
        s
    }

    /// Plans the attachment of `interface` to the bridge.
    pub fn attach_interface(&self, interface: &str) -> (plan: Vec<Step>)
        ensures
            views(plan@) == bridge_attachment(self.name@, interface@),
    {
        let ghost want = bridge_attachment(self.name@, interface@);
        let mut plan: Vec<Step> = Vec::new();
        let s0 = Step::host(
            "ip",
            &["link", "set", interface, "master", self.name.as_str()],
            Policy::checked(
                "Failed to attach interface to bridge",
                "Failed to attach interface to bridge: ",
                &[],
            ),
        );
        assert(s0@.action->command.args =~= want[0].action->command.args);
        assert(s0@.policy->Checked_tolerated =~= seq![]);
        push_step(&mut plan, s0);
        let s1 = Step::host(
            "ip",
            &["link", "set", interface, "up"],
            Policy::checked("Failed to bring interface up", "Failed to bring interface up: ", &[]),
        );
        assert(s1@.action->command.args =~= want[1].action->command.args);
        assert(s1@.policy->Checked_tolerated =~= seq![]);
        push_step(&mut plan, s1);
        assert(views(plan@) =~= want);
        plan
    }
}

} // verus!
