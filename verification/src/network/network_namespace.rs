//! Work done inside the network namespace of a container process.

use crate::command::{
    checked, inside_run, push_step, visit_error, Policy, PolicyView, Report, ReportView, Step,
    StepView,
};
use crate::error::{ContainerResult, ErrorView};
use crate::network::bridge::{address_string, address_with_prefix};
use crate::error::outcome_of;
use crate::network::subnet::{ipv4_string, ipv4_text};
use crate::text::{signed_string, signed_text, views};
use vstd::prelude::*;

verus! {

/// The network namespace of one process.
#[derive(Debug, Clone, Copy, PartialEq, Eq, Structural)]
pub struct NetworkNamespace {
    pid: i32,
}

/// The file that stands for the network namespace of the process `pid`.
pub open spec fn namespace_path(pid: i32) -> Seq<char> {
    "/proc/"@ + signed_text(pid as int) + "/ns/net"@
}

/// What a visit to a namespace comes to: the error of the visit itself where
/// the namespace could not be entered or left, and otherwise what the work
/// inside came to.
pub open spec fn visit_result<T>(report: ReportView, inside: Result<T, ErrorView>) -> Result<
    T,
    ErrorView,
> {
    match visit_error(report) {
        Some(e) => Err(e),
        None => inside,
    }
}

/// The step that brings the loopback interface up inside the namespace of `pid`.
pub open spec fn loopback_setup(pid: i32) -> StepView {
    inside_run(
        pid,
        "ip"@,
        seq!["link"@, "set"@, "lo"@, "up"@],
        checked("Failed to execute ip command"@, "Failed to setup loopback: "@, seq![]),
    )
}

/// The steps that give `interface` its address inside the namespace of `pid`
/// and bring it up; an address that it has already is no failure.
pub open spec fn interface_setup(pid: i32, interface: Seq<char>, ip: u32, prefix: u8) -> Seq<
    StepView,
> {
    seq![
        inside_run(
            pid,
            "ip"@,
            seq!["addr"@, "add"@, address_with_prefix(ip, prefix), "dev"@, interface],
            checked(
                "Failed to set IP address"@,
                "Failed to configure interface: "@,
                seq!["File exists"@],
            ),
        ),
        inside_run(
            pid,
            "ip"@,
            seq!["link"@, "set"@, interface, "up"@],
            checked("Failed to bring interface up"@, "Failed to bring interface up: "@, seq![]),
        ),
    ]
}

/// The step that routes everything through `gateway` by way of `interface`,
/// inside the namespace of `pid`.
pub open spec fn default_route(pid: i32, interface: Seq<char>, gateway: u32) -> StepView {
    inside_run(
        pid,
        "ip"@,
        seq!["route"@, "add"@, "default"@, "via"@, ipv4_text(gateway), "dev"@, interface],
        checked("Failed to add default route"@, "Failed to add default route: "@, seq![]),
    )
}

/// The step that gives `interface` the name `name` inside the namespace of
/// `pid`. Whatever comes of it is accepted.
pub open spec fn interface_rename(pid: i32, interface: Seq<char>, name: Seq<char>) -> StepView {
    inside_run(pid, "ip"@, seq!["link"@, "set"@, interface, "name"@, name], PolicyView::Ignore)
}

impl NetworkNamespace {
    /// The process whose namespace this is.
    pub closed spec fn owner(&self) -> i32 {
        self.pid
    }

    /// The network namespace of the process `pid`.
    pub fn from_pid(pid: i32) -> (r: ContainerResult<NetworkNamespace>)
        ensures
            r matches Ok(ns) && ns.owner() == pid,
    {
        Ok(NetworkNamespace { pid })
    }

    /// The process whose namespace this is.
    pub fn pid(&self) -> (pid: i32)
        ensures
            pid == self.owner(),
    {
        self.pid
    }

    /// The file to open in order to enter the namespace.
    pub fn path(&self) -> (s: String)
        ensures
            s@ == namespace_path(self.owner()),
    {
        let mut s = String::from_str("/proc/");
        let number = signed_string(self.pid as i64);
        s.append(number.as_str());
        s.append("/ns/net");
        s
    }

    /// The file to open in order to come back to the caller's own namespace.
    pub fn current_path() -> (s: &'static str)
        ensures
            s@ == "/proc/self/ns/net"@,
    {
        "/proc/self/ns/net"
    }

    /// Settles a visit to the namespace. `report` tells how entering and
    /// leaving went, `inside` what the work inside came to. The caller is
    /// taken back to its own namespace whatever the work came to; a visit
    /// that could not be made or ended is an error, and otherwise the result
    /// of the work is handed on.
    pub fn enter<T>(&self, report: &Report, inside: ContainerResult<T>) -> (r: ContainerResult<T>)
        ensures
            outcome_of(r) == visit_result(report@, outcome_of(inside)),
    {
        match report.visit_error() {
            Some(e) => Err(e),
            None => inside,
        }
    }

    /// The step that brings the loopback interface up.
    pub fn setup_loopback(&self) -> (s: Step)
        ensures
            s@ == loopback_setup(self.owner()),
    {
        let s = Step::inside(
            self.pid,
            "ip",
            &["link", "set", "lo", "up"],
            Policy::checked("Failed to execute ip command", "Failed to setup loopback: ", &[]),
        );
        assert(s@.action->command.args =~= loopback_setup(self.pid).action->command.args);
        assert(s@.policy->Checked_tolerated =~= seq![]);
        s
    }

    /// Plans giving `interface` the address `ip` with the prefix length
    /// `subnet_prefix`, and bringing it up.
    pub fn configure_interface(&self, interface: &str, ip: u32, subnet_prefix: u8) -> (plan: Vec<
        Step,
    >)
        ensures
            views(plan@) == interface_setup(self.owner(), interface@, ip, subnet_prefix),
    {
        let ghost want = interface_setup(self.pid, interface@, ip, subnet_prefix);
        let address = address_string(ip, subnet_prefix);
        let mut plan: Vec<Step> = Vec::new();
        let s0 = Step::inside(
            self.pid,
            "ip",
            &["addr", "add", address.as_str(), "dev", interface],
            Policy::checked(
                "Failed to set IP address",
                "Failed to configure interface: ",
                &["File exists"],
            ),
        );
        assert(s0@.action->command.args =~= want[0].action->command.args);
        assert(s0@.policy->Checked_tolerated =~= seq!["File exists"@]);
        push_step(&mut plan, s0);
        let s1 = Step::inside(
            self.pid,
            "ip",
            &["link", "set", interface, "up"],
            Policy::checked("Failed to bring interface up", "Failed to bring interface up: ", &[]),
        );
        assert(s1@.action->command.args =~= want[1].action->command.args);
        assert(s1@.policy->Checked_tolerated =~= seq![]);
        push_step(&mut plan, s1);
        assert(views(plan@) =~= want);
        plan
    }

    /// The step that routes everything through `gateway` by way of `interface`.
    pub fn add_default_route(&self, interface: &str, gateway: u32) -> (s: Step)
        ensures
            s@ == default_route(self.owner(), interface@, gateway),
    {
        let via = ipv4_string(gateway);
        let s = Step::inside(
            self.pid,
            "ip",
            &["route", "add", "default", "via", via.as_str(), "dev", interface],
            Policy::checked("Failed to add default route", "Failed to add default route: ", &[]),
        );
        assert(s@.action->command.args =~= default_route(
            self.pid,
            interface@,
            gateway,
        ).action->command.args);
        assert(s@.policy->Checked_tolerated =~= seq![]);
        s
    }

    /// The step that gives `interface` the name `name`.
    pub fn rename_interface(&self, interface: &str, name: &str) -> (s: Step)
        ensures
            s@ == interface_rename(self.owner(), interface@, name@),
    {
        let s = Step::inside(
            self.pid,
            "ip",
            &["link", "set", interface, "name", name],
            Policy::Ignore,
        );
        assert(s@.action->command.args =~= interface_rename(
            self.pid,
            interface@,
            name@,
        ).action->command.args);
        s
    }
}

} // verus!
