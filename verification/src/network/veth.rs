//! Pairs of virtual Ethernet interfaces: one end on the host, one in the container.

use crate::command::{checked, host_run, Policy, Step, StepView};
use crate::text::{signed_string, signed_text};
use vstd::prelude::*;

verus! {

/// The step that makes a pair of joined interfaces, `veth_host` and `veth_container`.
pub open spec fn veth_creation(veth_host: Seq<char>, veth_container: Seq<char>) -> StepView {
    host_run(
        "ip"@,
        seq![
            "link"@,
            "add"@,
            veth_host,
            "type"@,
            "veth"@,
            "peer"@,
            "name"@,
            veth_container,
        ],
        checked("Failed to create veth pair"@, "Failed to create veth pair: "@, seq![]),
    )
}

/// The step that moves `interface` into the network namespace of the process `pid`.
pub open spec fn namespace_move(interface: Seq<char>, pid: i32) -> StepView {
    host_run(
        "ip"@,
        seq!["link"@, "set"@, interface, "netns"@, signed_text(pid as int)],
        checked(
            "Failed to move interface to namespace"@,
            "Failed to move interface to namespace: "@,
            seq![],
        ),
    )
}

/// The step that deletes `interface`; a device that is gone already is no failure.
pub open spec fn veth_removal(interface: Seq<char>) -> StepView {
    host_run(
        "ip"@,
        seq!["link"@, "delete"@, interface],
        checked("Failed to delete veth"@, "Failed to delete veth: "@, seq!["Cannot find device"@]),
    )
}

/// The step that makes a pair of joined interfaces.
pub fn create_veth_pair(veth_host: &str, veth_container: &str) -> (s: Step)
    ensures
        s@ == veth_creation(veth_host@, veth_container@),
{
    let s = Step::host(
        "ip",
        &["link", "add", veth_host, "type", "veth", "peer", "name", veth_container],
        Policy::checked("Failed to create veth pair", "Failed to create veth pair: ", &[]),
    );
    assert(s@.action->command.args =~= veth_creation(
        veth_host@,
        veth_container@,
    ).action->command.args);
    assert(s@.policy->Checked_tolerated =~= seq![]);
    s
}

/// The step that moves `interface` into the network namespace of the process `pid`.
pub fn move_to_namespace(interface: &str, pid: i32) -> (s: Step)
    ensures
        s@ == namespace_move(interface@, pid),
{
    let target = signed_string(pid as i64);
    let s = Step::host(
        "ip",
        &["link", "set", interface, "netns", target.as_str()],
        Policy::checked(
            "Failed to move interface to namespace",
            "Failed to move interface to namespace: ",
            &[],
        ),
    );
    assert(s@.action->command.args =~= namespace_move(interface@, pid).action->command.args);
    assert(s@.policy->Checked_tolerated =~= seq![]);
    s
}

/// The step that deletes `interface`.
pub fn delete_veth(interface: &str) -> (s: Step)
    ensures
        s@ == veth_removal(interface@),
{
    let s = Step::host(
        "ip",
        &["link", "delete", interface],
        Policy::checked(
            "Failed to delete veth",
            "Failed to delete veth: ",
            &["Cannot find device"],
        ),
    );
    assert(s@.action->command.args =~= veth_removal(interface@).action->command.args);
    assert(s@.policy->Checked_tolerated =~= seq!["Cannot find device"@]);
    s
}

} // verus!
