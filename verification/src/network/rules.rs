//! What the plans of the network do to the packet filter rules of the host.
//!
//! The rules of the host are outside the library. This module models them
//! as a multiset, reads from each step of a plan which rule it adds or
//! deletes, and proves that the rules of a container's published ports are
//! as many as its ports and are gone after its cleanup.

use crate::command::{all_ignored, ActionView, StepView};
use crate::network::bridge::bridge_attachment;
use crate::network::iptables::{
    accept_rule, destination, dnat_rule, port_forward, port_forward_removal,
};
use crate::network::network_namespace::{
    default_route, interface_rename, interface_setup, loopback_setup,
};
use crate::network::veth::{namespace_move, veth_creation, veth_removal};
use crate::network::net_manager::{
    bridge_connection, bridge_record, container_interface, disconnection, forward_removals,
    forwards, host_interface,
};
use crate::network::PortMapping;
use vstd::multiset::Multiset;
use vstd::prelude::*;

verus! {

/// A rule of the packet filter: the table and the chain it stands in, and
/// what it says.
pub struct Rule {
    pub table: Seq<char>,
    pub chain: Seq<char>,
    pub body: Seq<Seq<char>>,
}

/// What a command does to the rules.
pub enum RuleChange {
    Add { rule: Rule },
    Delete { rule: Rule },
}

/// What the arguments of `iptables` ask for, where they add or delete a
/// rule: `-A` appends, `-I` with the position 1 inserts at the head, `-D`
/// deletes. The table is `filter` unless `-t` names another.
pub open spec fn change_of(args: Seq<Seq<char>>) -> Option<RuleChange> {
    let named = args.len() >= 2 && args[0] == "-t"@;
    let table = if named {
        args[1]
    } else {
        "filter"@
    };
    let rest = if named {
        args.skip(2)
    } else {
        args
    };
    if rest.len() >= 2 && rest[0] == "-A"@ {
        Some(RuleChange::Add { rule: Rule { table, chain: rest[1], body: rest.skip(2) } })
    } else if rest.len() >= 3 && rest[0] == "-I"@ && rest[2] == "1"@ {
        Some(RuleChange::Add { rule: Rule { table, chain: rest[1], body: rest.skip(3) } })
    } else if rest.len() >= 2 && rest[0] == "-D"@ {
        Some(RuleChange::Delete { rule: Rule { table, chain: rest[1], body: rest.skip(2) } })
    } else {
        None
    }
}

/// What a step does to the rules, if it runs `iptables` to add or delete one.
pub open spec fn rule_change(step: StepView) -> Option<RuleChange> {
    match step.action {
        ActionView::Run { command } => if command.program == "iptables"@ {
            change_of(command.args)
        } else {
            None
        },
        _ => None,
    }
}

/// The rules after a step that was performed and did what it asked for.
pub open spec fn rules_after_step(rules: Multiset<Rule>, step: StepView) -> Multiset<Rule> {
    match rule_change(step) {
        Some(RuleChange::Add { rule }) => rules.insert(rule),
        Some(RuleChange::Delete { rule }) => rules.remove(rule),
        None => rules,
    }
}

/// The rules after every step of a plan was performed, in order.
pub open spec fn rules_after(rules: Multiset<Rule>, plan: Seq<StepView>) -> Multiset<Rule>
    decreases plan.len(),
{
    if plan.len() == 0 {
        rules
    } else {
        rules_after_step(rules_after(rules, plan.drop_last()), plan.last())
    }
}

/// Whether a step adds a rule to the given chain of the given table.
pub open spec fn adds_to(step: StepView, table: Seq<char>, chain: Seq<char>) -> bool {
    rule_change(step) matches Some(RuleChange::Add { rule }) && rule.table == table && rule.chain
        == chain
}

/// How many steps of a plan add a rule to the given chain of the given table.
pub open spec fn count_adds(plan: Seq<StepView>, table: Seq<char>, chain: Seq<char>) -> nat
    decreases plan.len(),
{
    if plan.len() == 0 {
        0
    } else {
        count_adds(plan.drop_last(), table, chain) + if adds_to(plan.last(), table, chain) {
            1nat
        } else {
            0nat
        }
    }
}

/// Whether a rule sends packets on to the address `ip`.
pub open spec fn names(rule: Rule, ip: u32) -> bool {
    exists|port: u16|
        rule.body.len() >= 2 && rule.body[rule.body.len() - 2] == "--to-destination"@
            && rule.body.last() == #[trigger] destination(ip, port)
}

/// The three rules of one published port.
pub open spec fn port_rules(port: PortMapping, ip: u32) -> (Rule, Rule, Rule) {
    (
        Rule {
            table: "nat"@,
            chain: "PREROUTING"@,
            body: dnat_rule(false, port.host_port, ip, port.container_port, port.protocol),
        },
        Rule {
            table: "nat"@,
            chain: "OUTPUT"@,
            body: dnat_rule(true, port.host_port, ip, port.container_port, port.protocol),
        },
        Rule {
            table: "filter"@,
            chain: "FORWARD"@,
            body: accept_rule(port.host_port, ip, port.protocol),
        },
    )
}

proof fn lemma_words()
    ensures
        "-t"@ != "-A"@,
        "-t"@ != "-I"@,
        "-t"@ != "-D"@,
        "-A"@ != "-I"@,
        "-A"@ != "-D"@,
        "-I"@ != "-D"@,
        "ip"@ != "iptables"@,
        "PREROUTING"@ != "OUTPUT"@,
        "PREROUTING"@ != "FORWARD"@,
        "OUTPUT"@ != "FORWARD"@,
        "nat"@ != "filter"@,
{
    reveal_strlit("-t");
    reveal_strlit("-A");
    reveal_strlit("-I");
    reveal_strlit("-D");
    reveal_strlit("ip");
    reveal_strlit("iptables");
    reveal_strlit("PREROUTING");
    reveal_strlit("OUTPUT");
    reveal_strlit("FORWARD");
    reveal_strlit("nat");
    reveal_strlit("filter");
    assert("-t"@[1] != "-A"@[1]);
    assert("-t"@[1] != "-I"@[1]);
    assert("-t"@[1] != "-D"@[1]);
    assert("-A"@[1] != "-I"@[1]);
    assert("-A"@[1] != "-D"@[1]);
    assert("-I"@[1] != "-D"@[1]);
    assert("ip"@.len() != "iptables"@.len());
    assert("PREROUTING"@.len() != "OUTPUT"@.len());
    assert("PREROUTING"@.len() != "FORWARD"@.len());
    assert("OUTPUT"@.len() != "FORWARD"@.len());
    assert("nat"@.len() != "filter"@.len());
}

/// The steps that publish a port add its three rules, and the steps that
/// take the publication back delete the same three.
pub proof fn lemma_port_changes(port: PortMapping, ip: u32)
    ensures
        rule_change(port_forward(port.host_port, ip, port.container_port, port.protocol)[0])
            == Some(RuleChange::Add { rule: port_rules(port, ip).0 }),
        rule_change(port_forward(port.host_port, ip, port.container_port, port.protocol)[1])
            == Some(RuleChange::Add { rule: port_rules(port, ip).1 }),
        rule_change(port_forward(port.host_port, ip, port.container_port, port.protocol)[2])
            == Some(RuleChange::Add { rule: port_rules(port, ip).2 }),
        rule_change(
            port_forward_removal(port.host_port, ip, port.container_port, port.protocol)[0],
        ) == Some(RuleChange::Delete { rule: port_rules(port, ip).0 }),
        rule_change(
            port_forward_removal(port.host_port, ip, port.container_port, port.protocol)[1],
        ) == Some(RuleChange::Delete { rule: port_rules(port, ip).1 }),
        rule_change(
            port_forward_removal(port.host_port, ip, port.container_port, port.protocol)[2],
        ) == Some(RuleChange::Delete { rule: port_rules(port, ip).2 }),
        names(port_rules(port, ip).0, ip),
        names(port_rules(port, ip).1, ip),
{
    lemma_words();
    reveal_strlit("1");
    let pre = dnat_rule(false, port.host_port, ip, port.container_port, port.protocol);
    let out = dnat_rule(true, port.host_port, ip, port.container_port, port.protocol);
    let acc = accept_rule(port.host_port, ip, port.protocol);
    let a0 = seq!["-t"@, "nat"@, "-I"@, "PREROUTING"@, "1"@] + pre;
    let a1 = seq!["-t"@, "nat"@, "-I"@, "OUTPUT"@, "1"@] + out;
    let a2 = seq!["-I"@, "FORWARD"@, "1"@] + acc;
    let d0 = seq!["-t"@, "nat"@, "-D"@, "PREROUTING"@] + pre;
    let d1 = seq!["-t"@, "nat"@, "-D"@, "OUTPUT"@] + out;
    let d2 = seq!["-D"@, "FORWARD"@] + acc;
    assert(a0.skip(2).skip(3) =~= pre);
    assert(a1.skip(2).skip(3) =~= out);
    assert(a2.skip(3) =~= acc);
    assert(d0.skip(2).skip(2) =~= pre);
    assert(d1.skip(2).skip(2) =~= out);
    assert(d2.skip(2) =~= acc);
    assert(a0.skip(2)[0] == "-I"@ && a0.skip(2)[1] == "PREROUTING"@ && a0.skip(2)[2] == "1"@);
    assert(a1.skip(2)[0] == "-I"@ && a1.skip(2)[1] == "OUTPUT"@ && a1.skip(2)[2] == "1"@);
    assert(d0.skip(2)[0] == "-D"@ && d0.skip(2)[1] == "PREROUTING"@);
    assert(d1.skip(2)[0] == "-D"@ && d1.skip(2)[1] == "OUTPUT"@);
    assert(change_of(a0) == Some(RuleChange::Add { rule: port_rules(port, ip).0 }));
    assert(change_of(a1) == Some(RuleChange::Add { rule: port_rules(port, ip).1 }));
    assert(change_of(a2) == Some(RuleChange::Add { rule: port_rules(port, ip).2 }));
    assert(change_of(d0) == Some(RuleChange::Delete { rule: port_rules(port, ip).0 }));
    assert(change_of(d1) == Some(RuleChange::Delete { rule: port_rules(port, ip).1 }));
    assert(change_of(d2) == Some(RuleChange::Delete { rule: port_rules(port, ip).2 }));
    assert(pre.last() == destination(ip, port.container_port));
    assert(out.last() == destination(ip, port.container_port));
    assert(pre[pre.len() - 2] == "--to-destination"@);
    assert(out[out.len() - 2] == "--to-destination"@);
}

/// The rules after two plans, one after the other.
pub proof fn lemma_rules_after_both(
    rules: Multiset<Rule>,
    first: Seq<StepView>,
    second: Seq<StepView>,
)
    ensures
        rules_after(rules, first + second) == rules_after(rules_after(rules, first), second),
    decreases second.len(),
{
    if second.len() == 0 {
        assert(first + second =~= first);
    } else {
        assert((first + second).drop_last() =~= first + second.drop_last());
        assert((first + second).last() == second.last());
        lemma_rules_after_both(rules, first, second.drop_last());
    }
}

/// The additions of two plans, one after the other, add up.
pub proof fn lemma_count_adds_both(
    first: Seq<StepView>,
    second: Seq<StepView>,
    table: Seq<char>,
    chain: Seq<char>,
)
    ensures
        count_adds(first + second, table, chain) == count_adds(first, table, chain) + count_adds(
            second,
            table,
            chain,
        ),
    decreases second.len(),
{
    if second.len() == 0 {
        assert(first + second =~= first);
    } else {
        assert((first + second).drop_last() =~= first + second.drop_last());
        assert((first + second).last() == second.last());
        lemma_count_adds_both(first, second.drop_last(), table, chain);
    }
}

/// The rules of the published ports of a container: three for each port.
pub open spec fn published_rules(
    rules: Multiset<Rule>,
    ports: Seq<PortMapping>,
    ip: u32,
) -> Multiset<Rule>
    decreases ports.len(),
{
    if ports.len() == 0 {
        rules
    } else {
        published_rules(rules, ports.drop_last(), ip).insert(
            port_rules(ports.last(), ip).0,
        ).insert(port_rules(ports.last(), ip).1).insert(port_rules(ports.last(), ip).2)
    }
}

proof fn lemma_three(plan: Seq<StepView>)
    requires
        plan.len() == 3,
    ensures
        forall|rules: Multiset<Rule>| #[trigger]
            rules_after(rules, plan) == rules_after_step(
                rules_after_step(rules_after_step(rules, plan[0]), plan[1]),
                plan[2],
            ),
        forall|table: Seq<char>, chain: Seq<char>| #[trigger]
            count_adds(plan, table, chain) == (if adds_to(plan[0], table, chain) {
                1nat
            } else {
                0nat
            }) + (if adds_to(plan[1], table, chain) {
                1nat
            } else {
                0nat
            }) + (if adds_to(plan[2], table, chain) {
                1nat
            } else {
                0nat
            }),
{
    let two = plan.drop_last();
    let one = two.drop_last();
    let none = one.drop_last();
    assert(two.last() == plan[1]);
    assert(one.last() == plan[0]);
    assert(none.len() == 0);
    assert forall|rules: Multiset<Rule>| #[trigger]
        rules_after(rules, plan) == rules_after_step(
            rules_after_step(rules_after_step(rules, plan[0]), plan[1]),
            plan[2],
        ) by {
        assert(rules_after(rules, none) == rules);
        assert(rules_after(rules, one) == rules_after_step(rules, plan[0]));
        assert(rules_after(rules, two) == rules_after_step(rules_after(rules, one), plan[1]));
    }
    assert forall|table: Seq<char>, chain: Seq<char>| #[trigger]
        count_adds(plan, table, chain) == (if adds_to(plan[0], table, chain) {
            1nat
        } else {
            0nat
        }) + (if adds_to(plan[1], table, chain) {
            1nat
        } else {
            0nat
        }) + (if adds_to(plan[2], table, chain) {
            1nat
        } else {
            0nat
        }) by {
        assert(count_adds(none, table, chain) == 0);
        assert(count_adds(one, table, chain) == count_adds(none, table, chain) + if adds_to(
            plan[0],
            table,
            chain,
        ) {
            1nat
        } else {
            0nat
        });
        assert(count_adds(two, table, chain) == count_adds(one, table, chain) + if adds_to(
            plan[1],
            table,
            chain,
        ) {
            1nat
        } else {
            0nat
        });
    }
}

/// Publishing the ports of a container adds three rules for each port, one
/// of them to `PREROUTING` and one to `OUTPUT` in the table `nat`.
pub proof fn lemma_forwards_add(rules: Multiset<Rule>, ports: Seq<PortMapping>, ip: u32)
    ensures
        rules_after(rules, forwards(ports, ip)) == published_rules(rules, ports, ip),
        count_adds(forwards(ports, ip), "nat"@, "PREROUTING"@) == ports.len(),
        count_adds(forwards(ports, ip), "nat"@, "OUTPUT"@) == ports.len(),
    decreases ports.len(),
{
    if ports.len() > 0 {
        let port = ports.last();
        let three = port_forward(port.host_port, ip, port.container_port, port.protocol);
        lemma_forwards_add(rules, ports.drop_last(), ip);
        lemma_rules_after_both(rules, forwards(ports.drop_last(), ip), three);
        lemma_count_adds_both(forwards(ports.drop_last(), ip), three, "nat"@, "PREROUTING"@);
        lemma_count_adds_both(forwards(ports.drop_last(), ip), three, "nat"@, "OUTPUT"@);
        lemma_port_changes(port, ip);
        lemma_three(three);
        lemma_words();
        let before = rules_after(rules, forwards(ports.drop_last(), ip));
        assert(rules_after(before, three) == rules_after_step(
            rules_after_step(rules_after_step(before, three[0]), three[1]),
            three[2],
        ));
        assert(count_adds(three, "nat"@, "PREROUTING"@) == 1);
        assert(count_adds(three, "nat"@, "OUTPUT"@) == 1);
    }
}

/// Taking the publication of the ports back deletes the rules that
/// publishing them added: what was there before is there again.
pub proof fn lemma_removals_undo(rules: Multiset<Rule>, ports: Seq<PortMapping>, ip: u32)
    ensures
        rules_after(published_rules(rules, ports, ip), forward_removals(ports, ip)) == rules,
    decreases ports.len(),
{
    if ports.len() > 0 {
        let port = ports.last();
        let r = port_rules(port, ip);
        let three = all_ignored(
            port_forward_removal(port.host_port, ip, port.container_port, port.protocol),
        );
        let plain = port_forward_removal(port.host_port, ip, port.container_port, port.protocol);
        lemma_port_changes(port, ip);
        lemma_three(three);
        assert(rule_change(three[0]) == rule_change(plain[0]));
        assert(rule_change(three[1]) == rule_change(plain[1]));
        assert(rule_change(three[2]) == rule_change(plain[2]));
        // The rules of the earlier ports are deleted from a table that also
        // holds the rules of the last port.
        let more = rules.insert(r.0).insert(r.1).insert(r.2);
        lemma_published_more(rules, ports.drop_last(), ip, r);
        lemma_removals_undo(more, ports.drop_last(), ip);
        lemma_rules_after_both(
            published_rules(rules, ports, ip),
            forward_removals(ports.drop_last(), ip),
            three,
        );
        assert(rules_after(more, three) == rules_after_step(
            rules_after_step(rules_after_step(more, three[0]), three[1]),
            three[2],
        ));
        assert(more.remove(r.0).remove(r.1).remove(r.2) =~= rules);
    }
}

proof fn lemma_published_more(
    rules: Multiset<Rule>,
    ports: Seq<PortMapping>,
    ip: u32,
    r: (Rule, Rule, Rule),
)
    ensures
        published_rules(rules, ports, ip).insert(r.0).insert(r.1).insert(r.2) == published_rules(
            rules.insert(r.0).insert(r.1).insert(r.2),
            ports,
            ip,
        ),
    decreases ports.len(),
{
    if ports.len() > 0 {
        lemma_published_more(rules, ports.drop_last(), ip, r);
        let q = port_rules(ports.last(), ip);
        let inner = published_rules(rules, ports.drop_last(), ip);
        assert(inner.insert(q.0).insert(q.1).insert(q.2).insert(r.0).insert(r.1).insert(r.2)
            =~= inner.insert(r.0).insert(r.1).insert(r.2).insert(q.0).insert(q.1).insert(q.2));
    }
}


/// Whether no step of a plan touches the rules.
pub open spec fn leaves_rules(plan: Seq<StepView>) -> bool {
    forall|i: int| 0 <= i < plan.len() ==> rule_change(#[trigger] plan[i]) is None
}

/// A plan that does not touch the rules leaves them as they are.
pub proof fn lemma_leaves_rules(
    rules: Multiset<Rule>,
    plan: Seq<StepView>,
    table: Seq<char>,
    chain: Seq<char>,
)
    requires
        leaves_rules(plan),
    ensures
        rules_after(rules, plan) == rules,
        count_adds(plan, table, chain) == 0,
    decreases plan.len(),
{
    if plan.len() > 0 {
        assert(rule_change(plan[plan.len() - 1]) is None);
        assert forall|i: int| 0 <= i < plan.drop_last().len() implies rule_change(
            #[trigger] plan.drop_last()[i],
        ) is None by {
            assert(plan.drop_last()[i] == plan[i]);
        }
        lemma_leaves_rules(rules, plan.drop_last(), table, chain);
    }
}

/// Every rule that publishing the ports of a container adds to the table
/// `nat` sends packets on to the address of that container.
pub proof fn lemma_forwards_name(ports: Seq<PortMapping>, ip: u32, i: int)
    requires
        0 <= i < forwards(ports, ip).len(),
        rule_change(forwards(ports, ip)[i]) matches Some(RuleChange::Add { rule }) && rule.table
            == "nat"@,
    ensures
        rule_change(forwards(ports, ip)[i]) matches Some(RuleChange::Add { rule }) && names(
            rule,
            ip,
        ),
    decreases ports.len(),
{
    if ports.len() > 0 {
        let port = ports.last();
        let earlier = forwards(ports.drop_last(), ip);
        let three = port_forward(port.host_port, ip, port.container_port, port.protocol);
        if i < earlier.len() {
            assert(forwards(ports, ip)[i] == earlier[i]);
            lemma_forwards_name(ports.drop_last(), ip, i);
        } else {
            lemma_port_changes(port, ip);
            lemma_words();
            assert(forwards(ports, ip)[i] == three[i - earlier.len()]);
        }
    }
}

/// The rules of a container's published ports mirror its ports.
///
/// The plan that connects a container with `ports` to a bridge adds exactly
/// as many rules to `PREROUTING` and as many to `OUTPUT`, in the table
/// `nat`, as the container has ports. And once the plan of its cleanup was
/// performed too, the rules are what they were before the container came:
/// none of its rules is left.
pub proof fn lemma_port_forward_mirror(
    rules: Multiset<Rule>,
    id: Seq<char>,
    pid: i32,
    network: Seq<char>,
    bridge: Seq<char>,
    ip: u32,
    prefix: u8,
    gateway: u32,
    ports: Seq<PortMapping>,
)
    ensures
        count_adds(
            bridge_connection(id, pid, bridge, ip, prefix, gateway, ports),
            "nat"@,
            "PREROUTING"@,
        ) == ports.len(),
        count_adds(
            bridge_connection(id, pid, bridge, ip, prefix, gateway, ports),
            "nat"@,
            "OUTPUT"@,
        ) == ports.len(),
        rules_after(
            rules_after(rules, bridge_connection(id, pid, bridge, ip, prefix, gateway, ports)),
            disconnection(bridge_record(id, network, ip, gateway, ports)),
        ) == rules,
{
    lemma_words();
    let wiring = seq![veth_creation(host_interface(id), container_interface(id))]
        + bridge_attachment(bridge, host_interface(id)) + seq![
        namespace_move(container_interface(id), pid),
        loopback_setup(pid),
        interface_rename(pid, container_interface(id), "eth0"@),
    ] + interface_setup(pid, "eth0"@, ip, prefix) + seq![default_route(pid, "eth0"@, gateway)];
    let connect = bridge_connection(id, pid, bridge, ip, prefix, gateway, ports);
    assert(connect =~= wiring + forwards(ports, ip));
    assert(wiring.len() == 9);
    assert(leaves_rules(wiring));
    lemma_leaves_rules(rules, wiring, "nat"@, "PREROUTING"@);
    lemma_leaves_rules(rules, wiring, "nat"@, "OUTPUT"@);
    lemma_count_adds_both(wiring, forwards(ports, ip), "nat"@, "PREROUTING"@);
    lemma_count_adds_both(wiring, forwards(ports, ip), "nat"@, "OUTPUT"@);
    lemma_rules_after_both(rules, wiring, forwards(ports, ip));
    lemma_forwards_add(rules, ports, ip);
    let unwiring = seq![veth_removal(host_interface(id)).ignored()];
    let disconnect = disconnection(bridge_record(id, network, ip, gateway, ports));
    assert(disconnect =~= forward_removals(ports, ip) + unwiring);
    assert(leaves_rules(unwiring));
    lemma_rules_after_both(
        published_rules(rules, ports, ip),
        forward_removals(ports, ip),
        unwiring,
    );
    lemma_removals_undo(rules, ports, ip);
    lemma_leaves_rules(rules, unwiring, "nat"@, "PREROUTING"@);
}

} // verus!
