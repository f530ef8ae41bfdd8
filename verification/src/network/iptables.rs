//! The rules that connect a bridge to the outside and publish container ports.

use crate::command::{
    checked, fixed, holds_any, host_read, host_run, host_write, push_step, required, verdict,
    Condition, Failure, OutcomeView, Policy, PolicyView, Step, StepView,
};
use crate::error::ErrorKind;
use crate::network::subnet::{ipv4_string, ipv4_text};
use crate::network::{protocol_name, Protocol};
use crate::text::{decimal_string, decimal_text, views};
use vstd::prelude::*;

verus! {

/// The file that switches the forwarding of IPv4 packets on.
pub open spec fn forwarding_switch() -> Seq<char> {
    "/proc/sys/net/ipv4/ip_forward"@
}

/// The file that lets packets for 127.0.0.1 be routed through `interface`.
pub open spec fn localnet_switch(interface: Seq<char>) -> Seq<char> {
    "/proc/sys/net/ipv4/conf/"@ + interface + "/route_localnet"@
}

/// The steps that let containers behind `bridge`, with addresses in
/// `subnet`, reach the outside.
///
/// Forwarding is switched on through its file, or through `sysctl` where the
/// file cannot be written, and then read back. Traffic that leaves the subnet
/// by another interface than the bridge is masqueraded. Traffic through the
/// bridge is accepted in both directions. The masquerade rule is looked up
/// in the listing of its chain. Traffic from 127.0.0.1 to the subnet is
/// masqueraded too. A rule that is there already is no failure; whatever
/// else fails is a `Network` error.
pub open spec fn nat_setup(bridge: Seq<char>, subnet: Seq<char>) -> Seq<StepView> {
    seq![
        host_write(forwarding_switch(), "1"@, PolicyView::Ignore),
        host_run(
            "sysctl"@,
            seq!["-w"@, "net.ipv4.ip_forward=1"@],
            checked(
                "Failed to enable IP forwarding"@,
                "Failed to enable IP forwarding: "@,
                seq![],
            ),
        ).when(Condition::AfterFailure),
        host_read(
            forwarding_switch(),
            PolicyView::Holds {
                expected: "1"@,
                prefix: "IP forwarding is not enabled (value: "@,
                suffix: ")"@,
            },
        ),
        host_run(
            "iptables"@,
            seq![
                "-t"@,
                "nat"@,
                "-A"@,
                "POSTROUTING"@,
                "-s"@,
                subnet,
                "!"@,
                "-o"@,
                bridge,
                "-j"@,
                "MASQUERADE"@,
            ],
            checked("Failed to setup NAT"@, "Failed to setup MASQUERADE: "@, duplicate_rule()),
        ),
        host_run(
            "iptables"@,
            seq!["-I"@, "FORWARD"@, "1"@, "-i"@, bridge, "-j"@, "ACCEPT"@],
            checked(
                "Failed to add FORWARD rule (incoming)"@,
                "Failed to add incoming FORWARD rule: "@,
                duplicate_rule(),
            ),
        ),
        host_run(
            "iptables"@,
            seq!["-I"@, "FORWARD"@, "1"@, "-o"@, bridge, "-j"@, "ACCEPT"@],
            checked(
                "Failed to add FORWARD rule (outgoing)"@,
                "Failed to add outgoing FORWARD rule: "@,
                duplicate_rule(),
            ),
        ),
        host_run(
            "iptables"@,
            seq!["-t"@, "nat"@, "-L"@, "POSTROUTING"@, "-n"@],
            PolicyView::Shown {
                failure: fixed(ErrorKind::Network, "Failed to list POSTROUTING rules"@),
                needles: seq!["MASQUERADE"@, subnet],
                message: "MASQUERADE rule verification failed"@,
            },
        ),
        hairpin_rule(
            "-A"@,
            subnet,
            checked(
                "Failed to add localhost MASQUERADE"@,
                "Failed to add localhost MASQUERADE: "@,
                duplicate_rule(),
            ),
        ),
    ]
}

/// What `iptables` prints when the rule it is to add is there already. A
/// refusal that holds one of these texts is no failure.
pub open spec fn duplicate_rule() -> Seq<Seq<char>> {
    seq!["already exists"@, "Duplicate"@]
}

/// The rule that masquerades traffic from 127.0.0.1 to `subnet`, appended
/// with `-A` or deleted with `-D`.
pub open spec fn hairpin_rule(op: Seq<char>, subnet: Seq<char>, policy: PolicyView) -> StepView {
    host_run(
        "iptables"@,
        seq![
            "-t"@,
            "nat"@,
            op,
            "POSTROUTING"@,
            "-s"@,
            "127.0.0.1"@,
            "-d"@,
            subnet,
            "-j"@,
            "MASQUERADE"@,
        ],
        policy,
    )
}

/// The steps that take back the acceptance of traffic through `bridge`.
pub open spec fn nat_cleanup(bridge: Seq<char>) -> Seq<StepView> {
    seq![
        host_run(
            "iptables"@,
            seq!["-D"@, "FORWARD"@, "-i"@, bridge, "-j"@, "ACCEPT"@],
            PolicyView::Ignore,
        ),
        host_run(
            "iptables"@,
            seq!["-D"@, "FORWARD"@, "-o"@, bridge, "-j"@, "ACCEPT"@],
            PolicyView::Ignore,
        ),
    ]
}

/// The steps that let packets for 127.0.0.1 be routed to containers behind `bridge`.
pub open spec fn localhost_routing(bridge: Seq<char>) -> Seq<StepView> {
    seq![
        host_write(
            localnet_switch("all"@),
            "1"@,
            required("Failed to enable route_localnet for all"@),
        ),
        host_write(
            localnet_switch(bridge),
            "1"@,
            required("Failed to enable route_localnet for "@ + bridge),
        ),
    ]
}

/// Where a published port leads: the container's address, `:`, its port.
pub open spec fn destination(container_ip: u32, container_port: u16) -> Seq<char> {
    ipv4_text(container_ip) + ":"@ + decimal_text(container_port as nat)
}

/// What a rule in a chain of the `nat` table says of one published port:
/// packets of the protocol to `host_port` go to the container instead. In
/// the `OUTPUT` chain, for the host's own traffic, only packets to 127.0.0.1
/// are meant.
pub open spec fn dnat_rule(
    local: bool,
    host_port: u16,
    container_ip: u32,
    container_port: u16,
    protocol: Protocol,
) -> Seq<Seq<char>> {
    seq!["-p"@, protocol_name(protocol)] + (if local {
        seq!["-d"@, "127.0.0.1"@]
    } else {
        seq![]
    }) + seq![
        "--dport"@,
        decimal_text(host_port as nat),
        "-j"@,
        "DNAT"@,
        "--to-destination"@,
        destination(container_ip, container_port),
    ]
}

/// What the rule in the `FORWARD` chain says of one published port: packets
/// of the protocol to the container and the published port are accepted.
pub open spec fn accept_rule(host_port: u16, container_ip: u32, protocol: Protocol) -> Seq<
    Seq<char>,
> {
    seq![
        "-p"@,
        protocol_name(protocol),
        "-d"@,
        ipv4_text(container_ip),
        "--dport"@,
        decimal_text(host_port as nat),
        "-j"@,
        "ACCEPT"@,
    ]
}

/// The steps that publish one port: a rule at the head of `PREROUTING`, one
/// at the head of `OUTPUT`, and one at the head of `FORWARD`. A rule that
/// is there already is no failure; any other refusal is a `Network` error.
pub open spec fn port_forward(
    host_port: u16,
    container_ip: u32,
    container_port: u16,
    protocol: Protocol,
) -> Seq<StepView> {
    seq![
        host_run(
            "iptables"@,
            seq!["-t"@, "nat"@, "-I"@, "PREROUTING"@, "1"@] + dnat_rule(
                false,
                host_port,
                container_ip,
                container_port,
                protocol,
            ),
            checked(
                "Failed to add PREROUTING DNAT"@,
                "Failed to add port forward: "@,
                duplicate_rule(),
            ),
        ),
        host_run(
            "iptables"@,
            seq!["-t"@, "nat"@, "-I"@, "OUTPUT"@, "1"@] + dnat_rule(
                true,
                host_port,
                container_ip,
                container_port,
                protocol,
            ),
            checked(
                "Failed to add OUTPUT DNAT"@,
                "Failed to add OUTPUT DNAT (localhost): "@,
                duplicate_rule(),
            ),
        ),
        host_run(
            "iptables"@,
            seq!["-I"@, "FORWARD"@, "1"@] + accept_rule(host_port, container_ip, protocol),
            checked(
                "Failed to add FORWARD rule"@,
                "Failed to add FORWARD rule: "@,
                duplicate_rule(),
            ),
        ),
    ]
}

/// The steps that take one published port back: the same three rules, deleted.
pub open spec fn port_forward_removal(
    host_port: u16,
    container_ip: u32,
    container_port: u16,
    protocol: Protocol,
) -> Seq<StepView> {
    seq![
        host_run(
            "iptables"@,
            seq!["-t"@, "nat"@, "-D"@, "PREROUTING"@] + dnat_rule(
                false,
                host_port,
                container_ip,
                container_port,
                protocol,
            ),
            checked("Failed to add port forward"@, "Failed to add port forward: "@, seq![]),
        ),
        host_run(
            "iptables"@,
            seq!["-t"@, "nat"@, "-D"@, "OUTPUT"@] + dnat_rule(
                true,
                host_port,
                container_ip,
                container_port,
                protocol,
            ),
            PolicyView::Ignore,
        ),
        host_run(
            "iptables"@,
            seq!["-D"@, "FORWARD"@] + accept_rule(host_port, container_ip, protocol),
            PolicyView::Ignore,
        ),
    ]
}

/// The step for the rule that masquerades traffic from 127.0.0.1 to `subnet`.
pub fn hairpin(op: &str, subnet: &str, policy: Policy) -> (s: Step)
    ensures
        s@ == hairpin_rule(op@, subnet@, policy@),
{
    let s = Step::host(
        "iptables",
        &["-t", "nat", op, "POSTROUTING", "-s", "127.0.0.1", "-d", subnet, "-j", "MASQUERADE"],
        policy,
    );
    assert(s@.action->command.args =~= hairpin_rule(op@, subnet@, policy@).action->command.args);
    s
}

/// Whether the step at position `i` of `nat_setup` adds a rule.
pub open spec fn adds_nat_rule(i: int) -> bool {
    i == 3 || i == 4 || i == 5 || i == 7
}

/// A rule that cannot be added fails the setup, unless it is there already:
/// each step of `nat_setup` and of `port_forward` that adds a rule accepts
/// a refusal exactly when what the command printed holds `already exists`
/// or `Duplicate`, and every other refusal is a `Network` error.
pub proof fn lemma_only_duplicates_tolerated(
    bridge: Seq<char>,
    subnet: Seq<char>,
    host_port: u16,
    container_ip: u32,
    container_port: u16,
    protocol: Protocol,
    i: int,
    stdout: Seq<char>,
    stderr: Seq<char>,
)
    ensures
        adds_nat_rule(i) ==> match verdict(
            nat_setup(bridge, subnet)[i].policy,
            OutcomeView::Done { success: false, stdout, stderr },
        ) {
            Ok(_) => holds_any(stderr, duplicate_rule()),
            Err(e) => !holds_any(stderr, duplicate_rule()) && e.kind == ErrorKind::Network,
        },
        0 <= i < 3 ==> match verdict(
            port_forward(host_port, container_ip, container_port, protocol)[i].policy,
            OutcomeView::Done { success: false, stdout, stderr },
        ) {
            Ok(_) => holds_any(stderr, duplicate_rule()),
            Err(e) => !holds_any(stderr, duplicate_rule()) && e.kind == ErrorKind::Network,
        },
{
}

/// The policy of a step that adds a rule: the command must run and
/// succeed, unless it says that the rule is there already.
pub fn rule_policy(message: &str, prefix: &str) -> (p: Policy)
    ensures
        p@ == checked(message@, prefix@, duplicate_rule()),
{
    let p = Policy::checked(message, prefix, &["already exists", "Duplicate"]);
    assert(p@->Checked_tolerated =~= duplicate_rule());
    p
}

/// Plans the rules that let containers behind `bridge_name`, with addresses
/// in `subnet`, reach the outside.
pub fn setup_nat(bridge_name: &str, subnet: &str) -> (plan: Vec<Step>)
    ensures
        views(plan@) == nat_setup(bridge_name@, subnet@),
{
    let ghost want = nat_setup(bridge_name@, subnet@);
    let mut plan: Vec<Step> = Vec::new();
    let s0 = Step::write(String::from_str("/proc/sys/net/ipv4/ip_forward"), "1", Policy::Ignore);
    assert(s0@ == want[0]);
    push_step(&mut plan, s0);
    let s1 = Step::host(
        "sysctl",
        &["-w", "net.ipv4.ip_forward=1"],
        Policy::checked("Failed to enable IP forwarding", "Failed to enable IP forwarding: ", &[]),
    ).when(Condition::AfterFailure);
    assert(s1@.action->command.args =~= want[1].action->command.args);
    assert(s1@.policy->Checked_tolerated =~= seq![]);
    assert(s1@ == want[1]);
    push_step(&mut plan, s1);
    let s2 = Step::read(
        "/proc/sys/net/ipv4/ip_forward",
        Policy::Holds {
            expected: String::from_str("1"),
            prefix: String::from_str("IP forwarding is not enabled (value: "),
            suffix: String::from_str(")"),
        },
    );
    assert(s2@ == want[2]);
    push_step(&mut plan, s2);
    let s3 = Step::host(
        "iptables",
        &[
            "-t",
            "nat",
            "-A",
            "POSTROUTING",
            "-s",
            subnet,
            "!",
            "-o",
            bridge_name,
            "-j",
            "MASQUERADE",
        ],
        rule_policy("Failed to setup NAT", "Failed to setup MASQUERADE: "),
    );
    assert(s3@.action->command.args =~= want[3].action->command.args);
    assert(s3@ == want[3]);
    push_step(&mut plan, s3);
    let s4 = Step::host(
        "iptables",
        &["-I", "FORWARD", "1", "-i", bridge_name, "-j", "ACCEPT"],
        rule_policy(
            "Failed to add FORWARD rule (incoming)",
            "Failed to add incoming FORWARD rule: ",
        ),
    );
    assert(s4@.action->command.args =~= want[4].action->command.args);
    assert(s4@ == want[4]);
    push_step(&mut plan, s4);
    let s5 = Step::host(
        "iptables",
        &["-I", "FORWARD", "1", "-o", bridge_name, "-j", "ACCEPT"],
        rule_policy(
            "Failed to add FORWARD rule (outgoing)",
            "Failed to add outgoing FORWARD rule: ",
        ),
    );
    assert(s5@.action->command.args =~= want[5].action->command.args);
    assert(s5@ == want[5]);
    push_step(&mut plan, s5);
    let s6 = Step::host(
        "iptables",
        &["-t", "nat", "-L", "POSTROUTING", "-n"],
        Policy::Shown {
            failure: Failure::network("Failed to list POSTROUTING rules"),
            needles: crate::text::strings_of(&["MASQUERADE", subnet]),
            message: String::from_str("MASQUERADE rule verification failed"),
        },
    );
    assert(s6@.action->command.args =~= want[6].action->command.args);
    assert(s6@.policy->Shown_needles =~= seq!["MASQUERADE"@, subnet@]);
    assert(s6@ == want[6]);
    push_step(&mut plan, s6);
    let s7 = hairpin(
        "-A",
        subnet,
        rule_policy("Failed to add localhost MASQUERADE", "Failed to add localhost MASQUERADE: "),
    );
    assert(s7@ == want[7]);
    push_step(&mut plan, s7);
    assert(views(plan@) =~= want);
    plan
}

/// Plans the removal of the acceptance of traffic through `bridge_name`.
pub fn cleanup_nat(bridge_name: &str) -> (plan: Vec<Step>)
    ensures
        views(plan@) == nat_cleanup(bridge_name@),
{
    let ghost want = nat_cleanup(bridge_name@);
    let mut plan: Vec<Step> = Vec::new();
    let s0 = Step::host(
        "iptables",
        &["-D", "FORWARD", "-i", bridge_name, "-j", "ACCEPT"],
        Policy::Ignore,
    );
    assert(s0@.action->command.args =~= want[0].action->command.args);
    push_step(&mut plan, s0);
    let s1 = Step::host(
        "iptables",
        &["-D", "FORWARD", "-o", bridge_name, "-j", "ACCEPT"],
        Policy::Ignore,
    );
    assert(s1@.action->command.args =~= want[1].action->command.args);
    push_step(&mut plan, s1);
    assert(views(plan@) =~= want);
    plan
}

/// Plans the two writes that let packets for 127.0.0.1 reach containers
/// behind `bridge_name`.
pub fn enable_localhost_routing(bridge_name: &str) -> (plan: Vec<Step>)
    ensures
        views(plan@) == localhost_routing(bridge_name@),
{
    let ghost want = localhost_routing(bridge_name@);
    let mut plan: Vec<Step> = Vec::new();
    let s0 = Step::write(
        String::from_str("/proc/sys/net/ipv4/conf/all/route_localnet"),
        "1",
        Policy::required("Failed to enable route_localnet for all"),
    );
    proof {
        reveal_strlit("/proc/sys/net/ipv4/conf/all/route_localnet");
        reveal_strlit("/proc/sys/net/ipv4/conf/");
        reveal_strlit("all");
        reveal_strlit("/route_localnet");
        assert("/proc/sys/net/ipv4/conf/all/route_localnet"@ =~= localnet_switch("all"@));
    }
    push_step(&mut plan, s0);
    let mut path = String::from_str("/proc/sys/net/ipv4/conf/");
    path.append(bridge_name);
    path.append("/route_localnet");
    let mut message = String::from_str("Failed to enable route_localnet for ");
    message.append(bridge_name);
    let s1 = Step::write(path, "1", Policy::required(message.as_str()));
    push_step(&mut plan, s1);
    assert(views(plan@) =~= want);
    plan
}

/// The text of where a published port leads.
fn destination_string(container_ip: u32, container_port: u16) -> (s: String)
    ensures
        s@ == destination(container_ip, container_port),
{
    let mut s = ipv4_string(container_ip);
    s.append(":");
    let port = decimal_string(container_port as u64);
    s.append(port.as_str());
    s
}

/// Plans the three rules that publish one port of a container.
pub fn add_port_forward(
    host_port: u16,
    container_ip: u32,
    container_port: u16,
    protocol: Protocol,
) -> (plan: Vec<Step>)
    ensures
        views(plan@) == port_forward(host_port, container_ip, container_port, protocol),
{
    let ghost want = port_forward(host_port, container_ip, container_port, protocol);
    let proto = protocol.name();
    let port = decimal_string(host_port as u64);
    let to = destination_string(container_ip, container_port);
    let address = ipv4_string(container_ip);
    let mut plan: Vec<Step> = Vec::new();
    let s0 = Step::host(
        "iptables",
        &[
            "-t",
            "nat",
            "-I",
            "PREROUTING",
            "1",
            "-p",
            proto,
            "--dport",
            port.as_str(),
            "-j",
            "DNAT",
            "--to-destination",
            to.as_str(),
        ],
        rule_policy("Failed to add PREROUTING DNAT", "Failed to add port forward: "),
    );
    assert(s0@.action->command.args =~= want[0].action->command.args);
    push_step(&mut plan, s0);
    let s1 = Step::host(
        "iptables",
        &[
            "-t",
            "nat",
            "-I",
            "OUTPUT",
            "1",
            "-p",
            proto,
            "-d",
            "127.0.0.1",
            "--dport",
            port.as_str(),
            "-j",
            "DNAT",
            "--to-destination",
            to.as_str(),
        ],
        rule_policy("Failed to add OUTPUT DNAT", "Failed to add OUTPUT DNAT (localhost): "),
    );
    assert(s1@.action->command.args =~= want[1].action->command.args);
    push_step(&mut plan, s1);
    let s2 = Step::host(
        "iptables",
        &[
            "-I",
            "FORWARD",
            "1",
            "-p",
            proto,
            "-d",
            address.as_str(),
            "--dport",
            port.as_str(),
            "-j",
            "ACCEPT",
        ],
        rule_policy("Failed to add FORWARD rule", "Failed to add FORWARD rule: "),
    );
    assert(s2@.action->command.args =~= want[2].action->command.args);
    push_step(&mut plan, s2);
    assert(views(plan@) =~= want);
    plan
}

/// Plans the removal of the three rules that publish one port of a container.
pub fn remove_port_forward(
    host_port: u16,
    container_ip: u32,
    container_port: u16,
    protocol: Protocol,
) -> (plan: Vec<Step>)
    ensures
        views(plan@) == port_forward_removal(host_port, container_ip, container_port, protocol),
{
    let ghost want = port_forward_removal(host_port, container_ip, container_port, protocol);
    let proto = protocol.name();
    let port = decimal_string(host_port as u64);
    let to = destination_string(container_ip, container_port);
    let address = ipv4_string(container_ip);
    let mut plan: Vec<Step> = Vec::new();
    let s0 = Step::host(
        "iptables",
        &[
            "-t",
            "nat",
            "-D",
            "PREROUTING",
            "-p",
            proto,
            "--dport",
            port.as_str(),
            "-j",
            "DNAT",
            "--to-destination",
            to.as_str(),
        ],
        Policy::checked("Failed to add port forward", "Failed to add port forward: ", &[]),
    );
    assert(s0@.action->command.args =~= want[0].action->command.args);
    assert(s0@.policy->Checked_tolerated =~= seq![]);
    push_step(&mut plan, s0);
    let s1 = Step::host(
        "iptables",
        &[
            "-t",
            "nat",
            "-D",
            "OUTPUT",
            "-p",
            proto,
            "-d",
            "127.0.0.1",
            "--dport",
            port.as_str(),
            "-j",
            "DNAT",
            "--to-destination",
            to.as_str(),
        ],
        Policy::Ignore,
    );
    assert(s1@.action->command.args =~= want[1].action->command.args);
    push_step(&mut plan, s1);
    let s2 = Step::host(
        "iptables",
        &[
            "-D",
            "FORWARD",
            "-p",
            proto,
            "-d",
            address.as_str(),
            "--dport",
            port.as_str(),
            "-j",
            "ACCEPT",
        ],
        Policy::Ignore,
    );
    assert(s2@.action->command.args =~= want[2].action->command.args);
    push_step(&mut plan, s2);
    assert(views(plan@) =~= want);
    plan
}

} // verus!
