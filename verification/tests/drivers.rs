use corerun::command::{Action, Condition, Failure, HostCommand, Outcome, Policy, Report, Scope, Step};
use corerun::error::ContainerError;
use corerun::network::bridge::Bridge;
use corerun::network::iptables::{
    add_port_forward, cleanup_nat, enable_localhost_routing, remove_port_forward, setup_nat,
};
use corerun::network::network_namespace::NetworkNamespace;
use corerun::network::subnet::ipv4;
use corerun::network::veth::{create_veth_pair, delete_veth, move_to_namespace};
use corerun::network::Protocol;

fn words(step: &Step) -> Vec<String> {
    match &step.action {
        Action::Run { command } => {
            let mut w = vec![command.program.clone()];
            w.extend(command.args.iter().cloned());
            w
        }
        other => panic!("not a command: {:?}", other),
    }
}

fn line(step: &Step) -> String {
    words(step).join(" ")
}

fn run(program: &str, args: &[&str], policy: Policy) -> Step {
    Step {
        action: Action::Run { command: HostCommand::new(program, args) },
        scope: Scope::Host,
        policy,
        condition: Condition::Always,
    }
}

#[test]
fn a_bridge_is_made_only_where_it_is_missing() {
    let b = Bridge::new("corerun0").unwrap();
    assert_eq!(b.name, "corerun0");
    let plan = b.create();
    assert_eq!(plan.len(), 2);
    assert_eq!(plan[0], run("ip", &["link", "show", "corerun0"], Policy::required("Failed to check bridge existence")));
    assert_eq!(
        plan[1],
        Step {
            condition: Condition::AfterRefusal,
            ..run(
                "ip",
                &["link", "add", "name", "corerun0", "type", "bridge"],
                Policy::checked("Failed to create bridge", "Failed to create bridge: ", &[]),
            )
        }
    );
    assert_eq!(b.probe(), plan[0]);
}

#[test]
fn the_probe_is_read_by_its_exit() {
    let there = Outcome::Done { success: true, stdout: String::new(), stderr: String::new() };
    let gone = Outcome::Done { success: false, stdout: String::new(), stderr: String::new() };
    let failed = Outcome::Failed { reason: "x".to_string(), missing: false };
    assert_eq!(Bridge::found(&there), Ok(true));
    assert_eq!(Bridge::found(&gone), Ok(false));
    assert_eq!(
        Bridge::found(&failed),
        Err(ContainerError::Network { message: "Failed to check bridge existence".to_string() })
    );
}

#[test]
fn bridge_steps() {
    let b = Bridge::new("corerun0").unwrap();
    assert_eq!(line(&b.delete()), "ip link delete corerun0");
    assert_eq!(line(&b.up()), "ip link set corerun0 up");
    let set = b.set_ip(ipv4(172, 18, 0, 1), 16);
    assert_eq!(line(&set), "ip addr add 172.18.0.1/16 dev corerun0");
    assert_eq!(
        set.policy,
        Policy::checked("Failed to set bridge IP", "Failed to set bridge IP: ", &["File exists"])
    );
    let attach = b.attach_interface("veth1234567");
    assert_eq!(attach.len(), 2);
    assert_eq!(line(&attach[0]), "ip link set veth1234567 master corerun0");
    assert_eq!(line(&attach[1]), "ip link set veth1234567 up");
}

#[test]
fn veth_steps() {
    assert_eq!(
        line(&create_veth_pair("veth1", "vethc1")),
        "ip link add veth1 type veth peer name vethc1"
    );
    assert_eq!(line(&move_to_namespace("vethc1", 4242)), "ip link set vethc1 netns 4242");
    let delete = delete_veth("veth1");
    assert_eq!(line(&delete), "ip link delete veth1");
    let gone = Outcome::Done {
        success: false,
        stdout: String::new(),
        stderr: "Cannot find device \"veth1\"".to_string(),
    };
    assert_eq!(delete.judge(&Report::Performed { outcome: gone, restored: true }), Ok(()));
}

#[test]
fn steps_inside_the_namespace() {
    let ns = NetworkNamespace::from_pid(4242).unwrap();
    assert_eq!(ns.pid(), 4242);
    assert_eq!(ns.path(), "/proc/4242/ns/net");
    assert_eq!(NetworkNamespace::current_path(), "/proc/self/ns/net");
    let lo = ns.setup_loopback();
    assert_eq!(lo.scope, Scope::Namespace { pid: 4242 });
    assert_eq!(line(&lo), "ip link set lo up");
    let configure = ns.configure_interface("eth0", ipv4(172, 18, 0, 2), 16);
    assert_eq!(configure.len(), 2);
    assert_eq!(line(&configure[0]), "ip addr add 172.18.0.2/16 dev eth0");
    assert_eq!(line(&configure[1]), "ip link set eth0 up");
    assert!(configure.iter().all(|s| s.scope == Scope::Namespace { pid: 4242 }));
    assert_eq!(
        line(&ns.add_default_route("eth0", ipv4(172, 18, 0, 1))),
        "ip route add default via 172.18.0.1 dev eth0"
    );
    let rename = ns.rename_interface("vethc1", "eth0");
    assert_eq!(line(&rename), "ip link set vethc1 name eth0");
    assert_eq!(rename.policy, Policy::Ignore);
}

#[test]
fn a_visit_hands_on_what_the_work_came_to() {
    let ns = NetworkNamespace::from_pid(1).unwrap();
    let ok = Report::Performed {
        outcome: Outcome::Done { success: true, stdout: String::new(), stderr: String::new() },
        restored: true,
    };
    assert_eq!(ns.enter(&ok, Ok(5)), Ok(5));
    let inner: Result<u8, ContainerError> = Err(ContainerError::Network { message: "in".to_string() });
    assert_eq!(ns.enter(&ok, inner.clone()), inner);
    assert_eq!(
        ns.enter(&Report::TargetUnavailable { pid: 1 }, Ok(5)),
        Err(ContainerError::Network { message: "Failed to open namespace for PID 1".to_string() })
    );
}

fn rule(message: &str, prefix: &str) -> Policy {
    Policy::checked(message, prefix, &["already exists", "Duplicate"])
}

#[test]
fn nat_is_set_up_in_eight_steps() {
    let plan = setup_nat("corerun0", "172.18.0.0/16");
    assert_eq!(plan.len(), 8);
    assert_eq!(
        plan[0].action,
        Action::Write { path: "/proc/sys/net/ipv4/ip_forward".to_string(), content: "1".to_string() }
    );
    assert_eq!(plan[0].policy, Policy::Ignore);
    assert_eq!(line(&plan[1]), "sysctl -w net.ipv4.ip_forward=1");
    assert_eq!(plan[1].condition, Condition::AfterFailure);
    assert_eq!(
        plan[1].policy,
        Policy::checked("Failed to enable IP forwarding", "Failed to enable IP forwarding: ", &[])
    );
    assert_eq!(plan[2].action, Action::Read { path: "/proc/sys/net/ipv4/ip_forward".to_string() });
    assert_eq!(
        line(&plan[3]),
        "iptables -t nat -A POSTROUTING -s 172.18.0.0/16 ! -o corerun0 -j MASQUERADE"
    );
    assert_eq!(plan[3].policy, rule("Failed to setup NAT", "Failed to setup MASQUERADE: "));
    assert_eq!(line(&plan[4]), "iptables -I FORWARD 1 -i corerun0 -j ACCEPT");
    assert_eq!(
        plan[4].policy,
        rule("Failed to add FORWARD rule (incoming)", "Failed to add incoming FORWARD rule: ")
    );
    assert_eq!(line(&plan[5]), "iptables -I FORWARD 1 -o corerun0 -j ACCEPT");
    assert_eq!(
        plan[5].policy,
        rule("Failed to add FORWARD rule (outgoing)", "Failed to add outgoing FORWARD rule: ")
    );
    assert_eq!(line(&plan[6]), "iptables -t nat -L POSTROUTING -n");
    assert_eq!(
        plan[6].policy,
        Policy::Shown {
            failure: Failure::network("Failed to list POSTROUTING rules"),
            needles: vec!["MASQUERADE".to_string(), "172.18.0.0/16".to_string()],
            message: "MASQUERADE rule verification failed".to_string(),
        }
    );
    assert_eq!(
        line(&plan[7]),
        "iptables -t nat -A POSTROUTING -s 127.0.0.1 -d 172.18.0.0/16 -j MASQUERADE"
    );
    assert_eq!(
        plan[7].policy,
        rule("Failed to add localhost MASQUERADE", "Failed to add localhost MASQUERADE: ")
    );
}

fn refused(stderr: &str) -> Report {
    Report::Performed {
        outcome: Outcome::Done { success: false, stdout: String::new(), stderr: stderr.to_string() },
        restored: true,
    }
}

#[test]
fn only_a_rule_that_is_there_already_is_tolerated() {
    let mut steps = setup_nat("corerun0", "172.18.0.0/16");
    let nat: Vec<Step> = vec![steps.remove(7), steps.remove(5), steps.remove(4), steps.remove(3)];
    let ports = add_port_forward(18080, ipv4(172, 18, 0, 2), 80, Protocol::TCP);
    for step in nat.iter().chain(ports.iter()) {
        assert_eq!(step.judge(&refused("iptables: Duplicate rule")), Ok(()), "{}", line(step));
        assert_eq!(step.judge(&refused("Chain already exists.")), Ok(()), "{}", line(step));
        let e = step.judge(&refused("iptables: Permission denied")).unwrap_err();
        assert_eq!(e.kind(), corerun::error::ErrorKind::Network, "{}", line(step));
        assert!(e.message().ends_with(": iptables: Permission denied"), "{}", e.message());
        let missing = Report::Performed {
            outcome: Outcome::Failed { reason: "no iptables".to_string(), missing: true },
            restored: true,
        };
        assert_eq!(step.judge(&missing).unwrap_err().kind(), corerun::error::ErrorKind::Network);
    }
}

#[test]
fn every_failure_of_the_nat_setup_is_a_network_error() {
    let steps = setup_nat("corerun0", "172.18.0.0/16");
    let failed = Report::Performed {
        outcome: Outcome::Failed { reason: "x".to_string(), missing: false },
        restored: true,
    };
    for (i, step) in steps.iter().enumerate() {
        for report in [&failed, &refused("bad")] {
            if let Err(e) = step.judge(report) {
                assert_eq!(e.kind(), corerun::error::ErrorKind::Network, "step {}", i);
            }
        }
    }
    assert_eq!(steps[0].judge(&failed), Ok(()));
    assert!(steps[1].judge(&refused("bad")).is_err());
    assert!(steps[2].judge(&failed).is_err());
}

#[test]
fn a_duplicate_masquerade_rule_is_tolerated() {
    let plan = setup_nat("corerun0", "172.18.0.0/16");
    let duplicate = Outcome::Done {
        success: false,
        stdout: String::new(),
        stderr: "iptables: Duplicate rule".to_string(),
    };
    assert_eq!(plan[3].judge(&Report::Performed { outcome: duplicate, restored: true }), Ok(()));
}

#[test]
fn nat_cleanup_and_localhost_routing() {
    let plan = cleanup_nat("corerun0");
    assert_eq!(plan.len(), 2);
    assert_eq!(line(&plan[0]), "iptables -D FORWARD -i corerun0 -j ACCEPT");
    assert_eq!(line(&plan[1]), "iptables -D FORWARD -o corerun0 -j ACCEPT");
    let routing = enable_localhost_routing("corerun0");
    assert_eq!(routing.len(), 2);
    assert_eq!(
        routing[0].action,
        Action::Write {
            path: "/proc/sys/net/ipv4/conf/all/route_localnet".to_string(),
            content: "1".to_string()
        }
    );
    assert_eq!(
        routing[1].action,
        Action::Write {
            path: "/proc/sys/net/ipv4/conf/corerun0/route_localnet".to_string(),
            content: "1".to_string()
        }
    );
    assert_eq!(routing[1].policy, Policy::required("Failed to enable route_localnet for corerun0"));
}

#[test]
fn a_published_port_makes_three_rules() {
    let plan = add_port_forward(18080, ipv4(172, 18, 0, 2), 80, Protocol::TCP);
    assert_eq!(plan.len(), 3);
    assert_eq!(
        line(&plan[0]),
        "iptables -t nat -I PREROUTING 1 -p tcp --dport 18080 -j DNAT --to-destination 172.18.0.2:80"
    );
    assert_eq!(
        line(&plan[1]),
        "iptables -t nat -I OUTPUT 1 -p tcp -d 127.0.0.1 --dport 18080 -j DNAT --to-destination 172.18.0.2:80"
    );
    assert_eq!(line(&plan[2]), "iptables -I FORWARD 1 -p tcp -d 172.18.0.2 --dport 18080 -j ACCEPT");
    assert_eq!(
        plan[0].policy,
        rule("Failed to add PREROUTING DNAT", "Failed to add port forward: ")
    );
    assert_eq!(
        plan[1].policy,
        rule("Failed to add OUTPUT DNAT", "Failed to add OUTPUT DNAT (localhost): ")
    );
    assert_eq!(plan[2].policy, rule("Failed to add FORWARD rule", "Failed to add FORWARD rule: "));
}

#[test]
fn the_removal_mirrors_the_publication() {
    let add = add_port_forward(53, ipv4(172, 18, 0, 9), 5353, Protocol::UDP);
    let remove = remove_port_forward(53, ipv4(172, 18, 0, 9), 5353, Protocol::UDP);
    assert_eq!(add.len(), remove.len());
    for (a, r) in add.iter().zip(remove.iter()) {
        let inserted: Vec<String> =
            words(a).into_iter().filter(|w| w != "-I" && w != "1").collect();
        let deleted: Vec<String> = words(r).into_iter().filter(|w| w != "-D").collect();
        assert_eq!(inserted, deleted);
        assert!(words(r).contains(&"-D".to_string()));
    }
    assert_eq!(
        line(&remove[0]),
        "iptables -t nat -D PREROUTING -p udp --dport 53 -j DNAT --to-destination 172.18.0.9:5353"
    );
}
