use corerun::cli::{parse_args, CliValues};
use corerun::command::{Action, Policy, Scope, Step};
use corerun::error::ContainerError;
use corerun::network::net_manager::{bridge_name_for, NetworkManager};
use corerun::network::subnet::{ipv4, Subnet};
use corerun::network::{ContainerNetwork, NetworkMode, PortMapping, Protocol};
use corerun::setup::setup_container_network::{probed_network, scan_plan};
use corerun::setup::{cleanup_container_network, setup_container_network_parent};

const ID: &str = "container-4242-1700000000";
const OTHER: &str = "container-977-1700000001";

fn line(step: &Step) -> String {
    match &step.action {
        Action::Run { command } => {
            let mut w = vec![command.program.clone()];
            w.extend(command.args.iter().cloned());
            w.join(" ")
        }
        other => format!("{:?}", other),
    }
}

fn lines(plan: &[Step]) -> Vec<String> {
    plan.iter().map(line).collect()
}

fn bridge() -> NetworkMode {
    NetworkMode::Bridge { network_name: "bridge".to_string() }
}

fn web() -> Vec<PortMapping> {
    vec![PortMapping { host_port: 18080, container_port: 80, protocol: Protocol::TCP }]
}

fn manager() -> NetworkManager {
    NetworkManager::new().unwrap().0
}

fn network(message: &str) -> ContainerError {
    ContainerError::Network { message: message.to_string() }
}

#[test]
fn the_default_network_is_there_from_the_start() {
    let (m, plan) = NetworkManager::new().unwrap();
    assert!(m.has_network("bridge"));
    assert_eq!(m.gateway_of("bridge"), Some(ipv4(172, 18, 0, 1)));
    assert_eq!(m.container_network(ID), None);
    let l = lines(&plan);
    assert_eq!(l.len(), 14);
    assert_eq!(l[0], "ip link show corerun0");
    assert_eq!(l[1], "ip link add name corerun0 type bridge");
    assert_eq!(l[2], "ip addr add 172.18.0.1/16 dev corerun0");
    assert_eq!(l[3], "ip link set corerun0 up");
    assert_eq!(
        plan[5].action,
        Action::Write {
            path: "/proc/sys/net/ipv4/conf/corerun0/route_localnet".to_string(),
            content: "1".to_string()
        }
    );
    assert_eq!(l[9], "iptables -t nat -A POSTROUTING -s 172.18.0.0/16 ! -o corerun0 -j MASQUERADE");
}

#[test]
fn bridge_devices_are_named_after_their_network() {
    assert_eq!(bridge_name_for("bridge"), "corerun0");
    assert_eq!(bridge_name_for("web"), "cr-web");
    assert_eq!(bridge_name_for("backend-network"), "cr-backend-");
    assert_eq!(bridge_name_for("12345678"), "cr-12345678");
}

#[test]
fn a_second_network() {
    let mut m = manager();
    let plan = m.create_network("web", "10.9.0.0/24").unwrap();
    assert!(m.has_network("web"));
    assert_eq!(m.gateway_of("web"), Some(ipv4(10, 9, 0, 1)));
    let l = lines(&plan);
    assert_eq!(l[0], "ip link show cr-web");
    assert_eq!(l[2], "ip addr add 10.9.0.1/24 dev cr-web");
    assert_eq!(l[9], "iptables -t nat -A POSTROUTING -s 10.9.0.0/24 ! -o cr-web -j MASQUERADE");
}

#[test]
fn networks_that_cannot_be_made() {
    let mut m = manager();
    assert_eq!(m.create_network("web", "nonsense").err(), Some(network("Invalid subnet")));
    assert_eq!(m.create_network("web", "10.0.0.1/32").err(), Some(network("Invalid subnet")));
    assert_eq!(
        m.create_network("bridge", "10.0.0.0/8").err(),
        Some(network("Network already exists: bridge"))
    );
    assert_eq!(
        m.create_network_with("x", Subnet { addr: 0, prefix: 99 }).err(),
        Some(network("Invalid subnet"))
    );
    assert!(!m.has_network("web"));
    assert_eq!(m.gateway_of("bridge"), Some(ipv4(172, 18, 0, 1)));
}

#[test]
fn a_container_on_the_bridge() {
    let mut m = manager();
    let setup = m.setup_container_network(ID, 4242, bridge(), web(), &vec![false; 20]).unwrap();
    assert_eq!(
        setup.network,
        ContainerNetwork {
            mode: bridge(),
            ip_address: Some(ipv4(172, 18, 0, 2)),
            gateway: Some(ipv4(172, 18, 0, 1)),
            veth_host: Some("veth4242-17".to_string()),
            veth_container: Some("vethc4242-17".to_string()),
            ports: web(),
        }
    );
    assert_eq!(
        lines(&setup.plan),
        vec![
            "ip link add veth4242-17 type veth peer name vethc4242-17",
            "ip link set veth4242-17 master corerun0",
            "ip link set veth4242-17 up",
            "ip link set vethc4242-17 netns 4242",
            "ip link set lo up",
            "ip link set vethc4242-17 name eth0",
            "ip addr add 172.18.0.2/16 dev eth0",
            "ip link set eth0 up",
            "ip route add default via 172.18.0.1 dev eth0",
            "iptables -t nat -I PREROUTING 1 -p tcp --dport 18080 -j DNAT --to-destination 172.18.0.2:80",
            "iptables -t nat -I OUTPUT 1 -p tcp -d 127.0.0.1 --dport 18080 -j DNAT --to-destination 172.18.0.2:80",
            "iptables -I FORWARD 1 -p tcp -d 172.18.0.2 --dport 18080 -j ACCEPT",
        ]
    );
    for (i, step) in setup.plan.iter().enumerate() {
        let inside = (4..9).contains(&i);
        assert_eq!(step.scope == Scope::Namespace { pid: 4242 }, inside, "step {}", i);
    }
    assert_eq!(setup.plan[5].policy, Policy::Ignore);
    assert_eq!(m.container_network(ID), Some(setup.network));
    assert!(m.holds("bridge", ipv4(172, 18, 0, 2)));
}

#[test]
fn every_port_has_its_rules_and_cleanup_takes_them_back() {
    let mut m = manager();
    let ports = vec![
        PortMapping { host_port: 18080, container_port: 80, protocol: Protocol::TCP },
        PortMapping { host_port: 5353, container_port: 53, protocol: Protocol::UDP },
    ];
    let setup = m.setup_container_network(ID, 1, bridge(), ports, &vec![]).unwrap();
    let added = lines(&setup.plan);
    let pre: Vec<&String> =
        added.iter().filter(|l| l.contains("-I PREROUTING") && l.contains("172.18.0.2:")).collect();
    let out: Vec<&String> =
        added.iter().filter(|l| l.contains("-I OUTPUT") && l.contains("172.18.0.2:")).collect();
    assert_eq!(pre.len(), 2);
    assert_eq!(out.len(), 2);
    let removed = lines(&m.cleanup_container_network(ID));
    for l in pre.iter().chain(out.iter()) {
        let deleted = l.replace("-I PREROUTING 1", "-D PREROUTING").replace("-I OUTPUT 1", "-D OUTPUT");
        assert_eq!(removed.iter().filter(|r| **r == deleted).count(), 1, "{}", deleted);
    }
    assert_eq!(removed.iter().filter(|l| l.contains("-D PREROUTING")).count(), 2);
    assert_eq!(removed.iter().filter(|l| l.contains("-D OUTPUT")).count(), 2);
    assert_eq!(removed.last().unwrap(), "ip link delete veth4242-17");
}

#[test]
fn two_containers_on_one_bridge() {
    let mut m = manager();
    let a = m.setup_container_network(ID, 1, bridge(), vec![], &vec![]).unwrap();
    let b = m.setup_container_network(OTHER, 2, bridge(), vec![], &vec![]).unwrap();
    assert_eq!(a.network.ip_address, Some(ipv4(172, 18, 0, 2)));
    assert_eq!(b.network.ip_address, Some(ipv4(172, 18, 0, 3)));
    assert_eq!(a.network.gateway, b.network.gateway);
    assert_ne!(a.network.veth_host, b.network.veth_host);
}

#[test]
fn cleanup_frees_the_address() {
    let mut m = manager();
    m.setup_container_network(ID, 1, bridge(), web(), &vec![]).unwrap();
    let plan = m.cleanup_container_network(ID);
    assert_eq!(
        lines(&plan),
        vec![
            "iptables -t nat -D PREROUTING -p tcp --dport 18080 -j DNAT --to-destination 172.18.0.2:80",
            "iptables -t nat -D OUTPUT -p tcp -d 127.0.0.1 --dport 18080 -j DNAT --to-destination 172.18.0.2:80",
            "iptables -D FORWARD -p tcp -d 172.18.0.2 --dport 18080 -j ACCEPT",
            "ip link delete veth4242-17",
        ]
    );
    assert!(plan.iter().all(|s| s.policy == Policy::Ignore));
    assert_eq!(m.container_network(ID), None);
    assert!(!m.holds("bridge", ipv4(172, 18, 0, 2)));
    let again = m.setup_container_network(OTHER, 2, bridge(), vec![], &vec![]).unwrap();
    assert_eq!(again.network.ip_address, Some(ipv4(172, 18, 0, 2)));
}

#[test]
fn cleaning_up_twice_is_cleaning_up_once() {
    let mut m = manager();
    m.setup_container_network(ID, 1, bridge(), web(), &vec![]).unwrap();
    m.setup_container_network(OTHER, 2, bridge(), vec![], &vec![]).unwrap();
    assert!(!m.cleanup_container_network(ID).is_empty());
    assert!(m.cleanup_container_network(ID).is_empty());
    assert!(m.cleanup_container_network("never-seen").is_empty());
    assert!(m.holds("bridge", ipv4(172, 18, 0, 3)));
    assert!(m.container_network(OTHER).is_some());
}

#[test]
fn the_host_network_needs_nothing() {
    let mut m = manager();
    let setup = m.setup_container_network(ID, 1, NetworkMode::Host, web(), &vec![]).unwrap();
    assert!(setup.plan.is_empty());
    assert_eq!(setup.network, ContainerNetwork::plain(NetworkMode::Host));
    assert_eq!(setup.network.ip_address, None);
    assert!(setup.network.ports.is_empty());
    assert!(m.cleanup_container_network(ID).is_empty());
}

#[test]
fn no_network_means_loopback_only() {
    let mut m = manager();
    let setup = m.setup_container_network(ID, 77, NetworkMode::Disabled, web(), &vec![]).unwrap();
    assert_eq!(lines(&setup.plan), vec!["ip link set lo up"]);
    assert_eq!(setup.plan[0].scope, Scope::Namespace { pid: 77 });
    assert_eq!(setup.network, ContainerNetwork::plain(NetworkMode::Disabled));
    assert!(!lines(&setup.plan).iter().any(|l| l.contains("iptables") || l.contains("corerun0")));
}

#[test]
fn sharing_the_network_of_a_peer() {
    let mut m = manager();
    m.setup_container_network(ID, 1, bridge(), web(), &vec![]).unwrap();
    let mode = NetworkMode::Container { container_id: ID.to_string() };
    let setup = m.setup_container_network(OTHER, 2, mode.clone(), web(), &vec![]).unwrap();
    assert!(setup.plan.is_empty());
    assert_eq!(
        setup.network,
        ContainerNetwork {
            mode,
            ip_address: Some(ipv4(172, 18, 0, 2)),
            gateway: Some(ipv4(172, 18, 0, 1)),
            veth_host: None,
            veth_container: None,
            ports: vec![],
        }
    );
    assert!(m.cleanup_container_network(OTHER).is_empty());
    assert!(m.holds("bridge", ipv4(172, 18, 0, 2)));
}

#[test]
fn setups_that_fail() {
    let mut m = manager();
    let missing = NetworkMode::Container { container_id: "nobody".to_string() };
    assert_eq!(
        m.setup_container_network(ID, 1, missing, vec![], &vec![]).err(),
        Some(network("Container not found: nobody"))
    );
    let unknown = NetworkMode::Bridge { network_name: "web".to_string() };
    assert_eq!(
        m.setup_container_network(ID, 1, unknown, vec![], &vec![]).err(),
        Some(network("Network not found: web"))
    );
    assert_eq!(
        m.setup_container_network("short", 1, bridge(), vec![], &vec![]).err(),
        Some(network("Invalid container id: short"))
    );
    assert_eq!(m.container_network(ID), None);
    assert!(!m.holds("bridge", ipv4(172, 18, 0, 2)));
}

#[test]
fn a_full_network_takes_no_more_containers() {
    let mut m = NetworkManager::empty();
    m.create_network("tiny", "10.0.0.0/30").unwrap();
    let tiny = NetworkMode::Bridge { network_name: "tiny".to_string() };
    assert!(m.setup_container_network(ID, 1, tiny.clone(), vec![], &vec![]).is_ok());
    assert!(m.setup_container_network(OTHER, 2, tiny.clone(), vec![], &vec![true]).is_ok());
    assert_eq!(
        m.setup_container_network("container-3-1700000002", 3, tiny, vec![], &vec![]).err(),
        Some(network("No available IPs in subnet"))
    );
    assert_eq!(m.container_network("container-3-1700000002"), None);
}

fn config(network: &str, ports: &[&str]) -> corerun::cli::ContainerConfig {
    parse_args(CliValues {
        rootfs: "/tmp/rfs".to_string(),
        command: "/bin/sleep".to_string(),
        args: vec!["5".to_string()],
        hostname: None,
        memory: None,
        cpu: None,
        pids: None,
        log: None,
        volumes: vec![],
        network: Some(network.to_string()),
        ports: ports.iter().map(|p| p.to_string()).collect(),
    })
}

#[test]
fn the_supervisor_probes_before_a_bridge_setup() {
    let m = manager();
    let probes = scan_plan(&m, &config("bridge", &[]));
    assert_eq!(probes.len(), 20);
    assert_eq!(probes[0].program, "ping");
    assert_eq!(probes[0].args, vec!["-c", "1", "-W", "1", "172.18.0.2"]);
    assert_eq!(probes[19].args[4], "172.18.0.21");
    assert!(scan_plan(&m, &config("none", &[])).is_empty());
    assert!(scan_plan(&m, &config("host", &[])).is_empty());
    assert_eq!(probed_network(&config("bridge", &[])), Some("bridge".to_string()));
    assert_eq!(probed_network(&config("container:x", &[])), None);
}

#[test]
fn a_published_port_appears_and_disappears() {
    let mut m = manager();
    let c = config("bridge", &["18080:80/tcp"]);
    let plan = setup_container_network_parent(&mut m, ID, 4242, &c, &vec![false; 20]).unwrap();
    let dnat = "iptables -t nat -I PREROUTING 1 -p tcp --dport 18080 -j DNAT --to-destination 172.18.0.2:80";
    assert!(lines(&plan).contains(&dnat.to_string()));
    let cleanup = lines(&cleanup_container_network(&mut m, ID));
    assert!(cleanup.contains(
        &"iptables -t nat -D PREROUTING -p tcp --dport 18080 -j DNAT --to-destination 172.18.0.2:80"
            .to_string()
    ));
    assert_eq!(
        cleanup.last().unwrap(),
        "iptables -t nat -D POSTROUTING -s 127.0.0.1 -d 172.18.0.0/16 -j MASQUERADE"
    );
    assert_eq!(m.container_network(ID), None);
}

#[test]
fn the_supervisor_says_that_the_setup_failed() {
    let mut m = manager();
    let c = config("container:nobody", &[]);
    assert_eq!(
        setup_container_network_parent(&mut m, ID, 1, &c, &vec![]).err(),
        Some(network("Failed to setup network: Network error: Container not found: nobody"))
    );
    let after = lines(&cleanup_container_network(&mut m, ID));
    assert_eq!(after.len(), 1);
}

#[test]
fn a_network_is_deleted_only_when_nobody_is_on_it() {
    let mut m = manager();
    assert_eq!(
        m.delete_network("bridge").err(),
        Some(network("Cannot delete default bridge network"))
    );
    assert_eq!(m.delete_network("unknown"), Ok(vec![]));
    m.create_network("web", "10.9.0.0/24").unwrap();
    let web = NetworkMode::Bridge { network_name: "web".to_string() };
    m.setup_container_network(ID, 1, web, vec![], &vec![]).unwrap();
    assert_eq!(m.delete_network("web").err(), Some(network("Network is in use: web")));
    assert!(m.has_network("web"));
    m.cleanup_container_network(ID);
    let plan = m.delete_network("web").unwrap();
    assert_eq!(
        lines(&plan),
        vec![
            "ip link delete cr-web",
            "iptables -D FORWARD -i cr-web -j ACCEPT",
            "iptables -D FORWARD -o cr-web -j ACCEPT",
        ]
    );
    assert!(!m.has_network("web"));
    assert!(m.has_network("bridge"));
    assert!(m.create_network("web", "10.9.0.0/24").is_ok());
}
