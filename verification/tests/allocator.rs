use corerun::command::Outcome;
use corerun::error::ContainerError;
use corerun::network::allocator::IpAllocator;
use corerun::network::subnet::{ipv4, Subnet};

fn default_allocator() -> IpAllocator {
    IpAllocator::new(Subnet::new(ipv4(172, 18, 0, 0), 16).unwrap()).unwrap()
}

#[test]
fn hands_out_the_lowest_free_address() {
    let mut a = default_allocator();
    assert_eq!(a.allocate(&vec![]), Ok(ipv4(172, 18, 0, 2)));
    assert_eq!(a.allocate(&vec![]), Ok(ipv4(172, 18, 0, 3)));
    assert!(a.is_allocated(ipv4(172, 18, 0, 2)));
    assert_eq!(a.allocated_count(), 2);
}

#[test]
fn never_the_network_address_nor_the_gateway() {
    let mut a = default_allocator();
    for _ in 0..300 {
        let ip = a.allocate(&vec![]).unwrap();
        assert!(ip != ipv4(172, 18, 0, 0));
        assert!(ip != ipv4(172, 18, 0, 1));
        assert!(ip > ipv4(172, 18, 0, 1) && ip <= ipv4(172, 18, 255, 255));
    }
}

#[test]
fn two_containers_get_different_addresses() {
    let mut a = default_allocator();
    let first = a.allocate(&vec![false; 20]).unwrap();
    let second = a.allocate(&vec![false; 20]).unwrap();
    assert_ne!(first, second);
}

#[test]
fn a_released_address_is_handed_out_again() {
    let mut a = default_allocator();
    let first = a.allocate(&vec![]).unwrap();
    let second = a.allocate(&vec![]).unwrap();
    a.release(first);
    assert!(!a.is_allocated(first));
    assert!(a.is_allocated(second));
    assert_eq!(a.allocate(&vec![]), Ok(first));
}

#[test]
fn releasing_what_is_not_held_changes_nothing() {
    let mut a = default_allocator();
    a.release(ipv4(172, 18, 0, 9));
    assert_eq!(a.allocated_count(), 0);
    assert_eq!(a.allocate(&vec![]), Ok(ipv4(172, 18, 0, 2)));
}

#[test]
fn addresses_that_answer_are_passed_over() {
    let mut a = default_allocator();
    let mut answered = vec![false; 20];
    answered[0] = true;
    answered[1] = true;
    answered[3] = true;
    assert_eq!(a.allocate(&answered), Ok(ipv4(172, 18, 0, 4)));
    assert!(a.is_allocated(ipv4(172, 18, 0, 2)));
    assert!(a.is_allocated(ipv4(172, 18, 0, 5)));
    assert_eq!(a.allocated_count(), 4);
}

#[test]
fn only_the_first_twenty_are_probed() {
    let a = default_allocator();
    let targets = a.scan_targets();
    assert_eq!(targets.len(), 20);
    assert_eq!(targets[0], ipv4(172, 18, 0, 2));
    assert_eq!(targets[19], ipv4(172, 18, 0, 21));
    let mut b = default_allocator();
    b.scan_existing_ips(&vec![true; 25]);
    assert_eq!(b.allocated_count(), 20);
    assert_eq!(b.allocate(&vec![]), Ok(ipv4(172, 18, 0, 22)));
}

#[test]
fn a_small_subnet_runs_out() {
    let mut a = IpAllocator::new(Subnet::new(ipv4(10, 0, 0, 0), 30).unwrap()).unwrap();
    assert_eq!(a.scan_targets(), vec![ipv4(10, 0, 0, 2), ipv4(10, 0, 0, 3)]);
    assert_eq!(a.allocate(&vec![]), Ok(ipv4(10, 0, 0, 2)));
    assert_eq!(a.allocate(&vec![]), Ok(ipv4(10, 0, 0, 3)));
    assert_eq!(
        a.allocate(&vec![]),
        Err(ContainerError::Network { message: "No available IPs in subnet".to_string() })
    );
}

#[test]
fn a_subnet_of_one_or_two_has_no_host() {
    let mut a = IpAllocator::new(Subnet::new(ipv4(10, 0, 0, 0), 31).unwrap()).unwrap();
    assert!(a.scan_targets().is_empty());
    assert!(a.allocate(&vec![true]).is_err());
}

#[test]
fn an_invalid_subnet_is_refused() {
    assert_eq!(
        IpAllocator::new(Subnet { addr: 0, prefix: 40 }).err(),
        Some(ContainerError::Network { message: "Invalid subnet".to_string() })
    );
}

#[test]
fn the_probe_is_one_echo_request() {
    let c = IpAllocator::probe(ipv4(172, 18, 0, 2));
    assert_eq!(c.program, "ping");
    assert_eq!(c.args, vec!["-c", "1", "-W", "1", "172.18.0.2"]);
}

#[test]
fn only_a_successful_probe_counts_as_an_answer() {
    let ok = Outcome::Done { success: true, stdout: String::new(), stderr: String::new() };
    let no = Outcome::Done { success: false, stdout: String::new(), stderr: String::new() };
    let failed = Outcome::Failed { reason: "no ping".to_string(), missing: true };
    assert!(IpAllocator::answered(&ok));
    assert!(!IpAllocator::answered(&no));
    assert!(!IpAllocator::answered(&failed));
}
