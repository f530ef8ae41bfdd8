use corerun::network::subnet::{ipv4, ipv4_string, Subnet};

#[test]
fn reads_cidr_notation() {
    let n = Subnet::parse("172.18.0.0/16").unwrap();
    assert_eq!(n, Subnet { addr: ipv4(172, 18, 0, 0), prefix: 16 });
    assert_eq!(n.to_string(), "172.18.0.0/16");
}

#[test]
fn keeps_the_address_as_written() {
    let n = Subnet::parse("10.1.9.32/16").unwrap();
    assert_eq!(n.addr, ipv4(10, 1, 9, 32));
    assert_eq!(n.to_string(), "10.1.9.32/16");
    assert_eq!(n.nth(0), Some(ipv4(10, 1, 0, 0)));
}

#[test]
fn rejects_what_is_no_subnet() {
    assert_eq!(Subnet::parse("bridge"), None);
    assert_eq!(Subnet::parse("10.0.0.0/33"), None);
    assert_eq!(Subnet::parse("10.0.0.0/8/8"), None);
    assert_eq!(Subnet::parse(""), None);
}

#[test]
fn a_bare_address_is_a_subnet_of_one() {
    let n = Subnet::parse("10.0.0.7").unwrap();
    assert_eq!(n.prefix, 32);
    assert_eq!(n.size(), 1);
    assert_eq!(n.gateway(), None);
}

#[test]
fn counts_and_positions() {
    let n = Subnet::new(ipv4(172, 18, 0, 0), 16).unwrap();
    assert_eq!(n.size(), 65536);
    assert_eq!(n.gateway(), Some(ipv4(172, 18, 0, 1)));
    assert_eq!(n.nth(2), Some(ipv4(172, 18, 0, 2)));
    assert_eq!(n.nth(256), Some(ipv4(172, 18, 1, 0)));
    assert_eq!(n.nth(65535), Some(ipv4(172, 18, 255, 255)));
    assert_eq!(n.nth(65536), None);
}

#[test]
fn the_widest_subnet() {
    let n = Subnet::new(ipv4(1, 2, 3, 4), 0).unwrap();
    assert_eq!(n.size(), u32::MAX);
    assert_eq!(n.nth(0), Some(0));
    assert_eq!(n.nth(u32::MAX - 1), Some(u32::MAX - 1));
    assert_eq!(n.nth(u32::MAX), None);
}

#[test]
fn prefix_lengths_above_32_are_refused() {
    assert_eq!(Subnet::new(0, 33), None);
    assert!(Subnet::new(0, 32).is_some());
}

#[test]
fn addresses_in_dotted_decimal() {
    assert_eq!(ipv4_string(ipv4(172, 18, 0, 1)), "172.18.0.1");
    assert_eq!(ipv4_string(0), "0.0.0.0");
    assert_eq!(ipv4_string(u32::MAX), "255.255.255.255");
    assert_eq!(ipv4(127, 0, 0, 1), 0x7f00_0001);
}

#[test]
fn a_subnet_with_an_invalid_prefix_counts_nothing() {
    let n = Subnet { addr: 0, prefix: 40 };
    assert_eq!(n.size(), 0);
    assert_eq!(n.nth(0), None);
    assert_eq!(n.gateway(), None);
}
