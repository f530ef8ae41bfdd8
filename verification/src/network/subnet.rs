//! IPv4 subnets in CIDR notation, and the text of IPv4 addresses.

use crate::text::{decimal_text, push_decimal};
use vstd::prelude::*;

verus! {

/// What `ipnetwork` reads from a text in CIDR notation: the address as
/// written and the prefix length, or nothing where it rejects the text.
pub uninterp spec fn cidr_notation(s: Seq<char>) -> Option<(u32, u8)>;

/// The network mask of a prefix length: that many leading one bits.
pub open spec fn mask_of(prefix: u8) -> u32 {
    if prefix == 0 {
        0u32
    } else {
        0xffff_ffffu32 << ((32 - prefix) as u32)
    }
}

/// The lowest address of the subnet that `addr` lies in.
pub open spec fn network_of(addr: u32, prefix: u8) -> u32 {
    addr & mask_of(prefix)
}

/// How many addresses `ipnetwork` counts in a subnet of the given prefix
/// length. For the prefix length zero it counts one less than there are.
pub open spec fn size_of(prefix: u8) -> u32 {
    if prefix == 0 {
        0xffff_ffffu32
    } else {
        1u32 << ((32 - prefix) as u32)
    }
}

/// The `n`-th address of a subnet, counted from its lowest, if it has that many.
pub open spec fn nth_of(addr: u32, prefix: u8, n: u32) -> Option<u32> {
    if n < size_of(prefix) {
        Some((network_of(addr, prefix) + n) as u32)
    } else {
        None
    }
}

/// `ipnetwork::Ipv4Network::from_str`, followed by `ip` and `prefix` on what
/// it returns. The contract names the result and adds only that an accepted
/// prefix length is at most 32, which `Ipv4Network::new` checks.
#[verifier::external_body]
fn read_cidr(s: &str) -> (r: Option<(u32, u8)>)
    ensures
        r == cidr_notation(s@),
        r matches Some(p) ==> p.1 <= 32,
{
    match s.parse::<ipnetwork::Ipv4Network>() {
        Ok(n) => Some((u32::from(n.ip()), n.prefix())),
        Err(_) => None,
    }
}

/// `ipnetwork::Ipv4Network::size` on the subnet made by `Ipv4Network::new`:
/// two to the number of host bits, but `u32::MAX` when all 32 bits are host bits.
#[verifier::external_body]
fn count_addresses(addr: u32, prefix: u8) -> (n: u32)
    requires
        prefix <= 32,
    ensures
        n == size_of(prefix),
{
    ipnetwork::Ipv4Network::new(addr.into(), prefix).unwrap().size()
}

/// `ipnetwork::Ipv4Network::nth` on the subnet made by `Ipv4Network::new`:
/// the network address plus `n` while `n` is below the size, else nothing.
#[verifier::external_body]
fn nth_address(addr: u32, prefix: u8, n: u32) -> (r: Option<u32>)
    requires
        prefix <= 32,
    ensures
        r == nth_of(addr, prefix, n),
{
    ipnetwork::Ipv4Network::new(addr.into(), prefix).unwrap().nth(n).map(u32::from)
}

/// An IPv4 subnet: an address and the length of its network prefix.
#[derive(Debug, Clone, Copy, PartialEq, Eq, Structural)]
pub struct Subnet {
    pub addr: u32,
    pub prefix: u8,
}

/// The subnet with the given address and prefix length, if there is one.
pub open spec fn subnet_from(parts: Option<(u32, u8)>) -> Option<Subnet> {
    match parts {
        Some(p) => Some(Subnet { addr: p.0, prefix: p.1 }),
        None => None,
    }
}

/// The subnet 172.18.0.0/16 counts 65536 addresses from 172.18.0.0 on.
pub proof fn lemma_default_subnet()
    ensures
        network_of(0xac12_0000u32, 16) == 0xac12_0000u32,
        size_of(16) == 0x1_0000u32,
{
    assert(0xac12_0000u32 & (0xffff_ffffu32 << 16u32) == 0xac12_0000u32) by (bit_vector);
    assert(1u32 << 16u32 == 0x1_0000u32) by (bit_vector);
}

/// The highest address of a subnet is still an IPv4 address.
pub proof fn lemma_subnet_fits(addr: u32, prefix: u8)
    requires
        prefix <= 32,
    ensures
        network_of(addr, prefix) + size_of(prefix) - 1 <= 0xffff_ffff,
        size_of(prefix) >= 1,
{
    if prefix == 0 {
        assert(addr & 0u32 == 0u32) by (bit_vector);
    } else {
        let s: u32 = (32 - prefix) as u32;
        assert((addr & (0xffff_ffffu32 << s)) <= 0xffff_ffffu32 - ((1u32 << s) - 1u32) && (1u32
            << s) >= 1u32) by (bit_vector)
            requires
                s < 32,
        ;
    }
}

impl Subnet {
    /// A prefix length is at most 32.
    pub open spec fn wf(&self) -> bool {
        self.prefix <= 32
    }

    /// The lowest address of the subnet.
    pub open spec fn network(&self) -> int {
        network_of(self.addr, self.prefix) as int
    }

    /// How many addresses the subnet counts; none where the prefix length
    /// is not one.
    pub open spec fn count(&self) -> int {
        if self.wf() {
            size_of(self.prefix) as int
        } else {
            0
        }
    }

    /// The address at position `n`, when `n` is a position of the subnet.
    pub open spec fn at(&self, n: int) -> int {
        self.network() + n
    }

    /// The subnet with the given address and prefix length.
    pub fn new(addr: u32, prefix: u8) -> (r: Option<Subnet>)
        ensures
            r == if prefix <= 32 {
                Some(Subnet { addr, prefix })
            } else {
                None
            },
    {
        if prefix <= 32 {
            Some(Subnet { addr, prefix })
        } else {
            None
        }
    }

    /// Reads a subnet in CIDR notation, such as `172.18.0.0/16`.
    pub fn parse(s: &str) -> (r: Option<Subnet>)
        ensures
            r == subnet_from(cidr_notation(s@)),
            r matches Some(n) ==> n.wf(),
    {
        match read_cidr(s) {
            Some(p) => Some(Subnet { addr: p.0, prefix: p.1 }),
            None => None,
        }
    }

    /// How many addresses the subnet counts.
    pub fn size(&self) -> (n: u32)
        ensures
            n == self.count(),
            self.wf() ==> n >= 1 && self.network() + n - 1 <= 0xffff_ffff,
    {
        if self.prefix > 32 {
            return 0;
        }
        proof {
            lemma_subnet_fits(self.addr, self.prefix);
        }
        count_addresses(self.addr, self.prefix)
    }

    /// The address at position `n` of the subnet, counted from the network
    /// address at position 0; nothing when the subnet has no such position.
    pub fn nth(&self, n: u32) -> (r: Option<u32>)
        ensures
            r == if n < self.count() {
                Some(self.at(n as int) as u32)
            } else {
                None
            },
            n < self.count() ==> self.at(n as int) <= 0xffff_ffff,
    {
        if self.prefix > 32 {
            return None;
        }
        proof {
            lemma_subnet_fits(self.addr, self.prefix);
        }
        nth_address(self.addr, self.prefix, n)
    }

    /// The gateway of the subnet: the address at position 1.
    pub fn gateway(&self) -> (r: Option<u32>)
        ensures
            r == if 1 < self.count() {
                Some(self.at(1) as u32)
            } else {
                None
            },
            1 < self.count() ==> self.at(1) <= 0xffff_ffff,
    {
        self.nth(1)
    }

    /// The subnet in CIDR notation: its address, `/`, its prefix length.
    pub fn to_string(&self) -> (s: String)
        ensures
            s@ == cidr_text(*self),
    {
        let mut s = ipv4_string(self.addr);
        s.push('/');
        push_decimal(&mut s, self.prefix as u64);
        assert(s@ =~= cidr_text(*self));
        s
    }
}

/// A subnet in CIDR notation.
pub open spec fn cidr_text(n: Subnet) -> Seq<char> {
    ipv4_text(n.addr) + seq!['/'] + decimal_text(n.prefix as nat)
}

/// An IPv4 address in dotted decimal notation, highest byte first.
pub open spec fn ipv4_text(ip: u32) -> Seq<char> {
    decimal_text((ip / 0x100_0000) as nat) + seq!['.'] + decimal_text((ip / 0x1_0000 % 256) as nat)
        + seq!['.'] + decimal_text((ip / 0x100 % 256) as nat) + seq!['.'] + decimal_text(
        (ip % 256) as nat,
    )
}

/// An IPv4 address in dotted decimal notation, highest byte first.
pub fn ipv4_string(ip: u32) -> (s: String)
    ensures
        s@ == ipv4_text(ip),
{
    let mut s = String::new();
    push_decimal(&mut s, (ip / 0x100_0000) as u64);
    s.push('.');
    push_decimal(&mut s, (ip / 0x1_0000 % 256) as u64);
    s.push('.');
    push_decimal(&mut s, (ip / 0x100 % 256) as u64);
    s.push('.');
    push_decimal(&mut s, (ip % 256) as u64);
    assert(s@ =~= ipv4_text(ip));
    s
}

/// The address `a.b.c.d` as one number.
pub open spec fn ipv4_of(a: u8, b: u8, c: u8, d: u8) -> u32 {
    (a * 0x100_0000 + b * 0x1_0000 + c * 0x100 + d) as u32
}

/// The address `a.b.c.d` as one number.
pub fn ipv4(a: u8, b: u8, c: u8, d: u8) -> (ip: u32)
    ensures
        ip == ipv4_of(a, b, c, d),
{
    (a as u32) * 0x100_0000 + (b as u32) * 0x1_0000 + (c as u32) * 0x100 + (d as u32)
}

} // verus!
