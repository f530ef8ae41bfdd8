//! Hands out one IPv4 address per container within a subnet.

use crate::command::{HostCommand, Outcome, OutcomeView};
use crate::error::{network_failure, ContainerError, ContainerResult};
use crate::network::subnet::{ipv4_string, ipv4_text, Subnet};
use std::collections::HashSet;
use vstd::prelude::*;

verus! {

broadcast use vstd::std_specs::hash::group_hash_axioms;

/// How many of the lowest host addresses are probed before an allocation.
pub const SCAN_LIMIT: u32 = 20;

impl Subnet {
    /// Whether `ip` may be given to a container: it lies in the subnet and is
    /// neither the network address, at position 0, nor the gateway, at position 1.
    pub open spec fn is_host(&self, ip: int) -> bool {
        self.network() + 2 <= ip < self.network() + self.count()
    }

    /// How many addresses are probed before an allocation.
    pub open spec fn scan_len(&self) -> int {
        if self.count() - 2 < 0 {
            0
        } else if self.count() - 2 < SCAN_LIMIT {
            self.count() - 2
        } else {
            SCAN_LIMIT as int
        }
    }

    /// Whether the `i`-th probe was made, was answered, and was sent to `ip`.
    pub open spec fn probed(&self, answered: Seq<bool>, i: int, ip: u32) -> bool {
        0 <= i < answered.len() && i < self.scan_len() && answered[i] && ip == self.at(2 + i)
    }

    /// The addresses that answered one of the first `n` probes.
    pub open spec fn live_below(&self, answered: Seq<bool>, n: int) -> Set<u32> {
        Set::new(|ip: u32| exists|i: int| i < n && #[trigger] self.probed(answered, i, ip))
    }

    /// The addresses that answered a probe: `answered[i]` tells of the host
    /// address at position `2 + i`, for the positions that are probed.
    pub open spec fn live(&self, answered: Seq<bool>) -> Set<u32> {
        self.live_below(answered, answered.len() as int)
    }
}

/// One allocation: `taken` is what was held before together with what
/// answered the probes. The result is the lowest host address that is not
/// taken, and it is held afterwards; or there is none, and nothing changes.
pub open spec fn allocation(
    subnet: Subnet,
    taken: Set<u32>,
    result: Option<u32>,
    after: Set<u32>,
) -> bool {
    match result {
        Some(ip) => {
            &&& subnet.is_host(ip as int)
            &&& !taken.contains(ip)
            &&& forall|c: u32| subnet.is_host(c as int) && c < ip ==> taken.contains(c)
            &&& after == taken.insert(ip)
        },
        None => {
            &&& forall|c: u32| subnet.is_host(c as int) ==> taken.contains(c)
            &&& after == taken
        },
    }
}

/// Something that happened to an allocator.
pub enum AllocatorEvent {
    /// An allocation that found `live` addresses answering and returned `result`.
    Allocate { live: Set<u32>, result: Option<u32> },
    /// The release of `ip`.
    Release { ip: u32 },
}

/// Whether `event` leads from the held set `before` to the held set `after`.
pub open spec fn follows(
    subnet: Subnet,
    before: Set<u32>,
    event: AllocatorEvent,
    after: Set<u32>,
) -> bool {
    match event {
        AllocatorEvent::Allocate { live, result } => allocation(
            subnet,
            before.union(live),
            result,
            after,
        ),
        AllocatorEvent::Release { ip } => after == before.remove(ip),
    }
}

/// A history of one allocator: `states[k]` is what it held before `events[k]`
/// and `states[k + 1]` what it held after.
pub open spec fn history(
    subnet: Subnet,
    states: Seq<Set<u32>>,
    events: Seq<AllocatorEvent>,
) -> bool {
    &&& states.len() == events.len() + 1
    &&& forall|k: int|
        0 <= k < events.len() ==> follows(subnet, states[k], #[trigger] events[k], states[k + 1])
}

/// Whether `event` is an allocation that returned `ip`.
pub open spec fn returned(event: AllocatorEvent, ip: u32) -> bool {
    event matches AllocatorEvent::Allocate { result, .. } && result == Some(ip)
}

proof fn lemma_still_held(
    subnet: Subnet,
    states: Seq<Set<u32>>,
    events: Seq<AllocatorEvent>,
    i: int,
    k: int,
    ip: u32,
)
    requires
        history(subnet, states, events),
        0 <= i < k <= events.len(),
        returned(events[i], ip),
        forall|m: int| i < m < k ==> events[m] != (AllocatorEvent::Release { ip }),
    ensures
        states[k].contains(ip),
    decreases k - i,
{
    if k == i + 1 {
        assert(follows(subnet, states[i], events[i], states[i + 1]));
    } else {
        lemma_still_held(subnet, states, events, i, k - 1, ip);
        assert(follows(subnet, states[k - 1], events[k - 1], states[k]));
        assert(events[k - 1] != (AllocatorEvent::Release { ip }));
    }
}

/// No address is handed out twice unless it was released in between: if two
/// allocations of one history return the same address, a release of that
/// address lies between them.
pub proof fn lemma_no_address_twice(
    subnet: Subnet,
    states: Seq<Set<u32>>,
    events: Seq<AllocatorEvent>,
    i: int,
    j: int,
    ip: u32,
)
    requires
        history(subnet, states, events),
        0 <= i < j < events.len(),
        returned(events[i], ip),
        returned(events[j], ip),
    ensures
        exists|k: int| i < k < j && events[k] == (AllocatorEvent::Release { ip }),
{
    if forall|m: int| i < m < j ==> events[m] != (AllocatorEvent::Release { ip }) {
        lemma_still_held(subnet, states, events, i, j, ip);
        assert(follows(subnet, states[j], events[j], states[j + 1]));
        assert(false);
    }
}

/// An allocation never returns the network address or the gateway, and what
/// it returns lies in the subnet.
pub proof fn lemma_allocation_in_subnet(
    subnet: Subnet,
    taken: Set<u32>,
    ip: u32,
    after: Set<u32>,
)
    requires
        allocation(subnet, taken, Some(ip), after),
    ensures
        ip != subnet.at(0),
        ip != subnet.at(1),
        subnet.network() <= ip < subnet.network() + subnet.count(),
{
}

/// The addresses of one subnet that containers hold.
pub struct IpAllocator {
    subnet: Subnet,
    allocated: HashSet<u32>,
}

impl IpAllocator {
    /// The subnet that addresses are taken from.
    pub closed spec fn subnet(&self) -> Subnet {
        self.subnet
    }

    /// The addresses that are held.
    pub closed spec fn held(&self) -> Set<u32> {
        self.allocated@
    }

    /// Every held address is a host address of the subnet.
    pub open spec fn wf(&self) -> bool {
        &&& self.subnet().wf()
        &&& self.held().finite()
        &&& forall|ip: u32| self.held().contains(ip) ==> self.subnet().is_host(ip as int)
    }

    /// An allocator for `subnet` that holds nothing.
    pub fn new(subnet: Subnet) -> (r: ContainerResult<IpAllocator>)
        ensures
            match r {
                Ok(a) => subnet.wf() && a.wf() && a.subnet() == subnet && a.held()
                    == Set::<u32>::empty(),
                Err(e) => !subnet.wf() && e@ == network_failure("Invalid subnet"@),
            },
    {
        if subnet.prefix > 32 {
            return Err(ContainerError::Network { message: String::from_str("Invalid subnet") });
        }
        Ok(IpAllocator { subnet, allocated: HashSet::new() })
    }

    /// Whether `ip` is held.
    pub fn is_allocated(&self, ip: u32) -> (r: bool)
        ensures
            r == self.held().contains(ip),
    {
        self.allocated.contains(&ip)
    }

    /// How many addresses are held.
    pub fn allocated_count(&self) -> (n: usize)
        requires
            self.wf(),
        ensures
            n == self.held().len(),
    {
        self.allocated.len()
    }

    /// The addresses to probe before an allocation: the lowest host
    /// addresses of the subnet, at most `SCAN_LIMIT` of them, in rising order.
    pub fn scan_targets(&self) -> (targets: Vec<u32>)
        requires
            self.wf(),
        ensures
            targets.len() == self.subnet().scan_len(),
            forall|i: int| 0 <= i < targets.len() ==> targets[i] == self.subnet().at(2 + i),
    {
        let size = self.subnet.size();
        let mut targets: Vec<u32> = Vec::new();
        let mut i: u32 = 0;
        while i < SCAN_LIMIT && i + 2 < size
            invariant
                i <= SCAN_LIMIT,
                self.subnet.wf(),
                size == self.subnet.count(),
                targets.len() == i,
                i <= self.subnet.scan_len(),
                forall|k: int| 0 <= k < i ==> targets[k] == self.subnet.at(2 + k),
            decreases SCAN_LIMIT - i,
        {
            match self.subnet.nth(i + 2) {
                Some(ip) => {
                    targets.push(ip);
                },
                None => {
                    assert(false);
                },
            }
            i += 1;
        }
        targets
    }

    /// The probe for `ip`: one echo request, answered within a second or not at all.
    pub fn probe(ip: u32) -> (c: HostCommand)
        ensures
            c@.program == "ping"@,
            c@.args == seq!["-c"@, "1"@, "-W"@, "1"@, ipv4_text(ip)],
    {
        let address = ipv4_string(ip);
        let c = HostCommand::new("ping", &["-c", "1", "-W", "1", address.as_str()]);
        assert(c@.args =~= seq!["-c"@, "1"@, "-W"@, "1"@, ipv4_text(ip)]);
        c
    }

    /// Whether the outcome of a probe shows that the address answered.
    pub fn answered(outcome: &Outcome) -> (r: bool)
        ensures
            r == (outcome@ matches OutcomeView::Done { success, .. } && success),
    {
        match outcome {
            Outcome::Done { success, .. } => *success,
            Outcome::Failed { .. } => false,
        }
    }

    /// Marks as held every probed address that answered: `answered[i]` tells
    /// of the `i`-th address of `scan_targets`.
    pub fn scan_existing_ips(&mut self, answered: &Vec<bool>)
        requires
            old(self).wf(),
        ensures
            final(self).wf(),
            final(self).subnet() == old(self).subnet(),
            final(self).held() == old(self).held().union(old(self).subnet().live(answered@)),
    {
        let targets = self.scan_targets();
        let ghost before = self.allocated@;
        let ghost subnet = self.subnet;
        let mut i: usize = 0;
        assert(before =~= before.union(subnet.live_below(answered@, 0)));
        while i < targets.len() && i < answered.len()
            invariant
                i <= targets.len(),
                i <= answered.len(),
                self.subnet == subnet,
                subnet.wf(),
                targets.len() == subnet.scan_len(),
                forall|k: int| 0 <= k < targets.len() ==> targets[k] == subnet.at(2 + k),
                self.allocated@.finite(),
                self.allocated@ == before.union(subnet.live_below(answered@, i as int)),
            decreases targets.len() - i,
        {
            let ghost held = self.allocated@;
            if answered[i] {
                self.allocated.insert(targets[i]);
            }
            proof {
                let grown = subnet.live_below(answered@, i + 1);
                let small = subnet.live_below(answered@, i as int);
                assert forall|ip: u32|
                    grown.contains(ip) <==> small.contains(ip) || (answered@[i as int] && ip
                        == targets[i as int]) by {
                    if grown.contains(ip) {
                        let k = choose|k: int|
                            k < i + 1 && #[trigger] subnet.probed(answered@, k, ip);
                        if k < i {
                            assert(small.contains(ip));
                        }
                    }
                    if small.contains(ip) {
                        let k = choose|k: int| k < i && #[trigger] subnet.probed(answered@, k, ip);
                        assert(k < i + 1 && subnet.probed(answered@, k, ip));
                    }
                    if answered@[i as int] && ip == targets[i as int] {
                        assert(subnet.probed(answered@, i as int, ip));
                    }
                }
                assert(self.allocated@ =~= before.union(grown));
            }
            i += 1;
        }
        proof {
            let all = subnet.live(answered@);
            let seen = subnet.live_below(answered@, i as int);
            assert forall|ip: u32| all.contains(ip) <==> seen.contains(ip) by {
                if all.contains(ip) {
                    let k = choose|k: int|
                        k < answered@.len() && #[trigger] subnet.probed(answered@, k, ip);
                    assert(k < i);
                }
                if seen.contains(ip) {
                    let k = choose|k: int| k < i && #[trigger] subnet.probed(answered@, k, ip);
                    assert(k < answered@.len() && subnet.probed(answered@, k, ip));
                }
            }
            assert(all =~= seen);
            assert forall|ip: u32| self.allocated@.contains(ip) implies subnet.is_host(
                ip as int,
            ) by {
                if !before.contains(ip) {
                    let k = choose|k: int| k < i && #[trigger] subnet.probed(answered@, k, ip);
                    assert(subnet.probed(answered@, k, ip));
                }
            }
        }
    }

    /// Hands out the lowest host address that is neither held nor answering
    /// a probe, after marking the answering ones as held.
    pub fn allocate(&mut self, answered: &Vec<bool>) -> (r: ContainerResult<u32>)
        requires
            old(self).wf(),
        ensures
            final(self).wf(),
            final(self).subnet() == old(self).subnet(),
            allocation(
                old(self).subnet(),
                old(self).held().union(old(self).subnet().live(answered@)),
                match r {
                    Ok(ip) => Some(ip),
                    Err(_) => None,
                },
                final(self).held(),
            ),
            r matches Err(e) ==> e@ == network_failure("No available IPs in subnet"@),
    {
        self.scan_existing_ips(answered);
        let ghost taken = self.allocated@;
        let ghost subnet = self.subnet;
        let size = self.subnet.size();
        let mut i: u32 = 2;
        while i < size
            invariant
                2 <= i,
                self.subnet == subnet,
                self.allocated@ == taken,
                subnet == old(self).subnet(),
                taken == old(self).held().union(subnet.live(answered@)),
                taken.finite(),
                forall|ip: u32| taken.contains(ip) ==> subnet.is_host(ip as int),
                subnet.wf(),
                size == subnet.count(),
                subnet.network() + size - 1 <= 0xffff_ffff,
                forall|c: u32|
                    subnet.network() + 2 <= c < subnet.network() + i ==> taken.contains(c),
            decreases size - i,
        {
            match self.subnet.nth(i) {
                Some(ip) => {
                    if !self.allocated.contains(&ip) {
                        self.allocated.insert(ip);
                        return Ok(ip);
                    }
                },
                None => {
                    assert(false);
                },
            }
            i += 1;
        }
        Err(ContainerError::Network { message: String::from_str("No available IPs in subnet") })
    }

    /// Gives `ip` back; an address that is not held changes nothing.
    pub fn release(&mut self, ip: u32)
        requires
            old(self).wf(),
        ensures
            final(self).wf(),
            final(self).subnet() == old(self).subnet(),
            final(self).held() == old(self).held().remove(ip),
    {
        self.allocated.remove(&ip);
    }
}

} // verus!
