//! The networks of this host and what each container has in them.

use crate::command::{append_steps, ignore_all, all_ignored, push_step, Step, StepView};
use crate::error::{network_failure, ContainerError, ContainerResult, ErrorView};
use crate::network::allocator::{allocation, IpAllocator};
use crate::network::bridge::{
    bridge_address, bridge_attachment, bridge_creation, bridge_removal, bridge_up, Bridge,
};
use crate::network::iptables::{
    add_port_forward, cleanup_nat, enable_localhost_routing, localhost_routing, nat_cleanup,
    nat_setup, port_forward, port_forward_removal, remove_port_forward, setup_nat,
};
use crate::network::network_namespace::{
    default_route, interface_rename, interface_setup, loopback_setup, NetworkNamespace,
};
use crate::network::subnet::{cidr_notation, cidr_text, subnet_from, Subnet};
use crate::network::veth::{
    create_veth_pair, delete_veth, move_to_namespace, namespace_move, veth_creation, veth_removal,
};
use crate::network::{
    unaddressed, ContainerNetwork, ContainerNetworkView, NetworkMode, NetworkModeView, PortMapping,
};
use crate::registry::Registry;
use crate::text::{chars_of, matches_whole, prefixed, same_text, views};
use vstd::prelude::*;

verus! {

/// One network: a bridge, the subnet behind it, and who holds which address.
pub struct NetworkEntry {
    pub name: String,
    pub bridge: Bridge,
    pub subnet: Subnet,
    pub gateway: u32,
    pub allocator: IpAllocator,
}

impl NetworkEntry {
    /// The addresses of this network that are held.
    pub open spec fn held(&self) -> Set<u32> {
        self.allocator.held()
    }

    /// The allocator works on the entry's subnet, the subnet has a gateway,
    /// the address at position 1, and every held address is a host address
    /// of the subnet.
    pub open spec fn wf(&self) -> bool {
        &&& self.allocator.wf()
        &&& self.allocator.subnet() == self.subnet
        &&& 1 < self.subnet.count()
        &&& self.gateway == self.subnet.at(1)
    }

    /// Whether `other` is this entry but for the addresses it holds.
    pub open spec fn same_network(&self, other: NetworkEntry) -> bool {
        &&& self.name@ == other.name@
        &&& self.bridge.name@ == other.bridge.name@
        &&& self.subnet == other.subnet
        &&& self.gateway == other.gateway
    }
}

/// The name of the bridge device of the network `name`: `corerun0` for the
/// default network `bridge`, and otherwise `cr-` with the first eight
/// characters of the name.
pub open spec fn bridge_name_of(name: Seq<char>) -> Seq<char> {
    if name == "bridge"@ {
        "corerun0"@
    } else if name.len() <= 8 {
        "cr-"@ + name
    } else {
        "cr-"@ + name.take(8)
    }
}

/// The steps that bring a network up on the host: the bridge is made unless
/// it is there, gets the gateway's address and is brought up; packets for
/// 127.0.0.1 may be routed to it; and the subnet is connected to the outside.
pub open spec fn network_creation(bridge: Seq<char>, subnet: Subnet, gateway: u32) -> Seq<
    StepView,
> {
    bridge_creation(bridge) + seq![
        bridge_address(bridge, gateway, subnet.prefix),
        bridge_up(bridge),
    ] + localhost_routing(bridge) + nat_setup(bridge, cidr_text(subnet))
}

/// The steps that publish `ports` of the container at `ip`, port by port.
pub open spec fn forwards(ports: Seq<PortMapping>, ip: u32) -> Seq<StepView>
    decreases ports.len(),
{
    if ports.len() == 0 {
        seq![]
    } else {
        forwards(ports.drop_last(), ip) + port_forward(
            ports.last().host_port,
            ip,
            ports.last().container_port,
            ports.last().protocol,
        )
    }
}

/// The steps that take the publication of `ports` back, port by port, with
/// whatever comes of each step accepted.
pub open spec fn forward_removals(ports: Seq<PortMapping>, ip: u32) -> Seq<StepView>
    decreases ports.len(),
{
    if ports.len() == 0 {
        seq![]
    } else {
        forward_removals(ports.drop_last(), ip) + all_ignored(
            port_forward_removal(
                ports.last().host_port,
                ip,
                ports.last().container_port,
                ports.last().protocol,
            ),
        )
    }
}

/// The part of a container id that names its interfaces: the seven
/// characters from position 10 on.
pub open spec fn interface_suffix(id: Seq<char>) -> Seq<char> {
    id.subrange(10, 17)
}

/// The name of the host end of a container's interface pair.
pub open spec fn host_interface(id: Seq<char>) -> Seq<char> {
    "veth"@ + interface_suffix(id)
}

/// The name of the container end of a container's interface pair, before it
/// is renamed to `eth0` inside the container.
pub open spec fn container_interface(id: Seq<char>) -> Seq<char> {
    "vethc"@ + interface_suffix(id)
}

/// The steps that connect a container to a bridge, in this order: the pair
/// of interfaces is made; its host end is attached to the bridge; its other
/// end is moved into the namespace of the container process; there the
/// loopback interface is brought up, the end is renamed to `eth0`, gets its
/// address and is brought up, and the default route is set; last, the ports
/// are published.
pub open spec fn bridge_connection(
    id: Seq<char>,
    pid: i32,
    bridge: Seq<char>,
    ip: u32,
    prefix: u8,
    gateway: u32,
    ports: Seq<PortMapping>,
) -> Seq<StepView> {
    seq![veth_creation(host_interface(id), container_interface(id))] + bridge_attachment(
        bridge,
        host_interface(id),
    ) + seq![
        namespace_move(container_interface(id), pid),
        loopback_setup(pid),
        interface_rename(pid, container_interface(id), "eth0"@),
    ] + interface_setup(pid, "eth0"@, ip, prefix) + seq![default_route(pid, "eth0"@, gateway)]
        + forwards(ports, ip)
}

/// What is recorded of a container on a bridge.
pub open spec fn bridge_record(
    id: Seq<char>,
    network: Seq<char>,
    ip: u32,
    gateway: u32,
    ports: Seq<PortMapping>,
) -> ContainerNetworkView {
    ContainerNetworkView {
        mode: NetworkModeView::Bridge { network_name: network },
        ip_address: Some(ip),
        gateway: Some(gateway),
        veth_host: Some(host_interface(id)),
        veth_container: Some(container_interface(id)),
        ports,
    }
}

/// The steps that take a container off its bridge: the publication of its
/// ports is taken back and the host end of its interface pair is deleted.
/// Whatever comes of each step is accepted.
pub open spec fn disconnection(record: ContainerNetworkView) -> Seq<StepView> {
    if record.mode is Bridge {
        (match record.ip_address {
            Some(ip) => forward_removals(record.ports, ip),
            None => seq![],
        }) + (match record.veth_host {
            Some(name) => seq![veth_removal(name).ignored()],
            None => seq![],
        })
    } else {
        seq![]
    }
}

/// A network's answer to a request: the record of the container and the
/// steps that make the host match it.
pub struct NetworkSetup {
    pub network: ContainerNetwork,
    pub plan: Vec<Step>,
}

/// The networks of this host and the record of each container.
pub struct NetworkManager {
    networks: Registry<NetworkEntry>,
    container_networks: Registry<ContainerNetwork>,
}

impl NetworkManager {
    /// The networks, by name.
    pub closed spec fn networks(&self) -> Map<Seq<char>, NetworkEntry> {
        self.networks.map()
    }

    /// The records of the containers, by container id.
    pub closed spec fn containers(&self) -> Map<Seq<char>, ContainerNetwork> {
        self.container_networks.map()
    }

    /// Both maps are kept without repeated names.
    pub closed spec fn sound(&self) -> bool {
        self.networks.wf() && self.container_networks.wf()
    }

    /// A container on a bridge has an address, and its network holds that
    /// address; a container on the host's network or on none has no address.
    pub open spec fn record_ok(&self, id: Seq<char>) -> bool {
        let record = self.containers()[id];
        match record.mode@ {
            NetworkModeView::Bridge { network_name } => {
                &&& record.ip_address is Some
                &&& self.networks().dom().contains(network_name)
                &&& self.networks()[network_name].held().contains(record.ip_address->0)
            },
            NetworkModeView::Host => record.ip_address is None,
            NetworkModeView::Disabled => record.ip_address is None,
            NetworkModeView::Container { .. } => true,
        }
    }

    /// Two containers on the bridge of one network have different addresses.
    pub open spec fn apart(&self, a: Seq<char>, b: Seq<char>) -> bool {
        let ra = self.containers()[a];
        let rb = self.containers()[b];
        a != b && ra.mode@ is Bridge && rb.mode@ is Bridge && ra.mode@->network_name
            == rb.mode@->network_name ==> ra.ip_address != rb.ip_address
    }

    /// Every network is valid and filed under its own name, and every record
    /// fits the networks.
    pub open spec fn wf(&self) -> bool {
        &&& self.sound()
        &&& forall|n: Seq<char>| #[trigger]
            self.networks().dom().contains(n) ==> self.networks()[n].wf()
                && self.networks()[n].name@ == n
        &&& forall|id: Seq<char>| #[trigger]
            self.containers().dom().contains(id) ==> self.record_ok(id)
        &&& forall|a: Seq<char>, b: Seq<char>|
            self.containers().dom().contains(a) && self.containers().dom().contains(b)
                ==> #[trigger] self.apart(a, b)
    }
}


/// A plan or an error, as plain values.
pub open spec fn plan_outcome(r: ContainerResult<Vec<Step>>) -> Result<Seq<StepView>, ErrorView> {
    match r {
        Ok(plan) => Ok(views(plan@)),
        Err(e) => Err(e@),
    }
}

/// The default network: its name, its subnet 172.18.0.0/16, and its gateway 172.18.0.1.
pub open spec fn default_network() -> (Seq<char>, Subnet, u32) {
    ("bridge"@, Subnet { addr: 0xac12_0000u32, prefix: 16 }, 0xac12_0001u32)
}

impl NetworkManager {
    /// Whether `other` knows the same networks and containers.
    pub open spec fn same_as(&self, other: NetworkManager) -> bool {
        self.networks() == other.networks() && self.containers() == other.containers()
    }

    /// Whether `other` knows the same networks, each unchanged but for the
    /// addresses that the network `name` holds.
    pub open spec fn same_networks_but(&self, other: NetworkManager, name: Seq<char>) -> bool {
        &&& self.networks().dom() == other.networks().dom()
        &&& forall|n: Seq<char>| #[trigger]
            self.networks().dom().contains(n) && n != name ==> self.networks()[n]
                == other.networks()[n]
        &&& self.networks().dom().contains(name) ==> self.networks()[name].same_network(
            other.networks()[name],
        )
    }

    /// What `create_network_with` does. A name that is taken, and a subnet
    /// without a gateway, are refused and nothing changes. Otherwise the
    /// network is filed under its name with nothing held, and the plan brings
    /// it up on the host.
    pub open spec fn network_created(
        &self,
        name: Seq<char>,
        subnet: Subnet,
        r: Result<Seq<StepView>, ErrorView>,
        after: NetworkManager,
    ) -> bool {
        if self.networks().dom().contains(name) {
            r == Err::<Seq<StepView>, ErrorView>(
                network_failure("Network already exists: "@ + name),
            ) && self.same_as(after)
        } else if subnet.count() <= 1 {
            r == Err::<Seq<StepView>, ErrorView>(network_failure("Invalid subnet"@))
                && self.same_as(after)
        } else {
            let entry = after.networks()[name];
            &&& r == Ok::<Seq<StepView>, ErrorView>(
                network_creation(bridge_name_of(name), subnet, subnet.at(1) as u32),
            )
            &&& after.containers() == self.containers()
            &&& after.networks().dom() == self.networks().dom().insert(name)
            &&& forall|n: Seq<char>| #[trigger]
                self.networks().dom().contains(n) ==> after.networks()[n] == self.networks()[n]
            &&& entry.name@ == name
            &&& entry.bridge.name@ == bridge_name_of(name)
            &&& entry.subnet == subnet
            &&& entry.gateway == subnet.at(1)
            &&& entry.held() == Set::<u32>::empty()
        }
    }

    /// What `create_network` does: a text that is no subnet is refused, and
    /// otherwise the subnet it denotes is handed to `create_network_with`.
    pub open spec fn network_created_from(
        &self,
        name: Seq<char>,
        parsed: Option<Subnet>,
        r: Result<Seq<StepView>, ErrorView>,
        after: NetworkManager,
    ) -> bool {
        match parsed {
            Some(subnet) => self.network_created(name, subnet, r, after),
            None => r == Err::<Seq<StepView>, ErrorView>(network_failure("Invalid subnet"@))
                && self.same_as(after),
        }
    }
}

/// The name of the bridge device of the network `name`.
pub fn bridge_name_for(name: &str) -> (s: String)
    ensures
        s@ == bridge_name_of(name@),
{
    let text = chars_of(name);
    if same_text(text.as_slice(), "bridge") {
        return String::from_str("corerun0");
    }
    let mut head: Vec<char> = Vec::new();
    let mut i: usize = 0;
    while i < text.len() && i < 8
        invariant
            i <= text.len(),
            i <= 8,
            head@ == text@.take(i as int),
        decreases text.len() - i,
    {
        head.push(text[i]);
        assert(head@ =~= text@.take(i + 1));
        i += 1;
    }
    assert(text@.len() <= 8 ==> head@ =~= text@);
    prefixed("cr-", head.as_slice())
}

impl NetworkManager {
    /// A manager that knows no network and no container.
    pub fn empty() -> (m: NetworkManager)
        ensures
            m.wf(),
            m.networks() == Map::<Seq<char>, NetworkEntry>::empty(),
            m.containers() == Map::<Seq<char>, ContainerNetwork>::empty(),
    {
        NetworkManager { networks: Registry::new(), container_networks: Registry::new() }
    }

    /// Files a network under `name` and plans bringing it up on the host.
    pub fn create_network_with(&mut self, name: &str, subnet: Subnet) -> (r: ContainerResult<
        Vec<Step>,
    >)
        requires
            old(self).wf(),
        ensures
            final(self).wf(),
            old(self).network_created(name@, subnet, plan_outcome(r), *final(self)),
    {
        if self.networks.contains_key(name) {
            let text = chars_of(name);
            return Err(
                ContainerError::Network {
                    message: prefixed("Network already exists: ", text.as_slice()),
                },
            );
        }
        let gateway = match subnet.gateway() {
            Some(g) => g,
            None => {
                return Err(
                    ContainerError::Network { message: String::from_str("Invalid subnet") },
                );
            },
        };
        let allocator = match IpAllocator::new(subnet) {
            Ok(a) => a,
            Err(e) => {
                return Err(e);
            },
        };
        let bridge = Bridge { name: bridge_name_for(name) };
        let mut plan = bridge.create();
        push_step(&mut plan, bridge.set_ip(gateway, subnet.prefix));
        push_step(&mut plan, bridge.up());
        append_steps(&mut plan, enable_localhost_routing(bridge.name.as_str()));
        let text = subnet.to_string();
        append_steps(&mut plan, setup_nat(bridge.name.as_str(), text.as_str()));
        let entry = NetworkEntry {
            name: String::from_str(name),
            bridge,
            subnet,
            gateway,
            allocator,
        };
        let ghost made = entry;
        self.networks.insert(String::from_str(name), entry);
        proof {
            assert(views(plan@) =~= network_creation(bridge_name_of(name@), subnet, gateway));
            assert(self.networks()[name@] == made);
            assert(self.containers() == old(self).containers());
            assert(self.networks().dom() =~= old(self).networks().dom().insert(name@));
            assert forall|id: Seq<char>| #[trigger]
                self.containers().dom().contains(id) implies self.record_ok(id) by {
                assert(old(self).record_ok(id));
            }
            assert forall|a: Seq<char>, b: Seq<char>|
                self.containers().dom().contains(a) && self.containers().dom().contains(
                    b,
                ) implies #[trigger] self.apart(a, b) by {
                assert(old(self).apart(a, b));
            }
        }
        Ok(plan)
    }

    /// Files a network under `name`, with the subnet that `subnet` denotes in
    /// CIDR notation, and plans bringing it up on the host.
    pub fn create_network(&mut self, name: &str, subnet: &str) -> (r: ContainerResult<Vec<Step>>)
        requires
            old(self).wf(),
        ensures
            final(self).wf(),
            old(self).network_created_from(
                name@,
                subnet_from(cidr_notation(subnet@)),
                plan_outcome(r),
                *final(self),
            ),
    {
        match Subnet::parse(subnet) {
            Some(n) => self.create_network_with(name, n),
            None => Err(ContainerError::Network { message: String::from_str("Invalid subnet") }),
        }
    }

    /// A manager with the default network, and the plan that brings that
    /// network up on the host.
    pub fn new() -> (r: ContainerResult<(NetworkManager, Vec<Step>)>)
        ensures
            r matches Ok(made) && {
                let m = made.0;
                let entry = m.networks()[default_network().0];
                &&& m.wf()
                &&& m.containers() == Map::<Seq<char>, ContainerNetwork>::empty()
                &&& m.networks().dom() == set![default_network().0]
                &&& entry.name@ == default_network().0
                &&& entry.bridge.name@ == "corerun0"@
                &&& entry.subnet == default_network().1
                &&& entry.gateway == default_network().2
                &&& entry.held() == Set::<u32>::empty()
                &&& views(made.1@) == network_creation(
                    "corerun0"@,
                    default_network().1,
                    default_network().2,
                )
            },
    {
        let mut m = NetworkManager::empty();
        let subnet = Subnet { addr: 0xac12_0000u32, prefix: 16 };
        proof {
            crate::network::subnet::lemma_default_subnet();
        }
        match m.create_network_with("bridge", subnet) {
            Ok(plan) => {
                proof {
                    assert(m.networks().dom() =~= set![default_network().0]);
                }
                Ok((m, plan))
            },
            Err(e) => {
                assert(false);
                Err(e)
            },
        }
    }
}


/// A network's answer or an error, as plain values.
pub open spec fn setup_outcome(r: ContainerResult<NetworkSetup>) -> Result<
    (ContainerNetworkView, Seq<StepView>),
    ErrorView,
> {
    match r {
        Ok(setup) => Ok((setup.network@, views(setup.plan@))),
        Err(e) => Err(e@),
    }
}

/// What is recorded of a container that shares the network of `peer`.
pub open spec fn shared_record(
    peer_id: Seq<char>,
    peer: ContainerNetworkView,
) -> ContainerNetworkView {
    ContainerNetworkView {
        mode: NetworkModeView::Container { container_id: peer_id },
        ip_address: peer.ip_address,
        gateway: peer.gateway,
        veth_host: None,
        veth_container: None,
        ports: Seq::empty(),
    }
}

impl NetworkManager {
    /// Whether `after` has `record` under `id` and every other record as before.
    pub open spec fn filed(
        &self,
        id: Seq<char>,
        record: ContainerNetworkView,
        after: NetworkManager,
    ) -> bool {
        &&& after.containers().dom() == self.containers().dom().insert(id)
        &&& after.containers()[id]@ == record
        &&& forall|other: Seq<char>| #[trigger]
            self.containers().dom().contains(other) && other != id ==> after.containers()[other]
                == self.containers()[other]
    }

    /// A container on the host's network is recorded without addresses, and
    /// nothing is to be done on the host.
    pub open spec fn host_setup(
        &self,
        id: Seq<char>,
        r: Result<(ContainerNetworkView, Seq<StepView>), ErrorView>,
        after: NetworkManager,
    ) -> bool {
        &&& r == Ok::<(ContainerNetworkView, Seq<StepView>), ErrorView>(
            (unaddressed(NetworkModeView::Host), seq![]),
        )
        &&& self.filed(id, unaddressed(NetworkModeView::Host), after)
        &&& after.networks() == self.networks()
    }

    /// A container without network is recorded without addresses, and only
    /// the loopback interface in its namespace is brought up.
    pub open spec fn none_setup(
        &self,
        id: Seq<char>,
        pid: i32,
        r: Result<(ContainerNetworkView, Seq<StepView>), ErrorView>,
        after: NetworkManager,
    ) -> bool {
        &&& r == Ok::<(ContainerNetworkView, Seq<StepView>), ErrorView>(
            (unaddressed(NetworkModeView::Disabled), seq![loopback_setup(pid)]),
        )
        &&& self.filed(id, unaddressed(NetworkModeView::Disabled), after)
        &&& after.networks() == self.networks()
    }

    /// A container that shares the network of `peer` is recorded with the
    /// addresses of `peer`; a peer that is not recorded is an error, and
    /// nothing changes.
    pub open spec fn shared_setup(
        &self,
        id: Seq<char>,
        peer: Seq<char>,
        r: Result<(ContainerNetworkView, Seq<StepView>), ErrorView>,
        after: NetworkManager,
    ) -> bool {
        if self.containers().dom().contains(peer) {
            let record = shared_record(peer, self.containers()[peer]@);
            &&& r == Ok::<(ContainerNetworkView, Seq<StepView>), ErrorView>((record, seq![]))
            &&& self.filed(id, record, after)
            &&& after.networks() == self.networks()
        } else {
            &&& r == Err::<(ContainerNetworkView, Seq<StepView>), ErrorView>(
                network_failure("Container not found: "@ + peer),
            )
            &&& self.same_as(after)
        }
    }

    /// A container on the bridge of `network` gets the lowest free host
    /// address of that network, is recorded with it, and the plan connects it.
    ///
    /// A network that is not known, and an id too short to name the
    /// interfaces, are errors, and nothing changes. Where no address is free
    /// the error says so; the addresses that answered the probes are held
    /// from then on, and nothing else changes.
    pub open spec fn bridge_setup(
        &self,
        id: Seq<char>,
        pid: i32,
        network: Seq<char>,
        ports: Seq<PortMapping>,
        answered: Seq<bool>,
        r: Result<(ContainerNetworkView, Seq<StepView>), ErrorView>,
        after: NetworkManager,
    ) -> bool {
        if !self.networks().dom().contains(network) {
            &&& r == Err::<(ContainerNetworkView, Seq<StepView>), ErrorView>(
                network_failure("Network not found: "@ + network),
            )
            &&& self.same_as(after)
        } else if id.len() < 17 {
            &&& r == Err::<(ContainerNetworkView, Seq<StepView>), ErrorView>(
                network_failure("Invalid container id: "@ + id),
            )
            &&& self.same_as(after)
        } else {
            let entry = self.networks()[network];
            let taken = entry.held().union(entry.subnet.live(answered));
            let held = after.networks()[network].held();
            &&& self.same_networks_but(after, network)
            &&& match r {
                Ok(made) => {
                    &&& made.0.ip_address matches Some(ip)
                    &&& allocation(entry.subnet, taken, Some(ip), held)
                    &&& made.0 == bridge_record(id, network, ip, entry.gateway, ports)
                    &&& made.1 == bridge_connection(
                        id,
                        pid,
                        entry.bridge.name@,
                        ip,
                        entry.subnet.prefix,
                        entry.gateway,
                        ports,
                    )
                    &&& self.filed(id, made.0, after)
                },
                Err(e) => {
                    &&& allocation(entry.subnet, taken, None, held)
                    &&& e == network_failure("No available IPs in subnet"@)
                    &&& after.containers() == self.containers()
                },
            }
        }
    }

    /// What `setup_container_network` does, mode by mode.
    pub open spec fn container_setup(
        &self,
        id: Seq<char>,
        pid: i32,
        mode: NetworkModeView,
        ports: Seq<PortMapping>,
        answered: Seq<bool>,
        r: Result<(ContainerNetworkView, Seq<StepView>), ErrorView>,
        after: NetworkManager,
    ) -> bool {
        match mode {
            NetworkModeView::Bridge { network_name } => self.bridge_setup(
                id,
                pid,
                network_name,
                ports,
                answered,
                r,
                after,
            ),
            NetworkModeView::Host => self.host_setup(id, r, after),
            NetworkModeView::Disabled => self.none_setup(id, pid, r, after),
            NetworkModeView::Container { container_id } => self.shared_setup(
                id,
                container_id,
                r,
                after,
            ),
        }
    }

    /// What `cleanup_container_network` does. The record of the container is
    /// dropped; for a container on a bridge its address is free again and
    /// the plan takes it off the bridge. A container that is not recorded
    /// changes nothing, and nothing is to be done.
    pub open spec fn cleaned(
        &self,
        id: Seq<char>,
        plan: Seq<StepView>,
        after: NetworkManager,
    ) -> bool {
        if self.containers().dom().contains(id) {
            let record = self.containers()[id]@;
            &&& plan == disconnection(record)
            &&& after.containers() == self.containers().remove(id)
            &&& if record.mode is Bridge && record.ip_address is Some
                && self.networks().dom().contains(record.mode->network_name) {
                &&& self.same_networks_but(after, record.mode->network_name)
                &&& after.networks()[record.mode->network_name].held()
                    == self.networks()[record.mode->network_name].held().remove(
                    record.ip_address->0,
                )
            } else {
                after.networks() == self.networks()
            }
        } else {
            plan == Seq::<StepView>::empty() && self.same_as(after)
        }
    }

    proof fn lemma_same_wf(&self, after: NetworkManager)
        requires
            self.wf(),
            after.sound(),
            self.same_as(after),
        ensures
            after.wf(),
    {
        assert forall|n: Seq<char>| #[trigger]
            after.networks().dom().contains(n) implies after.networks()[n].wf()
            && after.networks()[n].name@ == n by {
            assert(self.networks().dom().contains(n));
        }
        assert forall|other: Seq<char>| #[trigger]
            after.containers().dom().contains(other) implies after.record_ok(other) by {
            assert(self.containers().dom().contains(other));
            assert(self.record_ok(other));
        }
        assert forall|a: Seq<char>, b: Seq<char>|
            after.containers().dom().contains(a) && after.containers().dom().contains(
                b,
            ) implies #[trigger] after.apart(a, b) by {
            assert(self.apart(a, b));
        }
    }

    proof fn lemma_filed_wf(&self, id: Seq<char>, record: ContainerNetwork, after: NetworkManager)
        requires
            self.wf(),
            after.sound(),
            self.filed(id, record@, after),
            after.containers()[id] == record,
            after.networks() == self.networks(),
            !(record.mode@ is Bridge),
            !(record.mode@ is Container) ==> record.ip_address is None,
        ensures
            after.wf(),
    {
        assert forall|other: Seq<char>| #[trigger]
            after.containers().dom().contains(other) implies after.record_ok(other) by {
            if other != id {
                assert(self.containers().dom().contains(other));
                assert(self.record_ok(other));
            }
        }
        assert forall|a: Seq<char>, b: Seq<char>|
            after.containers().dom().contains(a) && after.containers().dom().contains(
                b,
            ) implies #[trigger] after.apart(a, b) by {
            if a != id && b != id {
                assert(self.apart(a, b));
            }
        }
    }

    /// Records a container on the host's network.
    pub fn setup_host_network(&mut self, container_id: &str) -> (r: ContainerResult<NetworkSetup>)
        requires
            old(self).wf(),
        ensures
            final(self).wf(),
            old(self).host_setup(container_id@, setup_outcome(r), *final(self)),
    {
        let network = ContainerNetwork::plain(NetworkMode::Host);
        let copy = network.duplicate();
        self.container_networks.insert(String::from_str(container_id), copy);
        proof {
            assert(self.containers().dom() =~= old(self).containers().dom().insert(container_id@));
            old(self).lemma_filed_wf(container_id@, copy, *self);
        }
        let plan: Vec<Step> = Vec::new();
        assert(views(plan@) =~= Seq::<StepView>::empty());
        Ok(NetworkSetup { network, plan })
    }

    /// Records a container without network and plans bringing up the
    /// loopback interface in its namespace.
    pub fn setup_none_network(&mut self, container_id: &str, pid: i32) -> (r: ContainerResult<
        NetworkSetup,
    >)
        requires
            old(self).wf(),
        ensures
            final(self).wf(),
            old(self).none_setup(container_id@, pid, setup_outcome(r), *final(self)),
    {
        let ns = NetworkNamespace::from_pid(pid)?;
        let mut plan: Vec<Step> = Vec::new();
        push_step(&mut plan, ns.setup_loopback());
        let network = ContainerNetwork::plain(NetworkMode::Disabled);
        let copy = network.duplicate();
        self.container_networks.insert(String::from_str(container_id), copy);
        proof {
            assert(views(plan@) =~= seq![loopback_setup(pid)]);
            assert(self.containers().dom() =~= old(self).containers().dom().insert(container_id@));
            old(self).lemma_filed_wf(container_id@, copy, *self);
        }
        Ok(NetworkSetup { network, plan })
    }

    /// Records a container that shares the network of `target_container_id`.
    pub fn setup_container_network_shared(
        &mut self,
        container_id: &str,
        target_container_id: &str,
    ) -> (r: ContainerResult<NetworkSetup>)
        requires
            old(self).wf(),
        ensures
            final(self).wf(),
            old(self).shared_setup(
                container_id@,
                target_container_id@,
                setup_outcome(r),
                *final(self),
            ),
    {
        let (ip_address, gateway) = match self.container_networks.get(target_container_id) {
            Some(peer) => (peer.ip_address, peer.gateway),
            None => {
                let text = chars_of(target_container_id);
                return Err(
                    ContainerError::Network {
                        message: prefixed("Container not found: ", text.as_slice()),
                    },
                );
            },
        };
        let network = ContainerNetwork {
            mode: NetworkMode::Container { container_id: String::from_str(target_container_id) },
            ip_address,
            gateway,
            veth_host: None,
            veth_container: None,
            ports: Vec::new(),
        };
        let copy = network.duplicate();
        self.container_networks.insert(String::from_str(container_id), copy);
        proof {
            assert(self.containers().dom() =~= old(self).containers().dom().insert(container_id@));
            old(self).lemma_filed_wf(container_id@, copy, *self);
        }
        let plan: Vec<Step> = Vec::new();
        assert(views(plan@) =~= Seq::<StepView>::empty());
        Ok(NetworkSetup { network, plan })
    }
}


/// Plans the publication of `ports` of the container at `ip`.
pub fn plan_forwards(ports: &Vec<PortMapping>, ip: u32) -> (plan: Vec<Step>)
    ensures
        views(plan@) == forwards(ports@, ip),
{
    let mut plan: Vec<Step> = Vec::new();
    let mut i: usize = 0;
    assert(views(plan@) =~= forwards(ports@.take(0), ip));
    while i < ports.len()
        invariant
            i <= ports.len(),
            views(plan@) == forwards(ports@.take(i as int), ip),
        decreases ports.len() - i,
    {
        let port = ports[i];
        proof {
            let upto = ports@.take(i + 1);
            assert(upto.drop_last() =~= ports@.take(i as int));
            assert(upto.last() == port);
        }
        append_steps(
            &mut plan,
            add_port_forward(port.host_port, ip, port.container_port, port.protocol),
        );
        i += 1;
    }
    assert(ports@.take(i as int) =~= ports@);
    plan
}

/// Plans taking the publication of `ports` back, with whatever comes of
/// each step accepted.
pub fn plan_forward_removals(ports: &Vec<PortMapping>, ip: u32) -> (plan: Vec<Step>)
    ensures
        views(plan@) == forward_removals(ports@, ip),
{
    let mut plan: Vec<Step> = Vec::new();
    let mut i: usize = 0;
    assert(views(plan@) =~= forward_removals(ports@.take(0), ip));
    while i < ports.len()
        invariant
            i <= ports.len(),
            views(plan@) == forward_removals(ports@.take(i as int), ip),
        decreases ports.len() - i,
    {
        let port = ports[i];
        proof {
            let upto = ports@.take(i + 1);
            assert(upto.drop_last() =~= ports@.take(i as int));
            assert(upto.last() == port);
        }
        append_steps(
            &mut plan,
            ignore_all(remove_port_forward(port.host_port, ip, port.container_port, port.protocol)),
        );
        i += 1;
    }
    assert(ports@.take(i as int) =~= ports@);
    plan
}

impl NetworkManager {
    /// Gives a container an address on the bridge of `network_name`, records
    /// it, and plans its connection. `answered` tells which of the probed
    /// addresses answered.
    pub fn setup_bridge_network(
        &mut self,
        container_id: &str,
        pid: i32,
        network_name: &str,
        ports: Vec<PortMapping>,
        answered: &Vec<bool>,
    ) -> (r: ContainerResult<NetworkSetup>)
        requires
            old(self).wf(),
        ensures
            final(self).wf(),
            old(self).bridge_setup(
                container_id@,
                pid,
                network_name@,
                ports@,
                answered@,
                setup_outcome(r),
                *final(self),
            ),
    {
        let id = chars_of(container_id);
        let mut entry = match self.networks.remove(network_name) {
            Some(e) => e,
            None => {
                let text = chars_of(network_name);
                proof {
                    assert(self.networks() =~= old(self).networks());
                    old(self).lemma_same_wf(*self);
                }
                return Err(
                    ContainerError::Network {
                        message: prefixed("Network not found: ", text.as_slice()),
                    },
                );
            },
        };
        let ghost before = entry;
        assert(before == old(self).networks()[network_name@]);
        assert(before.wf());
        if id.len() < 17 {
            self.networks.insert(String::from_str(network_name), entry);
            proof {
                assert(self.networks() =~= old(self).networks());
                old(self).lemma_same_wf(*self);
            }
            return Err(
                ContainerError::Network {
                    message: prefixed("Invalid container id: ", id.as_slice()),
                },
            );
        }
        let allocated = entry.allocator.allocate(answered);
        let bridge_name = entry.bridge.name.clone();
        let prefix = entry.subnet.prefix;
        let gateway = entry.gateway;
        let ghost grown = entry;
        self.networks.insert(String::from_str(network_name), entry);
        proof {
            assert(self.networks().dom() =~= old(self).networks().dom());
            assert(self.networks()[network_name@] == grown);
            assert(old(self).same_networks_but(*self, network_name@));
            assert forall|ip: u32| before.held().contains(ip) implies grown.held().contains(ip) by {
                let taken = before.held().union(before.subnet.live(answered@));
                assert(taken.contains(ip));
            }
        }
        let ip = match allocated {
            Ok(ip) => ip,
            Err(e) => {
                proof {
                    assert forall|other: Seq<char>| #[trigger]
                        self.containers().dom().contains(other) implies self.record_ok(other) by {
                        assert(old(self).record_ok(other));
                    }
                    assert forall|a: Seq<char>, b: Seq<char>|
                        self.containers().dom().contains(a) && self.containers().dom().contains(
                            b,
                        ) implies #[trigger] self.apart(a, b) by {
                        assert(old(self).apart(a, b));
                    }
                }
                return Err(e);
            },
        };
        let mut suffix: Vec<char> = Vec::new();
        let mut i: usize = 10;
        while i < 17
            invariant
                10 <= i <= 17,
                id.len() >= 17,
                suffix@ == id@.subrange(10, i as int),
            decreases 17 - i,
        {
            suffix.push(id[i]);
            assert(suffix@ =~= id@.subrange(10, i + 1));
            i += 1;
        }
        let veth_host = prefixed("veth", suffix.as_slice());
        let veth_container = prefixed("vethc", suffix.as_slice());
        let ns = NetworkNamespace::from_pid(pid)?;
        let mut plan: Vec<Step> = Vec::new();
        push_step(&mut plan, create_veth_pair(veth_host.as_str(), veth_container.as_str()));
        let bridge = Bridge { name: bridge_name };
        append_steps(&mut plan, bridge.attach_interface(veth_host.as_str()));
        push_step(&mut plan, move_to_namespace(veth_container.as_str(), pid));
        push_step(&mut plan, ns.setup_loopback());
        push_step(&mut plan, ns.rename_interface(veth_container.as_str(), "eth0"));
        append_steps(&mut plan, ns.configure_interface("eth0", ip, prefix));
        push_step(&mut plan, ns.add_default_route("eth0", gateway));
        append_steps(&mut plan, plan_forwards(&ports, ip));
        let network = ContainerNetwork {
            mode: NetworkMode::Bridge { network_name: String::from_str(network_name) },
            ip_address: Some(ip),
            gateway: Some(gateway),
            veth_host: Some(veth_host),
            veth_container: Some(veth_container),
            ports,
        };
        let copy = network.duplicate();
        let ghost unrecorded = *self;
        self.container_networks.insert(String::from_str(container_id), copy);
        proof {
            assert(views(plan@) =~= bridge_connection(
                container_id@,
                pid,
                before.bridge.name@,
                ip,
                prefix,
                gateway,
                ports@,
            ));
            assert(self.containers().dom() =~= old(self).containers().dom().insert(container_id@));
            assert(network@ == bridge_record(container_id@, network_name@, ip, gateway, ports@));
            assert forall|other: Seq<char>| #[trigger]
                self.containers().dom().contains(other) implies self.record_ok(other) by {
                if other != container_id@ {
                    assert(old(self).record_ok(other));
                }
            }
            assert forall|a: Seq<char>, b: Seq<char>|
                self.containers().dom().contains(a) && self.containers().dom().contains(
                    b,
                ) implies #[trigger] self.apart(a, b) by {
                if a != container_id@ && b != container_id@ {
                    assert(old(self).apart(a, b));
                } else if a != b {
                    let other = if a == container_id@ { b } else { a };
                    assert(old(self).record_ok(other));
                }
            }
        }
        Ok(NetworkSetup { network, plan })
    }

    /// Gives a container its place in the network and plans what is to be
    /// done on the host for it. `answered` tells which of the addresses
    /// probed for a bridge network answered; the other modes do not read it.
    pub fn setup_container_network(
        &mut self,
        container_id: &str,
        pid: i32,
        mode: NetworkMode,
        ports: Vec<PortMapping>,
        answered: &Vec<bool>,
    ) -> (r: ContainerResult<NetworkSetup>)
        requires
            old(self).wf(),
        ensures
            final(self).wf(),
            old(self).container_setup(
                container_id@,
                pid,
                mode@,
                ports@,
                answered@,
                setup_outcome(r),
                *final(self),
            ),
    {
        match mode {
            NetworkMode::Bridge { network_name } => self.setup_bridge_network(
                container_id,
                pid,
                network_name.as_str(),
                ports,
                answered,
            ),
            NetworkMode::Host => self.setup_host_network(container_id),
            NetworkMode::Disabled => self.setup_none_network(container_id, pid),
            NetworkMode::Container { container_id: target_id } => {
                self.setup_container_network_shared(container_id, target_id.as_str())
            },
        }
    }

    /// The record of the container `container_id`, if it has one.
    pub fn container_network(&self, container_id: &str) -> (r: Option<ContainerNetwork>)
        requires
            self.wf(),
        ensures
            match r {
                Some(record) => self.containers().dom().contains(container_id@) && record@
                    == self.containers()[container_id@]@,
                None => !self.containers().dom().contains(container_id@),
            },
    {
        match self.container_networks.get(container_id) {
            Some(record) => Some(record.duplicate()),
            None => None,
        }
    }

    /// Whether a network is filed under `name`.
    pub fn has_network(&self, name: &str) -> (r: bool)
        requires
            self.wf(),
        ensures
            r == self.networks().dom().contains(name@),
    {
        self.networks.contains_key(name)
    }

    /// Whether the network `name` holds the address `ip`; a network that is
    /// not known holds nothing.
    pub fn holds(&self, name: &str, ip: u32) -> (r: bool)
        requires
            self.wf(),
        ensures
            r == (self.networks().dom().contains(name@) && self.networks()[name@].held().contains(
                ip,
            )),
    {
        match self.networks.get(name) {
            Some(entry) => entry.allocator.is_allocated(ip),
            None => false,
        }
    }

    /// The gateway of the network `name`, if that network is known.
    pub fn gateway_of(&self, name: &str) -> (r: Option<u32>)
        requires
            self.wf(),
        ensures
            r == if self.networks().dom().contains(name@) {
                Some(self.networks()[name@].gateway)
            } else {
                None
            },
    {
        match self.networks.get(name) {
            Some(entry) => Some(entry.gateway),
            None => None,
        }
    }

    /// The addresses to probe before a container is set up on the bridge of
    /// `network_name`; none for a network that is not known.
    pub fn scan_targets(&self, network_name: &str) -> (targets: Vec<u32>)
        requires
            self.wf(),
        ensures
            match self.networks().dom().contains(network_name@) {
                true => {
                    let subnet = self.networks()[network_name@].subnet;
                    &&& targets.len() == subnet.scan_len()
                    &&& forall|i: int| 0 <= i < targets.len() ==> targets[i] == subnet.at(2 + i)
                },
                false => targets.len() == 0,
            },
    {
        match self.networks.get(network_name) {
            Some(entry) => {
                assert(self.networks().dom().contains(network_name@));
                assert(self.networks()[network_name@].wf());
                entry.allocator.scan_targets()
            },
            None => Vec::new(),
        }
    }

    proof fn lemma_dropped_wf(&self, id: Seq<char>, after: NetworkManager)
        requires
            self.wf(),
            after.sound(),
            self.containers().dom().contains(id),
            after.containers() == self.containers().remove(id),
            ({
                let record = self.containers()[id]@;
                if record.mode is Bridge {
                    &&& self.same_networks_but(after, record.mode->network_name)
                    &&& after.networks()[record.mode->network_name].wf()
                    &&& after.networks()[record.mode->network_name].held()
                        == self.networks()[record.mode->network_name].held().remove(
                        record.ip_address->0,
                    )
                } else {
                    after.networks() == self.networks()
                }
            }),
        ensures
            after.wf(),
    {
        let record = self.containers()[id]@;
        assert(self.record_ok(id));
        assert forall|n: Seq<char>| #[trigger]
            after.networks().dom().contains(n) implies after.networks()[n].wf()
            && after.networks()[n].name@ == n by {
            assert(self.networks().dom().contains(n));
        }
        assert forall|other: Seq<char>| #[trigger]
            after.containers().dom().contains(other) implies after.record_ok(other) by {
            assert(self.containers().dom().contains(other));
            assert(self.record_ok(other));
            assert(self.apart(other, id));
            let r = self.containers()[other];
            if r.mode@ is Bridge {
                assert(self.networks().dom().contains(r.mode@->network_name));
            }
        }
        assert forall|a: Seq<char>, b: Seq<char>|
            after.containers().dom().contains(a) && after.containers().dom().contains(
                b,
            ) implies #[trigger] after.apart(a, b) by {
            assert(self.apart(a, b));
        }
    }

    /// Drops the record of a container, frees its address, and plans taking
    /// it off its bridge.
    pub fn cleanup_container_network(&mut self, container_id: &str) -> (plan: Vec<Step>)
        requires
            old(self).wf(),
        ensures
            final(self).wf(),
            old(self).cleaned(container_id@, views(plan@), *final(self)),
    {
        let mut plan: Vec<Step> = Vec::new();
        assert(views(plan@) =~= Seq::<StepView>::empty());
        let record = match self.container_networks.remove(container_id) {
            Some(r) => r,
            None => {
                proof {
                    assert(self.containers() =~= old(self).containers());
                    old(self).lemma_same_wf(*self);
                }
                return plan;
            },
        };
        proof {
            assert(old(self).record_ok(container_id@));
        }
        match &record.mode {
            NetworkMode::Bridge { network_name } => {
                match record.ip_address {
                    Some(ip) => {
                        append_steps(&mut plan, plan_forward_removals(&record.ports, ip));
                        match self.networks.remove(network_name.as_str()) {
                            Some(mut entry) => {
                                let ghost before = entry;
                                assert(before == old(self).networks()[network_name@]);
                                assert(before.wf());
                                entry.allocator.release(ip);
                                let ghost freed = entry;
                                self.networks.insert(network_name.clone(), entry);
                                proof {
                                    assert(self.networks().dom() =~= old(self).networks().dom());
                                    assert(self.networks()[network_name@] == freed);
                                    assert(freed.wf());
                                }
                            },
                            None => {
                                assert(false);
                            },
                        }
                    },
                    None => {
                        assert(false);
                    },
                }
                match &record.veth_host {
                    Some(name) => {
                        push_step(&mut plan, delete_veth(name.as_str()).ignored());
                    },
                    None => {},
                }
                proof {
                    assert(views(plan@) =~= disconnection(record@));
                    old(self).lemma_dropped_wf(container_id@, *self);
                }
            },
            _ => {
                proof {
                    old(self).lemma_dropped_wf(container_id@, *self);
                }
            },
        }
        plan
    }
}

impl NetworkManager {
    /// Whether a container is on the bridge of the network `name`.
    pub open spec fn in_use(&self, name: Seq<char>) -> bool {
        exists|id: Seq<char>| #[trigger]
            self.containers().dom().contains(id) && self.containers()[id].mode@
                == (NetworkModeView::Bridge { network_name: name })
    }

    /// What `delete_network` does. The default network stays, and so does a
    /// network that a container is on; both are errors. A network that is
    /// not known needs nothing. Otherwise the network is forgotten, and the
    /// plan removes its bridge and takes back the acceptance of its traffic.
    pub open spec fn network_deleted(
        &self,
        name: Seq<char>,
        r: Result<Seq<StepView>, ErrorView>,
        after: NetworkManager,
    ) -> bool {
        if name == "bridge"@ {
            r == Err::<Seq<StepView>, ErrorView>(
                network_failure("Cannot delete default bridge network"@),
            ) && self.same_as(after)
        } else if !self.networks().dom().contains(name) {
            r == Ok::<Seq<StepView>, ErrorView>(seq![]) && self.same_as(after)
        } else if self.in_use(name) {
            r == Err::<Seq<StepView>, ErrorView>(network_failure("Network is in use: "@ + name))
                && self.same_as(after)
        } else {
            let bridge = self.networks()[name].bridge.name@;
            &&& r == Ok::<Seq<StepView>, ErrorView>(
                seq![bridge_removal(bridge)] + nat_cleanup(bridge),
            )
            &&& after.networks() == self.networks().remove(name)
            &&& after.containers() == self.containers()
        }
    }

    fn uses(&self, name: &str) -> (r: bool)
        requires
            self.wf(),
        ensures
            r == self.in_use(name@),
    {
        let wanted = chars_of(name);
        let records = self.container_networks.values();
        proof {
            self.container_networks.lemma_entries();
        }
        let mut i: usize = 0;
        while i < records.len()
            invariant
                i <= records.len(),
                wanted@ == name@,
                self.wf(),
                records@ == self.container_networks.entries(),
                forall|j: int|
                    0 <= j < i ==> (#[trigger] records@[j]).mode@ != (NetworkModeView::Bridge {
                        network_name: name@,
                    }),
            decreases records.len() - i,
        {
            match &records[i].mode {
                NetworkMode::Bridge { network_name } => {
                    let on = chars_of(network_name.as_str());
                    if matches_whole(on.as_slice(), wanted.as_slice()) {
                        proof {
                            self.container_networks.lemma_entries();
                            assert(self.container_networks.files(records@[i as int]));
                            let id = choose|k: Seq<char>| #[trigger]
                                self.containers().dom().contains(k) && self.containers()[k]
                                    == records@[i as int];
                            assert(self.containers().dom().contains(id));
                        }
                        return true;
                    }
                },
                _ => {},
            }
            i += 1;
        }
        proof {
            assert forall|id: Seq<char>| #[trigger]
                self.containers().dom().contains(id) implies self.containers()[id].mode@ != (
            NetworkModeView::Bridge { network_name: name@ }) by {
                let record = self.containers()[id];
                assert(records@.contains(record));
                let j = choose|j: int| 0 <= j < records@.len() && records@[j] == record;
                assert(records@[j].mode@ != (NetworkModeView::Bridge { network_name: name@ }));
            }
        }
        false
    }

    /// Forgets the network `name` and plans taking it off the host.
    pub fn delete_network(&mut self, name: &str) -> (r: ContainerResult<Vec<Step>>)
        requires
            old(self).wf(),
        ensures
            final(self).wf(),
            old(self).network_deleted(name@, plan_outcome(r), *final(self)),
    {
        let text = chars_of(name);
        if same_text(text.as_slice(), "bridge") {
            return Err(
                ContainerError::Network {
                    message: String::from_str("Cannot delete default bridge network"),
                },
            );
        }
        if !self.networks.contains_key(name) {
            let plan: Vec<Step> = Vec::new();
            assert(views(plan@) =~= Seq::<StepView>::empty());
            return Ok(plan);
        }
        if self.uses(name) {
            return Err(
                ContainerError::Network {
                    message: prefixed("Network is in use: ", text.as_slice()),
                },
            );
        }
        let entry = match self.networks.remove(name) {
            Some(e) => e,
            None => {
                assert(false);
                return Ok(Vec::new());
            },
        };
        let mut plan: Vec<Step> = Vec::new();
        push_step(&mut plan, entry.bridge.delete());
        append_steps(&mut plan, cleanup_nat(entry.bridge.name.as_str()));
        proof {
            assert(views(plan@) =~= seq![bridge_removal(entry.bridge.name@)] + nat_cleanup(
                entry.bridge.name@,
            ));
            assert forall|n: Seq<char>| #[trigger]
                self.networks().dom().contains(n) implies self.networks()[n].wf()
                && self.networks()[n].name@ == n by {
                assert(old(self).networks().dom().contains(n));
            }
            assert forall|id: Seq<char>| #[trigger]
                self.containers().dom().contains(id) implies self.record_ok(id) by {
                assert(old(self).record_ok(id));
            }
            assert forall|a: Seq<char>, b: Seq<char>|
                self.containers().dom().contains(a) && self.containers().dom().contains(
                    b,
                ) implies #[trigger] self.apart(a, b) by {
                assert(old(self).apart(a, b));
            }
        }
        Ok(plan)
    }
}

/// Cleaning up twice is cleaning up once: after the record of a container
/// was dropped, a second cleanup of the same container plans nothing and
/// changes nothing.
pub proof fn lemma_cleanup_idempotent(
    start: NetworkManager,
    id: Seq<char>,
    first: Seq<StepView>,
    middle: NetworkManager,
    second: Seq<StepView>,
    end: NetworkManager,
)
    requires
        start.cleaned(id, first, middle),
        middle.cleaned(id, second, end),
    ensures
        second == Seq::<StepView>::empty(),
        middle.same_as(end),
{
}

} // verus!
