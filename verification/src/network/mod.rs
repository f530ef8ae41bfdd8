//! Container networking: modes, published ports, and what is recorded per container.

pub mod allocator;
pub mod bridge;
pub mod iptables;
pub mod net_manager;
pub mod network;
pub mod network_namespace;
pub mod rules;
pub mod subnet;
pub mod veth;

use crate::error::{network_failure, outcome_of, ContainerError, ContainerResult, ErrorView};
use crate::text::{
    chars_of, decimal_text, has_prefix, is_digit, joined, lemma_decimal_text_value,
    lemma_split_on_first, lemma_split_on_joined, lemma_split_on_whole, lowered, parse_unsigned,
    prefixed, same_text, split, split_on, starts_with, string_of, to_lower, unsigned_digits,
    unsigned_value, views,
};
use vstd::prelude::*;

verus! {

/// The transport protocol of a published port.
#[derive(Debug, Clone, Copy, PartialEq, Eq, Structural)]
pub enum Protocol {
    UDP,
    TCP,
}

/// One published port: traffic to `host_port` on the host reaches
/// `container_port` in the container.
#[derive(Debug, Clone, Copy, PartialEq, Eq, Structural)]
pub struct PortMapping {
    pub host_port: u16,
    pub container_port: u16,
    pub protocol: Protocol,
}

/// The protocol that `word` names, in any mix of upper and lower case.
pub open spec fn protocol_named(word: Seq<char>) -> Option<Protocol> {
    if lowered(word) == "tcp"@ {
        Some(Protocol::TCP)
    } else if lowered(word) == "udp"@ {
        Some(Protocol::UDP)
    } else {
        None
    }
}

/// What the text `HOST:CONTAINER[/PROTOCOL]` denotes.
///
/// The text is cut at `/`: what stands before it names the ports, what
/// stands after it the protocol, and there is at most one `/`. The number
/// of pieces is judged first, then the protocol, then the shape
/// `HOST:CONTAINER`, then each of the two numbers, which must fit in
/// sixteen bits. Every failure is a `Network` error.
pub open spec fn port_mapping_of(s: Seq<char>) -> Result<PortMapping, ErrorView> {
    let parts = split_on(s, '/');
    let ports = split_on(parts[0], ':');
    if parts.len() > 2 {
        Err(network_failure("Invalid port format: "@ + s))
    } else if parts.len() > 1 && protocol_named(parts[1]) is None {
        Err(network_failure("Invalid protocol: "@ + parts[1]))
    } else if ports.len() != 2 {
        Err(network_failure("Port mapping must be in format HOST:CONTAINER"@))
    } else if unsigned_value(ports[0], 65535) is None {
        Err(network_failure("Invalid host port: "@ + ports[0]))
    } else if unsigned_value(ports[1], 65535) is None {
        Err(network_failure("Invalid container port: "@ + ports[1]))
    } else {
        Ok(
            PortMapping {
                host_port: unsigned_value(ports[0], 65535).unwrap() as u16,
                container_port: unsigned_value(ports[1], 65535).unwrap() as u16,
                protocol: if parts.len() > 1 {
                    protocol_named(parts[1]).unwrap()
                } else {
                    Protocol::TCP
                },
            },
        )
    }
}

/// A port mapping as the user writes it: host port, `:`, container port,
/// `/`, protocol.
pub open spec fn port_mapping_text(m: PortMapping) -> Seq<char> {
    decimal_text(m.host_port as nat) + seq![':'] + decimal_text(m.container_port as nat) + seq![
        '/',
    ] + protocol_name(m.protocol)
}

/// A port mapping without protocol as the user writes it: host port, `:`,
/// container port.
pub open spec fn port_pair_text(host_port: u16, container_port: u16) -> Seq<char> {
    decimal_text(host_port as nat) + seq![':'] + decimal_text(container_port as nat)
}

proof fn lemma_decimal_text_plain(n: nat)
    ensures
        !decimal_text(n).contains(':'),
        !decimal_text(n).contains('/'),
{
    lemma_decimal_text_value(n);
    let t = decimal_text(n);
    assert forall|j: int| 0 <= j < t.len() implies t[j] != ':' && t[j] != '/' by {
        assert(is_digit(t[j]));
    }
}

proof fn lemma_port_pair(host_port: u16, container_port: u16)
    ensures
        !port_pair_text(host_port, container_port).contains('/'),
        split_on(port_pair_text(host_port, container_port), ':') == seq![
            decimal_text(host_port as nat),
            decimal_text(container_port as nat),
        ],
        unsigned_value(decimal_text(host_port as nat), 65535) == Some(host_port as nat),
        unsigned_value(decimal_text(container_port as nat), 65535) == Some(container_port as nat),
{
    let h = decimal_text(host_port as nat);
    let c = decimal_text(container_port as nat);
    lemma_decimal_text_plain(host_port as nat);
    lemma_decimal_text_plain(container_port as nat);
    lemma_decimal_text_value(host_port as nat);
    lemma_decimal_text_value(container_port as nat);
    let pair = port_pair_text(host_port, container_port);
    assert forall|j: int| 0 <= j < pair.len() implies pair[j] != '/' by {
        if j < h.len() {
            assert(h.contains(h[j]));
        } else if j > h.len() {
            assert(c.contains(c[j - h.len() - 1]));
        }
    }
    lemma_split_on_first(h, ':', c);
    lemma_split_on_whole(c, ':');
}

/// What is written as host port, `:`, container port, `/` and the name of
/// a protocol is read as exactly that port mapping.
pub proof fn lemma_port_mapping_read_back(m: PortMapping)
    ensures
        port_mapping_of(port_mapping_text(m)) == Ok::<PortMapping, ErrorView>(m),
{
    let pair = port_pair_text(m.host_port, m.container_port);
    let name = protocol_name(m.protocol);
    lemma_port_pair(m.host_port, m.container_port);
    reveal_strlit("tcp");
    reveal_strlit("udp");
    assert(!name.contains('/')) by {
        assert forall|j: int| 0 <= j < name.len() implies name[j] != '/' by {}
    }
    assert(lowered(name) =~= name);
    assert("udp"@[0] != "tcp"@[0]);
    lemma_split_on_first(pair, '/', name);
    lemma_split_on_whole(name, '/');
    assert(port_mapping_text(m) =~= pair + seq!['/'] + name);
    let parts = split_on(port_mapping_text(m), '/');
    assert(parts == seq![pair, name]);
    assert(parts[0] == pair);
    assert(parts[1] == name);
}

/// What is written as host port, `:`, container port is read as that
/// port mapping for TCP.
pub proof fn lemma_port_pair_read_back(host_port: u16, container_port: u16)
    ensures
        port_mapping_of(port_pair_text(host_port, container_port)) == Ok::<PortMapping, ErrorView>(
            PortMapping { host_port, container_port, protocol: Protocol::TCP },
        ),
{
    let pair = port_pair_text(host_port, container_port);
    lemma_port_pair(host_port, container_port);
    lemma_split_on_whole(pair, '/');
    assert(split_on(pair, '/')[0] == pair);
}

/// Whether `s` is written as the grammar `HOST:CONTAINER[/PROTOCOL]` asks:
/// `host` and `container` are numbers of at most sixteen bits, and `word`,
/// if there is one, names a protocol and holds no `/`.
pub open spec fn port_shape(
    s: Seq<char>,
    host: Seq<char>,
    container: Seq<char>,
    word: Option<Seq<char>>,
) -> bool {
    &&& unsigned_value(host, 65535) is Some
    &&& unsigned_value(container, 65535) is Some
    &&& match word {
        None => s == host + seq![':'] + container,
        Some(w) => !w.contains('/') && protocol_named(w) is Some && s == host + seq![':']
            + container + seq!['/'] + w,
    }
}

proof fn lemma_number_plain(s: Seq<char>)
    requires
        unsigned_value(s, 65535) is Some,
    ensures
        !s.contains(':'),
        !s.contains('/'),
{
    let body = unsigned_digits(s);
    assert forall|j: int| 0 <= j < s.len() implies s[j] != ':' && s[j] != '/' by {
        if s.len() > 0 && s[0] == '+' {
            if j > 0 {
                assert(body[j - 1] == s[j]);
                assert(is_digit(body[j - 1]));
            }
        } else {
            assert(body[j] == s[j]);
            assert(is_digit(body[j]));
        }
    }
}

/// A text is read as a port mapping exactly when it is written as the
/// grammar asks, and then the mapping is the one it denotes: the two
/// numbers, and the protocol that is named, or TCP where none is.
pub proof fn lemma_port_mapping_grammar(s: Seq<char>)
    ensures
        port_mapping_of(s) is Ok <==> exists|
            host: Seq<char>,
            container: Seq<char>,
            word: Option<Seq<char>>,
        | #[trigger] port_shape(s, host, container, word),
        port_mapping_of(s) matches Err(e) ==> e.kind == crate::error::ErrorKind::Network,
        forall|host: Seq<char>, container: Seq<char>, word: Option<Seq<char>>| #[trigger]
            port_shape(s, host, container, word) ==> port_mapping_of(s) == Ok::<
                PortMapping,
                ErrorView,
            >(
                PortMapping {
                    host_port: unsigned_value(host, 65535)->0 as u16,
                    container_port: unsigned_value(container, 65535)->0 as u16,
                    protocol: match word {
                        Some(w) => protocol_named(w)->0,
                        None => Protocol::TCP,
                    },
                },
            ),
{
    assert forall|host: Seq<char>, container: Seq<char>, word: Option<Seq<char>>| #[trigger]
        port_shape(s, host, container, word) implies port_mapping_of(s) == Ok::<
        PortMapping,
        ErrorView,
    >(
        PortMapping {
            host_port: unsigned_value(host, 65535)->0 as u16,
            container_port: unsigned_value(container, 65535)->0 as u16,
            protocol: match word {
                Some(w) => protocol_named(w)->0,
                None => Protocol::TCP,
            },
        },
    ) by {
        lemma_number_plain(host);
        lemma_number_plain(container);
        let pair = host + seq![':'] + container;
        assert forall|j: int| 0 <= j < pair.len() implies pair[j] != '/' by {
            if j < host.len() {
                assert(host.contains(host[j]));
            } else if j > host.len() {
                assert(container.contains(container[j - host.len() - 1]));
            }
        }
        lemma_split_on_first(host, ':', container);
        lemma_split_on_whole(container, ':');
        match word {
            None => {
                lemma_split_on_whole(pair, '/');
                assert(split_on(s, '/')[0] == pair);
            },
            Some(w) => {
                lemma_split_on_first(pair, '/', w);
                lemma_split_on_whole(w, '/');
                let parts = split_on(s, '/');
                assert(parts == seq![pair, w]);
                assert(parts[0] == pair && parts[1] == w);
            },
        }
    }
    if port_mapping_of(s) is Ok {
        let parts = split_on(s, '/');
        let ports = split_on(parts[0], ':');
        lemma_split_on_joined(s, '/');
        lemma_split_on_joined(parts[0], ':');
        assert(ports.skip(1).len() == 1);
        assert(joined(ports.skip(1), ':') == ports[1]);
        assert(joined(ports, ':') == ports[0] + seq![':'] + ports[1]);
        if parts.len() == 1 {
            assert(joined(parts, '/') == parts[0]);
            assert(port_shape(s, ports[0], ports[1], None));
        } else {
            assert(parts.skip(1).len() == 1);
            assert(joined(parts.skip(1), '/') == parts[1]);
            assert(joined(parts, '/') == parts[0] + seq!['/'] + parts[1]);
            assert(port_shape(s, ports[0], ports[1], Some(parts[1])));
        }
    }
}

/// A text with more than one `/` is no port mapping, whatever stands
/// between and after them.
pub proof fn lemma_second_slash_refused(first: Seq<char>, second: Seq<char>, rest: Seq<char>)
    requires
        !first.contains('/'),
        !second.contains('/'),
    ensures
        port_mapping_of(first + seq!['/'] + second + seq!['/'] + rest) == Err::<
            PortMapping,
            ErrorView,
        >(
            network_failure(
                "Invalid port format: "@ + (first + seq!['/'] + second + seq!['/'] + rest),
            ),
        ),
{
    let s = first + seq!['/'] + second + seq!['/'] + rest;
    assert(s =~= first + seq!['/'] + (second + seq!['/'] + rest));
    lemma_split_on_first(first, '/', second + seq!['/'] + rest);
    lemma_split_on_first(second, '/', rest);
    lemma_split_on_joined(rest, '/');
    assert(split_on(s, '/').len() >= 3);
}

impl Protocol {
    /// The protocol that `word` names, in any mix of upper and lower case.
    pub fn named(word: &[char]) -> (p: Option<Protocol>)
        ensures
            p == protocol_named(word@),
    {
        let lower = to_lower(word);
        if same_text(lower.as_slice(), "tcp") {
            Some(Protocol::TCP)
        } else if same_text(lower.as_slice(), "udp") {
            Some(Protocol::UDP)
        } else {
            None
        }
    }

    /// The name of the protocol as `iptables` spells it.
    pub fn name(&self) -> (s: &'static str)
        ensures
            s@ == protocol_name(*self),
    {
        match self {
            Protocol::TCP => "tcp",
            Protocol::UDP => "udp",
        }
    }
}

/// The name of a protocol as `iptables` spells it.
pub open spec fn protocol_name(p: Protocol) -> Seq<char> {
    match p {
        Protocol::TCP => "tcp"@,
        Protocol::UDP => "udp"@,
    }
}

impl PortMapping {
    /// Reads a port publication written as `HOST:CONTAINER[/tcp|/udp]`.
    pub fn parse(s: &str) -> (r: ContainerResult<PortMapping>)
        ensures
            outcome_of(r) == port_mapping_of(s@),
    {
        let text = chars_of(s);
        let parts = split(text.as_slice(), '/');
        let ports = split(parts[0].as_slice(), ':');
        assert(views(parts@)[0] == parts@[0]@);
        if parts.len() > 2 {
            return Err(
                ContainerError::Network {
                    message: prefixed("Invalid port format: ", text.as_slice()),
                },
            );
        }
        let protocol = if parts.len() > 1 {
            assert(views(parts@)[1] == parts@[1]@);
            match Protocol::named(parts[1].as_slice()) {
                Some(p) => p,
                None => {
                    return Err(
                        ContainerError::Network {
                            message: prefixed("Invalid protocol: ", parts[1].as_slice()),
                        },
                    );
                },
            }
        } else {
            Protocol::TCP
        };
        if ports.len() != 2 {
            return Err(
                ContainerError::Network {
                    message: String::from_str("Port mapping must be in format HOST:CONTAINER"),
                },
            );
        }
        assert(views(ports@)[0] == ports@[0]@);
        assert(views(ports@)[1] == ports@[1]@);
        let host_port: u16 = match parse_unsigned(ports[0].as_slice(), 65535) {
            Some(n) => n as u16,
            None => {
                return Err(
                    ContainerError::Network {
                        message: prefixed("Invalid host port: ", ports[0].as_slice()),
                    },
                );
            },
        };
        let container_port: u16 = match parse_unsigned(ports[1].as_slice(), 65535) {
            Some(n) => n as u16,
            None => {
                return Err(
                    ContainerError::Network {
                        message: prefixed("Invalid container port: ", ports[1].as_slice()),
                    },
                );
            },
        };
        Ok(PortMapping { host_port, container_port, protocol })
    }
}


/// How a container is connected.
#[derive(Debug, Clone, PartialEq, Eq)]
pub enum NetworkMode {
    /// Its own namespace, joined to the named network through a bridge.
    Bridge { network_name: String },
    /// The host's namespace.
    Host,
    /// Its own namespace with nothing but the loopback interface.
    Disabled,
    /// The namespace of another container.
    Container { container_id: String },
}

/// `NetworkMode`, with every text as the sequence of its characters.
pub enum NetworkModeView {
    Bridge { network_name: Seq<char> },
    Host,
    Disabled,
    Container { container_id: Seq<char> },
}

impl View for NetworkMode {
    type V = NetworkModeView;

    open spec fn view(&self) -> NetworkModeView {
        match self {
            NetworkMode::Bridge { network_name } => NetworkModeView::Bridge {
                network_name: network_name@,
            },
            NetworkMode::Host => NetworkModeView::Host,
            NetworkMode::Disabled => NetworkModeView::Disabled,
            NetworkMode::Container { container_id } => NetworkModeView::Container {
                container_id: container_id@,
            },
        }
    }
}

/// The mode that the text of the `--network` option asks for: `host`, `none`,
/// `container:` and the other container's id, or `bridge`. Any other text
/// asks for the default network, `bridge`, too.
pub open spec fn network_mode_of(s: Seq<char>) -> NetworkModeView {
    if has_prefix(s, "container:"@) {
        NetworkModeView::Container { container_id: s.skip("container:"@.len() as int) }
    } else if s == "host"@ {
        NetworkModeView::Host
    } else if s == "none"@ {
        NetworkModeView::Disabled
    } else {
        NetworkModeView::Bridge { network_name: "bridge"@ }
    }
}

impl NetworkMode {
    /// Reads the text of the `--network` option.
    pub fn parse(s: &str) -> (m: NetworkMode)
        ensures
            m@ == network_mode_of(s@),
    {
        let text = chars_of(s);
        let prefix = chars_of("container:");
        if starts_with(text.as_slice(), prefix.as_slice()) {
            let mut rest: Vec<char> = Vec::new();
            let mut i: usize = prefix.len();
            while i < text.len()
                invariant
                    prefix.len() <= i <= text.len(),
                    rest@ == text@.subrange(prefix.len() as int, i as int),
                decreases text.len() - i,
            {
                rest.push(text[i]);
                assert(rest@ =~= text@.subrange(prefix.len() as int, i + 1));
                i += 1;
            }
            assert(rest@ =~= text@.skip(prefix.len() as int));
            NetworkMode::Container { container_id: string_of(rest.as_slice()) }
        } else if same_text(text.as_slice(), "host") {
            NetworkMode::Host
        } else if same_text(text.as_slice(), "none") {
            NetworkMode::Disabled
        } else {
            NetworkMode::Bridge { network_name: String::from_str("bridge") }
        }
    }

    /// A copy of this mode.
    pub fn duplicate(&self) -> (m: NetworkMode)
        ensures
            m@ == self@,
    {
        match self {
            NetworkMode::Bridge { network_name } => NetworkMode::Bridge {
                network_name: network_name.clone(),
            },
            NetworkMode::Host => NetworkMode::Host,
            NetworkMode::Disabled => NetworkMode::Disabled,
            NetworkMode::Container { container_id } => NetworkMode::Container {
                container_id: container_id.clone(),
            },
        }
    }

    /// Whether the container gets a network namespace of its own, which is
    /// the case in every mode but `Host`.
    pub fn isolates(&self) -> (r: bool)
        ensures
            r == !(self@ is Host),
    {
        match self {
            NetworkMode::Host => false,
            _ => true,
        }
    }
}

/// What the manager records of one container's network.
#[derive(Debug, Clone, PartialEq, Eq)]
pub struct ContainerNetwork {
    pub mode: NetworkMode,
    pub ip_address: Option<u32>,
    pub gateway: Option<u32>,
    pub veth_host: Option<String>,
    pub veth_container: Option<String>,
    pub ports: Vec<PortMapping>,
}

/// `ContainerNetwork`, with every text as the sequence of its characters.
pub struct ContainerNetworkView {
    pub mode: NetworkModeView,
    pub ip_address: Option<u32>,
    pub gateway: Option<u32>,
    pub veth_host: Option<Seq<char>>,
    pub veth_container: Option<Seq<char>>,
    pub ports: Seq<PortMapping>,
}

/// The text of a string that may be missing.
pub open spec fn opt_text(s: Option<String>) -> Option<Seq<char>> {
    match s {
        Some(t) => Some(t@),
        None => None,
    }
}

impl View for ContainerNetwork {
    type V = ContainerNetworkView;

    open spec fn view(&self) -> ContainerNetworkView {
        ContainerNetworkView {
            mode: self.mode@,
            ip_address: self.ip_address,
            gateway: self.gateway,
            veth_host: opt_text(self.veth_host),
            veth_container: opt_text(self.veth_container),
            ports: self.ports@,
        }
    }
}

/// A copy of a list of published ports.
pub fn copy_ports(ports: &Vec<PortMapping>) -> (r: Vec<PortMapping>)
    ensures
        r@ == ports@,
{
    let mut r: Vec<PortMapping> = Vec::new();
    let mut i: usize = 0;
    while i < ports.len()
        invariant
            i <= ports.len(),
            r@ == ports@.take(i as int),
        decreases ports.len() - i,
    {
        r.push(ports[i]);
        assert(r@ =~= ports@.take(i + 1));
        i += 1;
    }
    assert(ports@.take(i as int) =~= ports@);
    r
}

/// A copy of a string that may be missing.
pub fn copy_opt(s: &Option<String>) -> (r: Option<String>)
    ensures
        opt_text(r) == opt_text(*s),
{
    match s {
        Some(t) => Some(t.clone()),
        None => None,
    }
}

impl ContainerNetwork {
    /// A copy of this record.
    pub fn duplicate(&self) -> (r: ContainerNetwork)
        ensures
            r@ == self@,
    {
        ContainerNetwork {
            mode: self.mode.duplicate(),
            ip_address: self.ip_address,
            gateway: self.gateway,
            veth_host: copy_opt(&self.veth_host),
            veth_container: copy_opt(&self.veth_container),
            ports: copy_ports(&self.ports),
        }
    }

    /// The record of a container without addresses or ports.
    pub fn plain(mode: NetworkMode) -> (r: ContainerNetwork)
        ensures
            r@ == unaddressed(mode@),
    {
        ContainerNetwork {
            mode,
            ip_address: None,
            gateway: None,
            veth_host: None,
            veth_container: None,
            ports: Vec::new(),
        }
    }
}

/// The record of a container without addresses, interfaces or ports.
pub open spec fn unaddressed(mode: NetworkModeView) -> ContainerNetworkView {
    ContainerNetworkView {
        mode,
        ip_address: None,
        gateway: None,
        veth_host: None,
        veth_container: None,
        ports: Seq::empty(),
    }
}

} // verus!
