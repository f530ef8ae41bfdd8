//! The user's request, as the command line hands it over.

use crate::network::{network_mode_of, port_mapping_of, NetworkMode, PortMapping};
use crate::text::views;
use vstd::prelude::*;

verus! {

/// What the user asks for.
#[derive(Debug, Clone, PartialEq, Eq)]
pub struct ContainerConfig {
    pub rootfs: String,
    pub command: String,
    pub args: Vec<String>,
    pub hostname: Option<String>,
    pub memory_limit_mb: Option<u64>,
    pub pids_limit: Option<i64>,
    pub cpu_percent: Option<u64>,
    pub volumes: Vec<String>,
    pub network_mode: NetworkMode,
    pub ports: Vec<PortMapping>,
    pub logs: Option<bool>,
}

/// The values of the command line, option by option, before they are read.
#[derive(Debug, Clone, PartialEq, Eq)]
pub struct CliValues {
    pub rootfs: String,
    pub command: String,
    pub args: Vec<String>,
    pub hostname: Option<String>,
    pub memory: Option<u64>,
    pub cpu: Option<u64>,
    pub pids: Option<i64>,
    pub log: Option<bool>,
    pub volumes: Vec<String>,
    pub network: Option<String>,
    pub ports: Vec<String>,
}

/// The host name of a container that was given none.
pub open spec fn default_hostname() -> Seq<char> {
    "rust-container"@
}

/// The published ports among `specs`: every text that denotes a port
/// mapping, in the order of the texts. The others are passed over.
pub open spec fn published(specs: Seq<Seq<char>>) -> Seq<PortMapping>
    decreases specs.len(),
{
    if specs.len() == 0 {
        Seq::empty()
    } else {
        match port_mapping_of(specs.last()) {
            Ok(mapping) => published(specs.drop_last()).push(mapping),
            Err(_) => published(specs.drop_last()),
        }
    }
}

/// The text of the `--network` option, which is `bridge` where it is not given.
pub open spec fn network_text(network: Option<String>) -> Seq<char> {
    match network {
        Some(s) => s@,
        None => "bridge"@,
    }
}

/// Reads the published ports among `specs`.
pub fn parse_ports(specs: &Vec<String>) -> (ports: Vec<PortMapping>)
    ensures
        ports@ == published(views(specs@)),
{
    let ghost all = views(specs@);
    let mut ports: Vec<PortMapping> = Vec::new();
    let mut i: usize = 0;
    assert(all.take(0) =~= Seq::<Seq<char>>::empty());
    while i < specs.len()
        invariant
            i <= specs.len(),
            all == views(specs@),
            ports@ == published(all.take(i as int)),
        decreases specs.len() - i,
    {
        proof {
            let upto = all.take(i + 1);
            assert(upto.drop_last() =~= all.take(i as int));
            assert(upto.last() == specs@[i as int]@);
        }
        match PortMapping::parse(specs[i].as_str()) {
            Ok(mapping) => {
                ports.push(mapping);
            },
            Err(_) => {},
        }
        i += 1;
    }
    assert(all.take(i as int) =~= all);
    ports
}

/// Reads the values of the command line into the user's request: the
/// network mode is read from its text, the ports from theirs, and everything
/// else is taken as it is.
pub fn parse_args(values: CliValues) -> (config: ContainerConfig)
    ensures
        config.rootfs == values.rootfs,
        config.command == values.command,
        config.args == values.args,
        config.hostname == values.hostname,
        config.memory_limit_mb == values.memory,
        config.cpu_percent == values.cpu,
        config.pids_limit == values.pids,
        config.logs == values.log,
        config.volumes == values.volumes,
        config.network_mode@ == network_mode_of(network_text(values.network)),
        config.ports@ == published(views(values.ports@)),
{
    let network_mode = match &values.network {
        Some(s) => NetworkMode::parse(s.as_str()),
        None => NetworkMode::parse("bridge"),
    };
    let ports = parse_ports(&values.ports);
    ContainerConfig {
        rootfs: values.rootfs,
        command: values.command,
        args: values.args,
        hostname: values.hostname,
        memory_limit_mb: values.memory,
        pids_limit: values.pids,
        cpu_percent: values.cpu,
        volumes: values.volumes,
        network_mode,
        ports,
        logs: values.log,
    }
}

impl ContainerConfig {
    /// The host name of the container: the one asked for, or `rust-container`.
    pub fn hostname_or_default(&self) -> (name: String)
        ensures
            name@ == match self.hostname {
                Some(h) => h@,
                None => default_hostname(),
            },
    {
        match &self.hostname {
            Some(h) => h.clone(),
            None => String::from_str("rust-container"),
        }
    }

    /// Whether any resource limit is asked for.
    pub fn has_limits(&self) -> (r: bool)
        ensures
            r == (self.memory_limit_mb is Some || self.cpu_percent is Some || self.pids_limit
                is Some),
    {
        self.memory_limit_mb.is_some() || self.cpu_percent.is_some() || self.pids_limit.is_some()
    }
}

} // verus!
