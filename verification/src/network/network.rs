//! The network part of a request: a mode and the ports to publish.

use crate::error::{ContainerResult, ErrorView};
use crate::network::{network_mode_of, port_mapping_of, NetworkMode, PortMapping};
use vstd::prelude::*;

verus! {

/// The network that a container asks for.
#[derive(Debug, Clone, PartialEq, Eq)]
pub struct NetworkConfig {
    pub mode: NetworkMode,
    pub ports: Vec<PortMapping>,
}

/// What `add_port_mapping` comes to for a list of ports and one more text:
/// the list with the mapping that the text denotes at its end, or the error
/// of the text.
pub open spec fn with_port(ports: Seq<PortMapping>, text: Seq<char>) -> Result<
    Seq<PortMapping>,
    ErrorView,
> {
    match port_mapping_of(text) {
        Ok(mapping) => Ok(ports.push(mapping)),
        Err(e) => Err(e),
    }
}

impl NetworkConfig {
    /// The request for the network that `network_str` names, without ports.
    pub fn parse(network_str: &str) -> (r: ContainerResult<NetworkConfig>)
        ensures
            r matches Ok(config) && config.mode@ == network_mode_of(network_str@) && config.ports@
                == Seq::<PortMapping>::empty(),
    {
        Ok(NetworkConfig { mode: NetworkMode::parse(network_str), ports: Vec::new() })
    }

    /// Adds the port mapping that `port_str` denotes. A text that denotes
    /// none is an error, and the request stays as it is.
    pub fn add_port_mapping(&mut self, port_str: &str) -> (r: ContainerResult<()>)
        ensures
            final(self).mode == old(self).mode,
            match with_port(old(self).ports@, port_str@) {
                Ok(ports) => r is Ok && final(self).ports@ == ports,
                Err(e) => r matches Err(f) && f@ == e && final(self).ports@ == old(self).ports@,
            },
    {
        match PortMapping::parse(port_str) {
            Ok(mapping) => {
                self.ports.push(mapping);
                Ok(())
            },
            Err(e) => Err(e),
        }
    }
}

} // verus!
