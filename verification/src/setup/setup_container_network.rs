//! The network of a container, as the supervising process sets it up and
//! takes it down.

use crate::cli::ContainerConfig;
use crate::command::{push_step, HostCommand, Policy, PolicyView, Step, StepView};
use crate::error::{described, network_failure, ContainerError, ContainerResult, ErrorView};
use crate::network::allocator::IpAllocator;
use crate::network::iptables::{hairpin, hairpin_rule};
use crate::network::net_manager::{plan_outcome, NetworkManager};
use crate::network::subnet::ipv4_text;
use crate::network::{copy_ports, ContainerNetworkView, NetworkMode, NetworkModeView};
use crate::text::views;
use vstd::prelude::*;

verus! {

/// What the supervising process makes of the manager's answer: the plan,
/// or a `Network` error that says that the setup failed and why.
pub open spec fn parent_outcome(
    inner: Result<(ContainerNetworkView, Seq<StepView>), ErrorView>,
) -> Result<Seq<StepView>, ErrorView> {
    match inner {
        Ok(made) => Ok(made.1),
        Err(e) => Err(network_failure("Failed to setup network: "@ + described(e))),
    }
}

/// The subnet of the default network in CIDR notation.
pub open spec fn default_subnet_text() -> Seq<char> {
    "172.18.0.0/16"@
}

/// The networks whose addresses are probed before the container of
/// `config` is set up: the network of a bridge mode, and none otherwise.
pub fn probed_network(config: &ContainerConfig) -> (name: Option<String>)
    ensures
        match config.network_mode@ {
            NetworkModeView::Bridge { network_name } => name matches Some(n) && n@
                == network_name,
            _ => name is None,
        },
{
    match &config.network_mode {
        NetworkMode::Bridge { network_name } => Some(network_name.clone()),
        _ => None,
    }
}

/// The probes to run before the container of `config` is set up, one for
/// each address that the manager wants probed, in the manager's order.
pub fn scan_plan(manager: &NetworkManager, config: &ContainerConfig) -> (probes: Vec<HostCommand>)
    requires
        manager.wf(),
    ensures
        match config.network_mode@ {
            NetworkModeView::Bridge { network_name } => if manager.networks().dom().contains(
                network_name,
            ) {
                let subnet = manager.networks()[network_name].subnet;
                &&& probes.len() == subnet.scan_len()
                &&& forall|i: int|
                    0 <= i < probes.len() ==> (#[trigger] probes[i])@.program == "ping"@
                        && probes[i]@.args == seq![
                        "-c"@,
                        "1"@,
                        "-W"@,
                        "1"@,
                        ipv4_text(subnet.at(2 + i) as u32),
                    ]
            } else {
                probes.len() == 0
            },
            _ => probes.len() == 0,
        },
{
    let mut probes: Vec<HostCommand> = Vec::new();
    match probed_network(config) {
        Some(name) => {
            let targets = manager.scan_targets(name.as_str());
            let ghost known = manager.networks().dom().contains(name@);
            let ghost subnet = manager.networks()[name@].subnet;
            let mut i: usize = 0;
            while i < targets.len()
                invariant
                    i <= targets.len(),
                    probes.len() == i,
                    known ==> forall|k: int|
                        0 <= k < targets.len() ==> targets[k] == subnet.at(2 + k),
                    forall|k: int|
                        0 <= k < i ==> (#[trigger] probes[k])@.program == "ping"@ && probes[k]@.args
                            == seq!["-c"@, "1"@, "-W"@, "1"@, ipv4_text(targets[k])],
                decreases targets.len() - i,
            {
                probes.push(IpAllocator::probe(targets[i]));
                i += 1;
            }
            probes
        },
        None => probes,
    }
}

/// Sets up the network of the container `container_id`, whose process is
/// `child_pid`, in the mode and with the ports of `config`. `answered`
/// tells which of the probes of `scan_plan` were answered.
pub fn setup_container_network_parent(
    manager: &mut NetworkManager,
    container_id: &str,
    child_pid: i32,
    config: &ContainerConfig,
    answered: &Vec<bool>,
) -> (r: ContainerResult<Vec<Step>>)
    requires
        old(manager).wf(),
    ensures
        final(manager).wf(),
        exists|inner: Result<(ContainerNetworkView, Seq<StepView>), ErrorView>|
            #[trigger] old(manager).container_setup(
                container_id@,
                child_pid,
                config.network_mode@,
                config.ports@,
                answered@,
                inner,
                *final(manager),
            ) && plan_outcome(r) == parent_outcome(inner),
{
    let mode = config.network_mode.duplicate();
    let ports = copy_ports(&config.ports);
    let made = manager.setup_container_network(container_id, child_pid, mode, ports, answered);
    let ghost inner = crate::network::net_manager::setup_outcome(made);
    let r = match made {
        Ok(setup) => Ok(setup.plan),
        Err(e) => {
            let mut message = String::from_str("Failed to setup network: ");
            let why = e.describe();
            message.append(why.as_str());
            Err(ContainerError::Network { message })
        },
    };
    assert(old(manager).container_setup(
        container_id@,
        child_pid,
        config.network_mode@,
        config.ports@,
        answered@,
        inner,
        *manager,
    ) && plan_outcome(r) == parent_outcome(inner));
    r
}

/// Takes the network of the container `container_id` down: what the
/// manager plans for it, and then the removal of the rule that masquerades
/// traffic from 127.0.0.1 to the default network. Whatever comes of that
/// last step is accepted.
pub fn cleanup_container_network(manager: &mut NetworkManager, container_id: &str) -> (plan: Vec<
    Step,
>)
    requires
        old(manager).wf(),
    ensures
        final(manager).wf(),
        views(plan@).len() >= 1,
        views(plan@).last() == hairpin_rule("-D"@, default_subnet_text(), PolicyView::Ignore),
        old(manager).cleaned(container_id@, views(plan@).drop_last(), *final(manager)),
{
    let mut plan = manager.cleanup_container_network(container_id);
    let ghost before = views(plan@);
    push_step(&mut plan, hairpin("-D", "172.18.0.0/16", Policy::Ignore));
    assert(views(plan@).drop_last() =~= before);
    plan
}

} // verus!
