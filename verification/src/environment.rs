//! A model of what surrounds the agent: the kernel's networking state,
//! the channel to it, and the host channel. The model answers the agent's
//! operations, so that a whole boot can be followed from the first
//! operation to the last and the state it leaves can be stated.

use vstd::prelude::*;
use crate::config::ConfigView;
use crate::error::{BootstrapError, Fault};
use crate::machine::{operation, stage_after, successor, Action, EventView, Phase, Stage};
use crate::model::{AddressAssignment, Link, RouteEntry};
use crate::resolver::{lemma_lookup_sound, lookup};
use crate::trace::{
    issued, issued_at, law_bind_follows_bootstrap, law_configuration_in_order,
    lemma_unfailed_run_is_on_plan, plan, resolved_index,
};
use crate::vsock::ChannelEndpoint;

verus! {

/// The kernel's networking state, as far as the agent touches it.
pub struct KernelState {
    /// The interfaces that exist.
    pub links: Seq<Link>,
    /// The addresses attached to interfaces.
    pub addresses: Set<AddressAssignment>,
    /// The indices of the interfaces that are administratively up.
    pub links_up: Set<u32>,
    /// The routes, in the order they were installed.
    pub routes: Seq<RouteEntry>,
}

impl KernelState {
    /// Some interface has the index.
    pub open spec fn has_index(self, index: u32) -> bool {
        exists|i: int| 0 <= i < self.links.len() && (#[trigger] self.links[i]).index == index
    }

    /// Nothing is configured: no address, no interface up, no route.
    pub open spec fn unconfigured(self) -> bool {
        self.addresses == Set::<AddressAssignment>::empty() && self.links_up == Set::<u32>::empty()
            && self.routes == Seq::<RouteEntry>::empty()
    }

    /// The state after the kernel has carried out `action`. Only the three
    /// operations that configure the interface change it.
    pub open spec fn apply(self, action: Action) -> KernelState {
        match action {
            Action::AssignAddress(assignment) => KernelState {
                addresses: self.addresses.insert(assignment),
                ..self
            },
            Action::SetLinkUp { index } => KernelState {
                links_up: self.links_up.insert(index),
                ..self
            },
            Action::AddDefaultRoute(route) => KernelState {
                routes: self.routes.push(route),
                ..self
            },
            _ => self,
        }
    }

    /// The interface that `action` is about exists. The kernel refuses a
    /// request about an interface that does not.
    pub open spec fn accepts(self, action: Action) -> bool {
        match action {
            Action::AssignAddress(assignment) => self.has_index(assignment.index),
            Action::SetLinkUp { index } => self.has_index(index),
            Action::AddDefaultRoute(route) => self.has_index(route.input_interface_index),
            _ => true,
        }
    }

    /// The state that a boot leaves which configured the interface `index`
    /// as `config` says: the address on it, the link up, and the default
    /// route through it last among the routes.
    pub open spec fn configured(self, config: ConfigView, index: u32) -> KernelState {
        KernelState {
            links: self.links,
            addresses: self.addresses.insert(
                AddressAssignment {
                    index,
                    address: config.address,
                    prefix_length: config.prefix_length,
                },
            ),
            links_up: self.links_up.insert(index),
            routes: self.routes.push(RouteEntry::default_route(index, config.gateway)),
        }
    }
}

/// Everything around the agent.
pub struct Environment {
    pub kernel: KernelState,
    /// The channel to the kernel is open.
    pub channel_open: bool,
    /// Whether the pump task, once spawned, is ever scheduled.
    pub pump_scheduled: bool,
    /// The pump task runs.
    pub pump_running: bool,
    /// The host-channel ports that are bound, by the agent or by another.
    pub bound_ports: Set<u32>,
    /// The endpoint of the agent's own listener, once bound.
    pub listener: Option<ChannelEndpoint>,
    /// The serving layer has the listener.
    pub serving: bool,
}

impl Environment {
    /// The environment of a process that has just started, over `kernel`.
    pub open spec fn fresh(
        kernel: KernelState,
        pump_scheduled: bool,
        bound_ports: Set<u32>,
    ) -> Environment {
        Environment {
            kernel,
            channel_open: false,
            pump_scheduled,
            pump_running: false,
            bound_ports,
            listener: None,
            serving: false,
        }
    }

    /// The operation is a request on the kernel channel.
    pub open spec fn is_request(action: Action) -> bool {
        action is QueryLinks || action is AssignAddress || action is SetLinkUp
            || action is AddDefaultRoute
    }

    /// What the environment does with `action`: its state afterwards and
    /// what the caller reports to the agent. `None` is for an operation
    /// that never returns: a request on a channel that nobody pumps, the
    /// wait for the serving layer, and the exit.
    pub open spec fn answer(self, action: Action) -> Option<(Environment, EventView)> {
        match action {
            Action::OpenChannel => Some(
                (Environment { channel_open: true, ..self }, EventView::Completed),
            ),
            Action::SpawnPump => Some(
                (Environment { pump_running: self.pump_scheduled, ..self }, EventView::Completed),
            ),
            Action::QueryLinks => if self.channel_open && self.pump_running {
                Some((self, EventView::Links(self.kernel.links)))
            } else {
                None
            },
            Action::AssignAddress(_) | Action::SetLinkUp { .. } | Action::AddDefaultRoute(_) => {
                if !(self.channel_open && self.pump_running) {
                    None
                } else if self.kernel.accepts(action) {
                    Some(
                        (
                            Environment { kernel: self.kernel.apply(action), ..self },
                            EventView::Completed,
                        ),
                    )
                } else {
                    Some((self, EventView::Failed(Fault::Rejected)))
                }
            },
            Action::BindListener(endpoint) => if self.bound_ports.contains(endpoint.port) {
                Some((self, EventView::Failed(Fault::Rejected)))
            } else {
                Some(
                    (
                        Environment {
                            bound_ports: self.bound_ports.insert(endpoint.port),
                            listener: Some(endpoint),
                            ..self
                        },
                        EventView::Completed,
                    ),
                )
            },
            Action::Serve => if self.listener is Some {
                Some((Environment { serving: true, ..self }, EventView::Completed))
            } else {
                Some((self, EventView::Failed(Fault::Other)))
            },
            Action::AwaitServing | Action::Finish | Action::Abort { .. } => None,
        }
    }
}

/// The agent and its environment after at most `steps` operations, from
/// `stage` and `environment` on. The run stops early where an operation
/// never returns.
pub open spec fn run(config: ConfigView, stage: Stage, environment: Environment, steps: nat) -> (
    Stage,
    Environment,
)
    decreases steps,
{
    if steps == 0 {
        (stage, environment)
    } else {
        match operation(config, stage) {
            None => (stage, environment),
            Some(action) => match environment.answer(action) {
                None => (stage, environment),
                Some((after, event)) => run(
                    config,
                    successor(config, stage, event),
                    after,
                    (steps - 1) as nat,
                ),
            },
        }
    }
}

/// The agent and its environment after the start of the process and at
/// most `steps` operations.
pub open spec fn boot(config: ConfigView, environment: Environment, steps: nat) -> (
    Stage,
    Environment,
) {
    run(config, successor(config, Stage::Start, EventView::Started), environment, steps)
}

/// Where the interface exists, the pump runs and the port is free, the
/// boot ends in `Serving`, and it leaves the kernel with exactly what the
/// options say: the address on the interface that bears the name, that
/// interface up, the default route by the gateway through it. The
/// listener is bound at the wildcard context on the port.
pub proof fn law_boot_configures_interface(
    config: ConfigView,
    kernel: KernelState,
    bound_ports: Set<u32>,
    index: u32,
    steps: nat,
)
    requires
        lookup(kernel.links, config.interface_name) == Some(index),
        !bound_ports.contains(config.listener_port),
        steps >= 8,
    ensures
        boot(config, Environment::fresh(kernel, true, bound_ports), steps) == (
            Stage::Serving,
            Environment {
                kernel: kernel.configured(config, index),
                channel_open: true,
                pump_scheduled: true,
                pump_running: true,
                bound_ports: bound_ports.insert(config.listener_port),
                listener: Some(ChannelEndpoint::spec_wildcard(config.listener_port)),
                serving: true,
            },
        ),
{
    lemma_lookup_sound(kernel.links, config.interface_name);
    reveal_with_fuel(run, 9);
}

/// Where the kernel has no interface of the configured name, the boot
/// ends with `ResourceNotFound` and the kernel's state is as it was: no
/// address, no link state, no route has been touched, and no listener is
/// bound.
pub proof fn law_boot_without_interface(
    config: ConfigView,
    kernel: KernelState,
    bound_ports: Set<u32>,
    steps: nat,
)
    requires
        lookup(kernel.links, config.interface_name) is None,
        steps >= 3,
    ensures
        boot(config, Environment::fresh(kernel, true, bound_ports), steps) == (
            Stage::Failed { error: BootstrapError::ResourceNotFound },
            Environment {
                channel_open: true,
                pump_running: true,
                ..Environment::fresh(kernel, true, bound_ports)
            },
        ),
{
    reveal_with_fuel(run, 5);
}

/// Where the port is already bound, the boot ends with `BindFailed`, and
/// the network stays configured: nothing is rolled back.
pub proof fn law_boot_with_port_taken(
    config: ConfigView,
    kernel: KernelState,
    bound_ports: Set<u32>,
    index: u32,
    steps: nat,
)
    requires
        lookup(kernel.links, config.interface_name) == Some(index),
        bound_ports.contains(config.listener_port),
        steps >= 7,
    ensures
        boot(config, Environment::fresh(kernel, true, bound_ports), steps) == (
            Stage::Failed { error: BootstrapError::BindFailed },
            Environment {
                kernel: kernel.configured(config, index),
                channel_open: true,
                pump_running: true,
                ..Environment::fresh(kernel, true, bound_ports)
            },
        ),
{
    lemma_lookup_sound(kernel.links, config.interface_name);
    reveal_with_fuel(run, 9);
}

/// Where the pump task is never scheduled, the boot stalls at the first
/// request on the kernel channel, however long one waits: the agent stays
/// in `ResolvingInterface`, it never takes a request for answered, and the
/// kernel's state is as it was.
pub proof fn law_boot_without_pump_stalls(
    config: ConfigView,
    kernel: KernelState,
    bound_ports: Set<u32>,
    steps: nat,
)
    requires
        steps >= 2,
    ensures
        boot(config, Environment::fresh(kernel, false, bound_ports), steps) == (
            Stage::ResolvingInterface,
            Environment { channel_open: true, ..Environment::fresh(kernel, false, bound_ports) },
        ),
{
    reveal_with_fuel(run, 4);
}

/// While the pump does not run, no request on the kernel channel is ever
/// answered, whatever the request and whatever the kernel's state.
pub proof fn law_request_needs_pump(environment: Environment, action: Action)
    requires
        Environment::is_request(action),
        !environment.pump_running,
    ensures
        environment.answer(action) is None,
{
}

/// On a kernel in which nothing was configured, the state that a boot
/// leaves has exactly one interface configured: every address is the
/// configured one on the resolved interface, that interface alone is up,
/// and the one route is the default route by the configured gateway
/// through it.
pub proof fn law_one_interface_configured(config: ConfigView, kernel: KernelState, index: u32)
    requires
        kernel.unconfigured(),
    ensures
        kernel.configured(config, index).addresses == set![
            AddressAssignment {
                index,
                address: config.address,
                prefix_length: config.prefix_length,
            },
        ],
        kernel.configured(config, index).links_up == set![index],
        kernel.configured(config, index).routes == seq![
            RouteEntry::default_route(index, config.gateway),
        ],
        kernel.configured(config, index).routes[0].spec_is_default(),
        kernel.configured(config, index).routes[0].gateway == config.gateway,
        kernel.configured(config, index).routes[0].input_interface_index == index,
{
    let after = kernel.configured(config, index);
    assert(after.addresses =~= set![
        AddressAssignment { index, address: config.address, prefix_length: config.prefix_length },
    ]);
}

/// The kernel's state after it has carried out the operations in order.
pub open spec fn applied(kernel: KernelState, actions: Seq<Action>) -> KernelState
    decreases actions.len(),
{
    if actions.len() == 0 {
        kernel
    } else {
        applied(kernel, actions.drop_last()).apply(actions.last())
    }
}

proof fn lemma_applied_push(kernel: KernelState, actions: Seq<Action>, action: Action)
    ensures
        applied(kernel, actions.push(action)) == applied(kernel, actions).apply(action),
{
    assert(actions.push(action).drop_last() =~= actions);
}

/// Whatever the environment, a run that has reached `NetworkReady` took
/// seven events, resolved the interface from the links reported, and was
/// told that each of its operations succeeded; a kernel that has carried
/// out the operations of the run is left with exactly what the options
/// say, on that interface.
pub proof fn law_successful_bootstrap_state(
    config: ConfigView,
    events: Seq<EventView>,
    kernel: KernelState,
)
    requires
        stage_after(config, events).spec_phase() == Phase::NetworkReady,
    ensures
        events.len() == 7,
        events[3] matches EventView::Links(links) && lookup(links, config.interface_name) == Some(
            resolved_index(config, events),
        ),
        issued(config, events) == plan(config, resolved_index(config, events)).take(7),
        applied(kernel, issued(config, events)) == kernel.configured(
            config,
            resolved_index(config, events),
        ),
{
    let index = resolved_index(config, events);
    let actions = issued(config, events);
    lemma_unfailed_run_is_on_plan(config, events);
    law_bind_follows_bootstrap(config, events, 6);
    law_configuration_in_order(config, events, 5);
    let p = plan(config, index);
    let built = Seq::<Action>::empty().push(p[0]).push(p[1]).push(p[2]).push(p[3]).push(p[4]).push(
        p[5],
    ).push(p[6]);
    assert(actions =~= built);
    let e = Seq::<Action>::empty();
    lemma_applied_push(kernel, e, p[0]);
    lemma_applied_push(kernel, e.push(p[0]), p[1]);
    lemma_applied_push(kernel, e.push(p[0]).push(p[1]), p[2]);
    lemma_applied_push(kernel, e.push(p[0]).push(p[1]).push(p[2]), p[3]);
    lemma_applied_push(kernel, e.push(p[0]).push(p[1]).push(p[2]).push(p[3]), p[4]);
    lemma_applied_push(kernel, e.push(p[0]).push(p[1]).push(p[2]).push(p[3]).push(p[4]), p[5]);
    lemma_applied_push(
        kernel,
        e.push(p[0]).push(p[1]).push(p[2]).push(p[3]).push(p[4]).push(p[5]),
        p[6],
    );
}

} // verus!
