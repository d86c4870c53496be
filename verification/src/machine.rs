//! The agent as a state machine.
//!
//! The caller performs one operation at a time and reports how it went;
//! [`Agent::step`] answers with the next operation. An operation is issued
//! only when the one before it has been reported as completed, so the
//! order of the operations is the order of the stages below.

use vstd::prelude::*;
use crate::addr::Ipv4Address;
use crate::config::{BootstrapConfig, ConfigView};
use crate::error::{BootstrapError, Fault};
use crate::model::{
    links_view, AddressAssignment, Link, LinkRecord, NetworkInterfaceHandle, RouteEntry,
};
use crate::resolver::{lookup, resolve};
use crate::vsock::ChannelEndpoint;

verus! {

/// Where the process stands, coarsely.
#[derive(Clone, Copy, Debug, PartialEq, Eq, Structural, Hash)]
pub enum Phase {
    /// Nothing has been asked for yet.
    Start,
    /// The network bootstrap is under way.
    NetworkConfiguring,
    /// The interface has its address, is up, and the default route is in.
    NetworkReady,
    /// The host-channel listener is bound and not yet handed on.
    ListenerBound,
    /// The serving layer has the listener.
    Serving,
    /// The serving layer has returned without an error.
    Stopped,
    /// An operation failed. Nothing leads out of this phase.
    Failed,
}

/// Where the agent stands: the operation it waits for, or how it ended.
#[derive(Clone, Copy, Debug, PartialEq, Eq, Structural, Hash)]
pub enum Stage {
    /// Nothing has been asked for yet.
    Start,
    /// Waiting for the kernel channel to open.
    OpeningChannel,
    /// Waiting for the channel's pump task to be spawned.
    SpawningPump,
    /// Waiting for the kernel's list of links.
    ResolvingInterface,
    /// Waiting for the address to be attached to interface `index`.
    AssigningAddress { index: u32 },
    /// Waiting for interface `index` to come up.
    RaisingLink { index: u32 },
    /// Waiting for the default route through interface `index`.
    InstallingRoute { index: u32 },
    /// Waiting for the host-channel listener to be bound.
    BindingListener,
    /// Waiting for the serving layer to take the listener.
    HandingOff,
    /// Waiting for the serving layer to return.
    Serving,
    /// The serving layer returned without an error.
    Stopped,
    /// An operation failed with `error`.
    Failed { error: BootstrapError },
}

/// An operation for the caller to perform.
#[derive(Clone, Copy, Debug, PartialEq, Eq, Structural, Hash)]
pub enum Action {
    /// Open the channel to the kernel's networking subsystem.
    OpenChannel,
    /// Spawn the pump of the channel. No request on the channel is
    /// answered unless the pump runs.
    SpawnPump,
    /// Ask the kernel for all its links and report them.
    QueryLinks,
    /// Attach the address to the interface.
    AssignAddress(AddressAssignment),
    /// Set interface `index` administratively up.
    SetLinkUp { index: u32 },
    /// Install the route.
    AddDefaultRoute(RouteEntry),
    /// Bind the host-channel listener at the endpoint.
    BindListener(ChannelEndpoint),
    /// Hand the bound listener to the serving layer.
    Serve,
    /// Wait until the serving layer returns.
    AwaitServing,
    /// Exit with success.
    Finish,
    /// Exit with `error`.
    Abort { error: BootstrapError },
}

/// What the caller reports to the agent.
#[derive(Clone, Debug, PartialEq, Eq)]
pub enum Event {
    /// The process has started.
    Started,
    /// The last operation succeeded.
    Completed,
    /// The last operation was `QueryLinks`, and these are the links.
    Links(Vec<LinkRecord>),
    /// The last operation failed.
    Failed(Fault),
}

/// The mathematical content of an [`Event`].
pub enum EventView {
    Started,
    Completed,
    Links(Seq<Link>),
    Failed(Fault),
}

impl View for Event {
    type V = EventView;

    open spec fn view(&self) -> EventView {
        match self {
            Event::Started => EventView::Started,
            Event::Completed => EventView::Completed,
            Event::Links(records) => EventView::Links(links_view(records@)),
            Event::Failed(fault) => EventView::Failed(*fault),
        }
    }
}

impl Stage {
    /// The phase that the stage belongs to.
    pub open spec fn spec_phase(self) -> Phase {
        match self {
            Stage::Start => Phase::Start,
            Stage::OpeningChannel
            | Stage::SpawningPump
            | Stage::ResolvingInterface
            | Stage::AssigningAddress { .. }
            | Stage::RaisingLink { .. }
            | Stage::InstallingRoute { .. } => Phase::NetworkConfiguring,
            Stage::BindingListener => Phase::NetworkReady,
            Stage::HandingOff => Phase::ListenerBound,
            Stage::Serving => Phase::Serving,
            Stage::Stopped => Phase::Stopped,
            Stage::Failed { .. } => Phase::Failed,
        }
    }

    /// No event leads out of the stage.
    pub open spec fn spec_is_terminal(self) -> bool {
        self is Stopped || self is Failed
    }

    /// The kind of the failure when the operation of this stage fails with
    /// `fault`.
    ///
    /// On the kernel channel a lost request is a transport error, and a
    /// refusal is a rejected configuration where the request was for an
    /// address, a link state or a route. A listener that cannot be bound is
    /// a failed bind whatever the cause. Everything else is unhandled.
    pub open spec fn spec_classify(self, fault: Fault) -> BootstrapError {
        match self {
            Stage::OpeningChannel | Stage::SpawningPump | Stage::ResolvingInterface => match fault {
                Fault::Transport | Fault::Rejected => BootstrapError::TransportError,
                Fault::Other => BootstrapError::UnhandledError,
            },
            Stage::AssigningAddress { .. }
            | Stage::RaisingLink { .. }
            | Stage::InstallingRoute { .. } => match fault {
                Fault::Transport => BootstrapError::TransportError,
                Fault::Rejected => BootstrapError::ConfigurationRejected,
                Fault::Other => BootstrapError::UnhandledError,
            },
            Stage::BindingListener => BootstrapError::BindFailed,
            _ => BootstrapError::UnhandledError,
        }
    }

    /// The stage that follows when the operation of this stage succeeds
    /// with nothing to report. The link query always has its links to
    /// report, and nothing follows a terminal stage, so for those there is
    /// none.
    pub open spec fn spec_following(self) -> Option<Stage> {
        match self {
            Stage::OpeningChannel => Some(Stage::SpawningPump),
            Stage::SpawningPump => Some(Stage::ResolvingInterface),
            Stage::AssigningAddress { index } => Some(Stage::RaisingLink { index }),
            Stage::RaisingLink { index } => Some(Stage::InstallingRoute { index }),
            Stage::InstallingRoute { .. } => Some(Stage::BindingListener),
            Stage::BindingListener => Some(Stage::HandingOff),
            Stage::HandingOff => Some(Stage::Serving),
            Stage::Serving => Some(Stage::Stopped),
            _ => None,
        }
    }

    /// The phase that the stage belongs to.
    #[verifier::when_used_as_spec(spec_phase)]
    pub fn phase(self) -> (phase: Phase)
        ensures
            phase == self.spec_phase(),
    {
        match self {
            Stage::Start => Phase::Start,
            Stage::OpeningChannel => Phase::NetworkConfiguring,
            Stage::SpawningPump => Phase::NetworkConfiguring,
            Stage::ResolvingInterface => Phase::NetworkConfiguring,
            Stage::AssigningAddress { .. } => Phase::NetworkConfiguring,
            Stage::RaisingLink { .. } => Phase::NetworkConfiguring,
            Stage::InstallingRoute { .. } => Phase::NetworkConfiguring,
            Stage::BindingListener => Phase::NetworkReady,
            Stage::HandingOff => Phase::ListenerBound,
            Stage::Serving => Phase::Serving,
            Stage::Stopped => Phase::Stopped,
            Stage::Failed { .. } => Phase::Failed,
        }
    }

    /// Whether no event leads out of the stage.
    #[verifier::when_used_as_spec(spec_is_terminal)]
    pub fn is_terminal(self) -> (terminal: bool)
        ensures
            terminal == self.spec_is_terminal(),
    {
        match self {
            Stage::Stopped => true,
            Stage::Failed { .. } => true,
            _ => false,
        }
    }

    /// The kind of the failure when the operation of this stage fails with
    /// `fault`.
    #[verifier::when_used_as_spec(spec_classify)]
    pub fn classify(self, fault: Fault) -> (error: BootstrapError)
        ensures
            error == self.spec_classify(fault),
    {
        match self {
            Stage::OpeningChannel | Stage::SpawningPump | Stage::ResolvingInterface => match fault {
                Fault::Other => BootstrapError::UnhandledError,
                _ => BootstrapError::TransportError,
            },
            Stage::AssigningAddress { .. }
            | Stage::RaisingLink { .. }
            | Stage::InstallingRoute { .. } => match fault {
                Fault::Transport => BootstrapError::TransportError,
                Fault::Rejected => BootstrapError::ConfigurationRejected,
                Fault::Other => BootstrapError::UnhandledError,
            },
            Stage::BindingListener => BootstrapError::BindFailed,
            _ => BootstrapError::UnhandledError,
        }
    }

    /// The stage that follows when the operation of this stage succeeds
    /// with nothing to report.
    #[verifier::when_used_as_spec(spec_following)]
    pub fn following(self) -> (next: Option<Stage>)
        ensures
            next == self.spec_following(),
    {
        match self {
            Stage::OpeningChannel => Some(Stage::SpawningPump),
            Stage::SpawningPump => Some(Stage::ResolvingInterface),
            Stage::AssigningAddress { index } => Some(Stage::RaisingLink { index }),
            Stage::RaisingLink { index } => Some(Stage::InstallingRoute { index }),
            Stage::InstallingRoute { .. } => Some(Stage::BindingListener),
            Stage::BindingListener => Some(Stage::HandingOff),
            Stage::HandingOff => Some(Stage::Serving),
            Stage::Serving => Some(Stage::Stopped),
            _ => None,
        }
    }
}

/// The stage after `event` has been reported in `stage`.
///
/// A terminal stage stays. From `Start` only `Started` goes on. In every
/// other stage a failure ends the run with the kind that `spec_classify`
/// gives; the links go on from the link query, to the address assignment
/// on the first link that bears the configured name, or end the run with
/// `ResourceNotFound` where none does; a completion goes on to the stage
/// that follows. An event that the stage does not expect ends the run as
/// unhandled.
pub open spec fn successor(config: ConfigView, stage: Stage, event: EventView) -> Stage {
    if stage.spec_is_terminal() {
        stage
    } else {
        match event {
            EventView::Started => if stage is Start {
                Stage::OpeningChannel
            } else {
                Stage::Failed { error: BootstrapError::UnhandledError }
            },
            EventView::Failed(fault) => Stage::Failed { error: stage.spec_classify(fault) },
            EventView::Links(links) => if stage is ResolvingInterface {
                match lookup(links, config.interface_name) {
                    Some(index) => Stage::AssigningAddress { index },
                    None => Stage::Failed { error: BootstrapError::ResourceNotFound },
                }
            } else {
                Stage::Failed { error: BootstrapError::UnhandledError }
            },
            EventView::Completed => match stage.spec_following() {
                Some(next) => next,
                None => Stage::Failed { error: BootstrapError::UnhandledError },
            },
        }
    }
}

/// The operation that the caller performs while the agent is in `stage`.
/// In `Start` there is none yet.
pub open spec fn operation(config: ConfigView, stage: Stage) -> Option<Action> {
    match stage {
        Stage::Start => None,
        Stage::OpeningChannel => Some(Action::OpenChannel),
        Stage::SpawningPump => Some(Action::SpawnPump),
        Stage::ResolvingInterface => Some(Action::QueryLinks),
        Stage::AssigningAddress { index } => Some(
            Action::AssignAddress(
                AddressAssignment {
                    index,
                    address: config.address,
                    prefix_length: config.prefix_length,
                },
            ),
        ),
        Stage::RaisingLink { index } => Some(Action::SetLinkUp { index }),
        Stage::InstallingRoute { index } => Some(
            Action::AddDefaultRoute(RouteEntry::default_route(index, config.gateway)),
        ),
        Stage::BindingListener => Some(
            Action::BindListener(ChannelEndpoint::spec_wildcard(config.listener_port)),
        ),
        Stage::HandingOff => Some(Action::Serve),
        Stage::Serving => Some(Action::AwaitServing),
        Stage::Stopped => Some(Action::Finish),
        Stage::Failed { error } => Some(Action::Abort { error }),
    }
}

/// The stage of an agent that started in `Start` and took the events in
/// order, one step each.
pub open spec fn stage_after(config: ConfigView, events: Seq<EventView>) -> Stage
    decreases events.len(),
{
    if events.len() == 0 {
        Stage::Start
    } else {
        successor(config, stage_after(config, events.drop_last()), events.last())
    }
}

/// The mathematical content of an [`Agent`]: its options, its stage, and
/// all that it has been told so far.
pub struct AgentView {
    pub config: ConfigView,
    pub stage: Stage,
    pub history: Seq<EventView>,
}

impl AgentView {
    /// The stage is the one that the history leads to.
    pub open spec fn consistent(self) -> bool {
        self.stage == stage_after(self.config, self.history)
    }
}

#[derive(Clone, Copy)]
struct Progress {
    stage: Stage,
    history: Ghost<Seq<EventView>>,
}

/// The agent: its options and how far it has come. Its stage is always
/// the one that its history leads to.
pub struct Agent {
    config: BootstrapConfig,
    progress: Progress,
}

impl View for Agent {
    type V = AgentView;

    closed spec fn view(&self) -> AgentView {
        AgentView {
            config: self.config@,
            stage: self.progress.stage,
            history: self.progress.history@,
        }
    }
}

impl Clone for Agent {
    fn clone(&self) -> (copy: Agent)
        ensures
            copy@ == self@,
    {
        proof {
            use_type_invariant(self);
        }
        Agent { config: self.config.clone(), progress: self.progress }
    }
}

impl Agent {
    /// What holds of every value of this type.
    #[verifier::type_invariant]
    pub open spec fn valid(self) -> bool {
        self@.consistent()
    }

    /// An agent that has done nothing yet.
    pub fn new(config: BootstrapConfig) -> (agent: Agent)
        ensures
            agent@ == (AgentView {
                config: config@,
                stage: Stage::Start,
                history: Seq::<EventView>::empty(),
            }),
    {
        Agent { config, progress: Progress { stage: Stage::Start, history: Ghost(Seq::empty()) } }
    }

    /// The options of this agent.
    pub fn config(&self) -> (config: &BootstrapConfig)
        ensures
            config@ == self@.config,
            config@.well_formed(),
    {
        proof {
            use_type_invariant(&self.config);
        }
        &self.config
    }

    /// The stage the agent is in.
    pub fn stage(&self) -> (stage: Stage)
        ensures
            stage == self@.stage,
            self@.consistent(),
    {
        proof {
            use_type_invariant(self);
        }
        self.progress.stage
    }

    /// The phase the agent is in.
    pub fn phase(&self) -> (phase: Phase)
        ensures
            phase == self@.stage.spec_phase(),
    {
        self.progress.stage.phase()
    }

    /// The failure that ended the run, if one did.
    pub fn error(&self) -> (error: Option<BootstrapError>)
        ensures
            error == (match self@.stage {
                Stage::Failed { error } => Some(error),
                _ => None,
            }),
    {
        match self.progress.stage {
            Stage::Failed { error } => Some(error),
            _ => None,
        }
    }

    /// The interface being configured, while the agent configures it.
    pub fn interface(&self) -> (handle: Option<NetworkInterfaceHandle>)
        ensures
            match self@.stage {
                Stage::AssigningAddress { index }
                | Stage::RaisingLink { index }
                | Stage::InstallingRoute { index } => handle matches Some(h) && h@ == (Link {
                    name: self@.config.interface_name,
                    index,
                }),
                _ => handle is None,
            },
    {
        match self.progress.stage {
            Stage::AssigningAddress { index }
            | Stage::RaisingLink { index }
            | Stage::InstallingRoute { index } => Some(
                NetworkInterfaceHandle::from_parts(self.config.interface_name().clone(), index),
            ),
            _ => None,
        }
    }

    /// The operation that the caller is to perform now. In `Start` there is
    /// none: the first comes with the first step.
    pub fn pending(&self) -> (action: Option<Action>)
        ensures
            action == operation(self@.config, self@.stage),
            action matches Some(Action::AssignAddress(assignment)) ==> assignment.well_formed(),
    {
        match self.progress.stage {
            Stage::Start => None,
            Stage::OpeningChannel => Some(Action::OpenChannel),
            Stage::SpawningPump => Some(Action::SpawnPump),
            Stage::ResolvingInterface => Some(Action::QueryLinks),
            Stage::AssigningAddress { index } => Some(
                Action::AssignAddress(
                    AddressAssignment {
                        index,
                        address: self.config.address(),
                        prefix_length: self.config.prefix_length(),
                    },
                ),
            ),
            Stage::RaisingLink { index } => Some(Action::SetLinkUp { index }),
            Stage::InstallingRoute { index } => Some(
                Action::AddDefaultRoute(
                    RouteEntry {
                        destination: Ipv4Address::unspecified(),
                        destination_prefix_length: 0,
                        gateway: self.config.gateway(),
                        input_interface_index: index,
                    },
                ),
            ),
            Stage::BindingListener => Some(
                Action::BindListener(ChannelEndpoint::wildcard(self.config.listener_port())),
            ),
            Stage::HandingOff => Some(Action::Serve),
            Stage::Serving => Some(Action::AwaitServing),
            Stage::Stopped => Some(Action::Finish),
            Stage::Failed { error } => Some(Action::Abort { error }),
        }
    }

    /// Takes the report of how the last operation went and answers with the
    /// operation to perform next. The options never change, and the report
    /// joins the history.
    pub fn step(&mut self, event: Event) -> (action: Action)
        ensures
            final(self)@.config == old(self)@.config,
            final(self)@.stage == successor(old(self)@.config, old(self)@.stage, event@),
            final(self)@.history == old(self)@.history.push(event@),
            final(self)@.consistent(),
            Some(action) == operation(final(self)@.config, final(self)@.stage),
            action matches Action::AssignAddress(assignment) ==> assignment.well_formed(),
    {
        proof {
            use_type_invariant(&*self);
        }
        let ghost history = self.progress.history@.push(event@);
        let unhandled = Stage::Failed { error: BootstrapError::UnhandledError };
        let stage = self.progress.stage;
        let next = if stage.is_terminal() {
            stage
        } else {
            match event {
                Event::Started => match stage {
                    Stage::Start => Stage::OpeningChannel,
                    _ => unhandled,
                },
                Event::Failed(fault) => Stage::Failed { error: stage.classify(fault) },
                Event::Links(links) => match stage {
                    Stage::ResolvingInterface => match resolve(
                        &links,
                        self.config.interface_name(),
                    ) {
                        Ok(handle) => Stage::AssigningAddress { index: handle.index() },
                        Err(error) => Stage::Failed { error },
                    },
                    _ => unhandled,
                },
                Event::Completed => match stage.following() {
                    Some(next) => next,
                    None => unhandled,
                },
            }
        };
        proof {
            assert(history.drop_last() =~= self.progress.history@);
        }
        self.progress = Progress { stage: next, history: Ghost(history) };
        match self.pending() {
            Some(action) => action,
            None => unreached(),
        }
    }
}

} // verus!
