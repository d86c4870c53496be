//! Runs of the agent: what it issues, in which order, for every sequence
//! of reports that a caller may feed it.
//!
//! A run is the sequence of events; the history of an
//! [`Agent`](crate::machine::Agent) is one, and its stage is always
//! `stage_after` that history. So what is proved here of every run holds
//! of every agent, at every moment.

use vstd::prelude::*;
use crate::config::ConfigView;
use crate::error::{BootstrapError, Fault};
use crate::machine::{operation, stage_after, successor, Action, EventView, Phase, Stage};
use crate::model::{AddressAssignment, RouteEntry};
use crate::resolver::{lemma_lookup_no_match, lookup, no_match};
use crate::vsock::ChannelEndpoint;

verus! {

/// The operation that the agent answered the event at position `i` with.
pub open spec fn issued_at(config: ConfigView, events: Seq<EventView>, i: int) -> Action
    recommends
        0 <= i < events.len(),
{
    operation(config, stage_after(config, events.take(i + 1))).unwrap()
}

/// The operations of the whole run, one for each event.
pub open spec fn issued(config: ConfigView, events: Seq<EventView>) -> Seq<Action> {
    Seq::new(events.len(), |i: int| issued_at(config, events, i))
}

/// The stages of a run in which nothing fails, in order, for the interface
/// `index`.
pub open spec fn plan_stage(k: int, index: u32) -> Stage {
    if k <= 0 {
        Stage::Start
    } else if k == 1 {
        Stage::OpeningChannel
    } else if k == 2 {
        Stage::SpawningPump
    } else if k == 3 {
        Stage::ResolvingInterface
    } else if k == 4 {
        Stage::AssigningAddress { index }
    } else if k == 5 {
        Stage::RaisingLink { index }
    } else if k == 6 {
        Stage::InstallingRoute { index }
    } else if k == 7 {
        Stage::BindingListener
    } else if k == 8 {
        Stage::HandingOff
    } else if k == 9 {
        Stage::Serving
    } else {
        Stage::Stopped
    }
}

/// The operations of a run in which nothing fails, in order, for the
/// interface `index`.
pub open spec fn plan(config: ConfigView, index: u32) -> Seq<Action> {
    seq![
        Action::OpenChannel,
        Action::SpawnPump,
        Action::QueryLinks,
        Action::AssignAddress(
            AddressAssignment {
                index,
                address: config.address,
                prefix_length: config.prefix_length,
            },
        ),
        Action::SetLinkUp { index },
        Action::AddDefaultRoute(RouteEntry::default_route(index, config.gateway)),
        Action::BindListener(ChannelEndpoint::spec_wildcard(config.listener_port)),
        Action::Serve,
        Action::AwaitServing,
        Action::Finish,
    ]
}

/// How many events lead to the stage in a run in which nothing fails.
pub open spec fn position(stage: Stage) -> int {
    match stage {
        Stage::Start => 0,
        Stage::OpeningChannel => 1,
        Stage::SpawningPump => 2,
        Stage::ResolvingInterface => 3,
        Stage::AssigningAddress { .. } => 4,
        Stage::RaisingLink { .. } => 5,
        Stage::InstallingRoute { .. } => 6,
        Stage::BindingListener => 7,
        Stage::HandingOff => 8,
        Stage::Serving => 9,
        Stage::Stopped => 10,
        Stage::Failed { .. } => 11,
    }
}

/// The index of the interface that the run resolved: the first link of
/// the configured name among those that the fourth event reported.
pub open spec fn resolved_index(config: ConfigView, events: Seq<EventView>) -> u32 {
    if events.len() > 3 {
        match events[3] {
            EventView::Links(links) => match lookup(links, config.interface_name) {
                Some(index) => index,
                None => 0,
            },
            _ => 0,
        }
    } else {
        0
    }
}

/// The run has not failed, and each of its stages is the one that the plan
/// has at that position.
pub open spec fn on_plan(config: ConfigView, events: Seq<EventView>) -> bool {
    let stage = stage_after(config, events);
    let index = resolved_index(config, events);
    &&& stage !is Failed
    &&& stage is Stopped ==> events.len() >= 10
    &&& stage !is Stopped ==> events.len() == position(stage)
    &&& forall|k: int|
        0 <= k <= events.len() ==> #[trigger] stage_after(config, events.take(k)) == plan_stage(
            k,
            index,
        )
}

/// The operation is one of the three that configure the interface.
pub open spec fn is_configuration(action: Action) -> bool {
    action is AssignAddress || action is SetLinkUp || action is AddDefaultRoute
}

proof fn lemma_take_of_drop_last(events: Seq<EventView>, k: int)
    requires
        0 <= k < events.len(),
    ensures
        events.drop_last().take(k) == events.take(k),
{
    assert(events.drop_last().take(k) =~= events.take(k));
}

/// A run that has not failed has followed the plan so far.
pub proof fn lemma_unfailed_run_is_on_plan(config: ConfigView, events: Seq<EventView>)
    requires
        stage_after(config, events) !is Failed,
    ensures
        on_plan(config, events),
    decreases events.len(),
{
    let n = events.len() as int;
    let index = resolved_index(config, events);
    if n > 0 {
        let before = events.drop_last();
        lemma_unfailed_run_is_on_plan(config, before);
        assert(before.take(n - 1) =~= before);
        assert(events.take(n) =~= events);
        assert forall|k: int| 0 <= k <= n implies #[trigger] stage_after(config, events.take(k))
            == plan_stage(k, index) by {
            if k < n {
                lemma_take_of_drop_last(events, k);
            }
        }
    }
}

/// Once the run has ended, nothing that is reported changes the stage.
pub proof fn lemma_terminal_stage_stays(
    config: ConfigView,
    events: Seq<EventView>,
    more: Seq<EventView>,
)
    requires
        stage_after(config, events).spec_is_terminal(),
    ensures
        stage_after(config, events + more) == stage_after(config, events),
    decreases more.len(),
{
    if more.len() > 0 {
        lemma_terminal_stage_stays(config, events, more.drop_last());
        assert((events + more).drop_last() =~= events + more.drop_last());
    }
}

/// A failed run stays failed with the same error, and everything issued
/// from the failure on is the order to exit with that error: there is no
/// way out of `Failed`.
pub proof fn law_failure_is_final(
    config: ConfigView,
    events: Seq<EventView>,
    more: Seq<EventView>,
    j: int,
)
    requires
        stage_after(config, events) is Failed,
        events.len() <= j + 1 <= events.len() + more.len(),
        j >= 0,
    ensures
        stage_after(config, events + more) == stage_after(config, events),
        issued_at(config, events + more, j) == (Action::Abort {
            error: stage_after(config, events)->error,
        }),
{
    lemma_terminal_stage_stays(config, events, more);
    let head = more.take(j + 1 - events.len());
    assert((events + more).take(j + 1) =~= events + head);
    lemma_terminal_stage_stays(config, events, head);
}

/// From every stage in which the agent is still at work, a reported
/// failure leads to `Failed`.
pub proof fn law_failure_reaches_failed(config: ConfigView, stage: Stage, fault: Fault)
    requires
        !stage.spec_is_terminal(),
    ensures
        successor(config, stage, EventView::Failed(fault)) == (Stage::Failed {
            error: stage.spec_classify(fault),
        }),
        successor(config, stage, EventView::Failed(fault)).spec_phase() == Phase::Failed,
{
}

/// Each operation is issued at its place in the plan and nowhere else.
/// The operation at position `j` of a run tells the whole run up to there:
/// unless it is the order to exit with an error, the run up to `j` has
/// followed the plan, and `j` is the place of that operation in the plan
/// (or beyond its end, where the agent repeats the order to exit).
pub proof fn law_operation_has_its_place(config: ConfigView, events: Seq<EventView>, j: int)
    requires
        0 <= j < events.len(),
        issued_at(config, events, j) !is Abort,
    ensures
        on_plan(config, events.take(j + 1)),
        j < 9 ==> issued_at(config, events, j) == plan(
            config,
            resolved_index(config, events.take(j + 1)),
        )[j],
        j >= 9 ==> issued_at(config, events, j) == Action::Finish,
        forall|k: int|
            0 <= k <= j && k < 9 ==> #[trigger] issued_at(config, events, k) == plan(
                config,
                resolved_index(config, events.take(j + 1)),
            )[k],
{
    let run = events.take(j + 1);
    let index = resolved_index(config, run);
    lemma_unfailed_run_is_on_plan(config, run);
    assert(run.take(j + 1) =~= run);
    assert forall|k: int| 0 <= k <= j && k < 9 implies #[trigger] issued_at(config, events, k)
        == plan(config, index)[k] by {
        assert(run.take(k + 1) =~= events.take(k + 1));
    }
}

proof fn lemma_event_at(config: ConfigView, events: Seq<EventView>, k: int)
    requires
        0 <= k < events.len(),
    ensures
        stage_after(config, events.take(k + 1)) == successor(
            config,
            stage_after(config, events.take(k)),
            events[k],
        ),
{
    let run = events.take(k + 1);
    assert(run.drop_last() =~= events.take(k));
}

/// The three operations that configure the interface come in order:
/// the address, then the link, then the route, each once, each for the
/// interface that was resolved, and each only when the one before it has
/// been reported as completed.
pub proof fn law_configuration_in_order(config: ConfigView, events: Seq<EventView>, j: int)
    requires
        0 <= j < events.len(),
        is_configuration(issued_at(config, events, j)),
    ensures
        issued_at(config, events, j) is AssignAddress <==> j == 3,
        issued_at(config, events, j) is SetLinkUp <==> j == 4,
        issued_at(config, events, j) is AddDefaultRoute <==> j == 5,
        events[3] matches EventView::Links(links) && lookup(links, config.interface_name) == Some(
            resolved_index(config, events),
        ),
        issued_at(config, events, 3) == plan(config, resolved_index(config, events))[3],
        j >= 4 ==> events[4] == EventView::Completed && issued_at(config, events, 4) == plan(
            config,
            resolved_index(config, events),
        )[4],
        j >= 5 ==> events[5] == EventView::Completed,
{
    law_operation_has_its_place(config, events, j);
    lemma_event_at(config, events, 3);
    if j >= 4 {
        lemma_event_at(config, events, 4);
    }
    if j >= 5 {
        lemma_event_at(config, events, 5);
    }
}

/// Wherever the three operations that configure the interface occur in a
/// run, the address comes strictly before the link and the link strictly
/// before the route.
pub proof fn law_address_then_link_then_route(
    config: ConfigView,
    events: Seq<EventView>,
    a: int,
    l: int,
    r: int,
)
    requires
        0 <= a < events.len(),
        0 <= l < events.len(),
        0 <= r < events.len(),
        issued_at(config, events, a) is AssignAddress,
        issued_at(config, events, l) is SetLinkUp,
        issued_at(config, events, r) is AddDefaultRoute,
    ensures
        a < l < r,
{
    law_configuration_in_order(config, events, a);
    law_configuration_in_order(config, events, l);
    law_configuration_in_order(config, events, r);
}

/// The listener is bound only when the network bootstrap is complete: the
/// order to bind is the answer to the report that the default route is
/// in, after the whole plan up to there, and with it the agent enters
/// `NetworkReady`. Until then it was in `NetworkConfiguring`.
pub proof fn law_bind_follows_bootstrap(config: ConfigView, events: Seq<EventView>, j: int)
    requires
        0 <= j < events.len(),
        issued_at(config, events, j) is BindListener,
    ensures
        j == 6,
        forall|k: int|
            0 <= k <= 6 ==> #[trigger] issued_at(config, events, k) == plan(
                config,
                resolved_index(config, events),
            )[k],
        events[4] == EventView::Completed,
        events[5] == EventView::Completed,
        events[6] == EventView::Completed,
        forall|k: int|
            1 <= k <= 6 ==> (#[trigger] stage_after(config, events.take(k))).spec_phase()
                == Phase::NetworkConfiguring,
        stage_after(config, events.take(7)).spec_phase() == Phase::NetworkReady,
{
    law_operation_has_its_place(config, events, j);
    let run = events.take(j + 1);
    let index = resolved_index(config, events);
    assert forall|k: int| 0 <= k <= 7 implies #[trigger] stage_after(config, events.take(k))
        == plan_stage(k, index) by {
        assert(run.take(k) =~= events.take(k));
    }
    lemma_event_at(config, events, 4);
    lemma_event_at(config, events, 5);
    lemma_event_at(config, events, 6);
}

/// The listener is handed to the serving layer only when it is bound.
pub proof fn law_serve_follows_bind(config: ConfigView, events: Seq<EventView>, j: int)
    requires
        0 <= j < events.len(),
        issued_at(config, events, j) == Action::Serve,
    ensures
        j == 7,
        issued_at(config, events, 6) is BindListener,
        events[7] == EventView::Completed,
        stage_after(config, events.take(8)).spec_phase() == Phase::ListenerBound,
{
    law_operation_has_its_place(config, events, j);
    let run = events.take(j + 1);
    let index = resolved_index(config, run);
    assert forall|k: int| 0 <= k <= 8 implies #[trigger] stage_after(config, events.take(k))
        == plan_stage(k, index) by {
        assert(run.take(k) =~= events.take(k));
    }
    lemma_event_at(config, events, 7);
}

/// No request is put on the kernel channel before the channel is open and
/// its pump has been spawned and reported so.
pub proof fn law_requests_follow_pump(config: ConfigView, events: Seq<EventView>, j: int)
    requires
        0 <= j < events.len(),
        issued_at(config, events, j) == Action::QueryLinks || is_configuration(
            issued_at(config, events, j),
        ),
    ensures
        j >= 2,
        issued_at(config, events, 0) == Action::OpenChannel,
        issued_at(config, events, 1) == Action::SpawnPump,
        events[1] == EventView::Completed,
        events[2] == EventView::Completed,
{
    law_operation_has_its_place(config, events, j);
    let run = events.take(j + 1);
    let index = resolved_index(config, run);
    assert forall|k: int| 0 <= k <= 3 implies #[trigger] stage_after(config, events.take(k))
        == plan_stage(k, index) by {
        assert(run.take(k) =~= events.take(k));
    }
    lemma_event_at(config, events, 1);
    lemma_event_at(config, events, 2);
}

/// Where the links that the kernel reports hold none of the configured
/// name, the run ends with `ResourceNotFound`, and no operation of the
/// whole run configures anything or binds the listener: from the report
/// on, the agent only orders the exit.
pub proof fn law_absent_interface_ends_run(config: ConfigView, events: Seq<EventView>, j: int)
    requires
        events.len() > 3,
        stage_after(config, events.take(3)) == Stage::ResolvingInterface,
        events[3] matches EventView::Links(links) && no_match(links, config.interface_name),
        0 <= j < events.len(),
    ensures
        stage_after(config, events) == (Stage::Failed { error: BootstrapError::ResourceNotFound }),
        !is_configuration(issued_at(config, events, j)),
        issued_at(config, events, j) !is BindListener,
        j >= 3 ==> issued_at(config, events, j) == (Action::Abort {
            error: BootstrapError::ResourceNotFound,
        }),
{
    let links = events[3]->Links_0;
    lemma_lookup_no_match(links, config.interface_name);
    lemma_event_at(config, events, 3);
    let head = events.take(4);
    let tail = events.skip(4);
    assert(head + tail =~= events);
    assert(stage_after(config, head) == (Stage::Failed {
        error: BootstrapError::ResourceNotFound,
    }));
    lemma_terminal_stage_stays(config, head, tail);
    if j >= 3 {
        law_failure_is_final(config, head, tail, j);
    } else if issued_at(config, events, j) !is Abort {
        law_operation_has_its_place(config, events, j);
    }
}

} // verus!
