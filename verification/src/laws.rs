//! What holds of the dispatcher over whole requests and whole runs.
//!
//! `react` says what the dispatcher does on one event. The statements here
//! follow it through: through the events of one request (`serve`), and through
//! any sequence of events a worker may tell (`run`).

use crate::binder::resolve;
use crate::capture::{timeout_text, CaptureOutcomeView};
use crate::dispatch::{
    action_on, awaits, react, state_after, ActionView, BodyReadView, DispatcherView, EventView,
    Phase,
};
use crate::operation::{
    capture_effect, execute, report_of, script_failed_text, Answers, EffectView,
    EvaluationView, OperationView, ReportView, Stage,
};
use crate::reply::{
    not_ready, not_ready_text, reply_to, unreadable, usage_reply, BodyView, ReplyView,
};
use crate::result::{
    STATUS_CAPTURE_FAILED, STATUS_NOT_READY, STATUS_OK, STATUS_SCRIPT_FAILED,
};
use crate::route::{route_of, Route};
use vstd::prelude::*;

verus! {

/// What a worker finds while it serves one request: the window or none, the
/// body of the request, and the answers of the window.
pub struct World<H> {
    pub found: Option<H>,
    pub body: BodyReadView,
    pub answers: Answers,
}

/// What the worker tells after it has done `action` in `world`. Sending a
/// reply, waiting for a request, listening and stopping are not part of
/// serving a request.
pub open spec fn told<H>(action: ActionView, world: World<H>) -> Option<EventView<H>> {
    match action {
        ActionView::Lookup { .. } => Some(EventView::Looked(world.found)),
        ActionView::ReadBody => Some(EventView::Body(world.body)),
        ActionView::Perform(effect) => Some(EventView::Report(report_of(effect, world.answers))),
        _ => None,
    }
}

/// Serving a request: from `event` on, the worker does each action in `world`
/// and tells the outcome, until it is asked to send a reply. Gives the reply
/// and the state the dispatcher is then in. `fuel` bounds the number of
/// events; six are enough for any request.
pub open spec fn serve<H>(
    state: DispatcherView<H>,
    event: EventView<H>,
    world: World<H>,
    fuel: nat,
) -> Option<(DispatcherView<H>, ReplyView)>
    decreases fuel,
{
    if fuel == 0 {
        None
    } else {
        match react(state, event) {
            Some((next, ActionView::Respond(reply))) => Some((next, reply)),
            Some((next, action)) => match told(action, world) {
                Some(outcome) => serve(next, outcome, world, (fuel - 1) as nat),
                None => None,
            },
            None => None,
        }
    }
}

/// The reply a request for `target` is owed in `world`.
///
/// While there is no window, every request is told so. Once there is one, an
/// unknown path is told what the server offers, `/screenshot` gets what the
/// capture gives, and `/eval` gets what running the body as a script gives,
/// or is told that the body could not be read.
pub open spec fn owed<H>(state: DispatcherView<H>, target: Seq<u8>, world: World<H>) -> Option<
    ReplyView,
> {
    if resolve(state.surface, world.found) is None {
        reply_to(not_ready(state.label))
    } else {
        match route_of(target) {
            Route::Usage => Some(usage_reply()),
            Route::Screenshot => reply_to(execute(OperationView::Capture, world.answers)),
            Route::Eval { wait } => match world.body {
                BodyReadView::Unreadable(reason) => reply_to(unreadable(reason)),
                BodyReadView::Text(script) => reply_to(
                    execute(OperationView::RunScript { script, wait }, world.answers),
                ),
            },
        }
    }
}

/// The state after the worker has told `events`, one after the other. An
/// event that is not taken changes nothing.
pub open spec fn run<H>(state: DispatcherView<H>, events: Seq<EventView<H>>) -> DispatcherView<H>
    decreases events.len(),
{
    if events.len() == 0 {
        state
    } else {
        state_after(run(state, events.drop_last()), events.last())
    }
}

/// What the dispatcher asks for on the last of `events`, if it takes it.
pub open spec fn asked<H>(state: DispatcherView<H>, events: Seq<EventView<H>>) -> Option<
    ActionView,
> {
    if events.len() == 0 {
        None
    } else {
        action_on(run(state, events.drop_last()), events.last())
    }
}

/// Whether the last of `events` is the lookup that finds the window.
pub open spec fn finds_window<H>(state: DispatcherView<H>, events: Seq<EventView<H>>) -> bool {
    events.len() > 0 && run(state, events.drop_last()).surface is None && run(
        state,
        events,
    ).surface is Some
}

/// How many requests the dispatcher has taken while the worker told `events`.
pub open spec fn requests_taken<H>(state: DispatcherView<H>, events: Seq<EventView<H>>) -> nat
    decreases events.len(),
{
    if events.len() == 0 {
        0
    } else {
        let earlier = requests_taken(state, events.drop_last());
        if events.last() is Request && asked(state, events) is Some {
            earlier + 1
        } else {
            earlier
        }
    }
}

/// How many replies the dispatcher has asked to send while the worker told
/// `events`.
pub open spec fn replies_asked<H>(state: DispatcherView<H>, events: Seq<EventView<H>>) -> nat
    decreases events.len(),
{
    if events.len() == 0 {
        0
    } else {
        let earlier = replies_asked(state, events.drop_last());
        if asked(state, events) matches Some(ActionView::Respond(_)) {
            earlier + 1
        } else {
            earlier
        }
    }
}

/// How many replies were sent while the worker told `events`.
pub open spec fn replies_sent<H>(state: DispatcherView<H>, events: Seq<EventView<H>>) -> nat
    decreases events.len(),
{
    if events.len() == 0 {
        0
    } else {
        let earlier = replies_sent(state, events.drop_last());
        if events.last() is Sent && asked(state, events) is Some {
            earlier + 1
        } else {
            earlier
        }
    }
}

/// The most events the worker still has to tell before the request it serves
/// is answered and done with.
pub open spec fn steps_left(phase: Phase) -> nat {
    match phase {
        Phase::Resolving { .. } => 6,
        Phase::ReadingBody { .. } => 5,
        Phase::Executing { stage: Stage::Evaluating { .. } } => 4,
        Phase::Executing { stage: Stage::Sleeping } => 3,
        Phase::Executing { stage: Stage::Capturing } => 2,
        Phase::Replying => 1,
        _ => 0,
    }
}

/// The reply to a request that came before the window named `label` existed.
pub open spec fn not_ready_reply(label: Seq<char>) -> ReplyView {
    ReplyView { status: STATUS_NOT_READY, body: BodyView::Text(not_ready_text(label)) }
}

/// The reply to a request whose capture did not complete within the ceiling.
pub open spec fn timeout_reply() -> ReplyView {
    ReplyView { status: STATUS_CAPTURE_FAILED, body: BodyView::Text(timeout_text()) }
}

/// The dispatcher takes an event exactly when its phase waits for it.
pub proof fn law_takes_what_it_waits_for<H>(state: DispatcherView<H>, event: EventView<H>)
    ensures
        react(state, event) is Some <==> awaits(state.phase, event),
{
}

/// Whatever the dispatcher takes, it stays well-formed: it never reads a
/// body or performs an operation without the window.
pub proof fn law_stays_well_formed<H>(state: DispatcherView<H>, event: EventView<H>)
    requires
        state.wf(),
        react(state, event) is Some,
    ensures
        state_after(state, event).wf(),
        state_after(state, event).label == state.label,
        state_after(state, event).address == state.address,
{
}

/// The window is bound once and for all: what the dispatcher takes never
/// changes or drops a handle it holds.
pub proof fn law_handle_is_kept<H>(state: DispatcherView<H>, event: EventView<H>)
    requires
        state.surface is Some,
        react(state, event) is Some,
    ensures
        state_after(state, event).surface == state.surface,
        !(action_on(state, event) matches Some(ActionView::Lookup { .. })),
{
}

/// The window is looked up on demand: only for a request that comes while
/// no handle is held, and by the configured label. It is never looked up
/// while the server starts.
pub proof fn law_window_is_looked_up_on_demand<H>(state: DispatcherView<H>, event: EventView<H>)
    requires
        action_on(state, event) matches Some(ActionView::Lookup { .. }),
    ensures
        event is Request,
        state.phase is Idle,
        state.surface is None,
        action_on(state, event) == Some(ActionView::Lookup { label: state.label }),
{
}

/// The worker stops only when the host asks an idle worker to, or when the
/// server cannot listen. Nothing that happens to a request stops it.
pub proof fn law_halts_only_when_told<H>(state: DispatcherView<H>, event: EventView<H>)
    requires
        action_on(state, event) matches Some(ActionView::Halt { .. }),
    ensures
        (state.phase is Idle && event is Shutdown) || (state.phase is Binding
            && event is BindFailed),
        state_after(state, event).phase is Stopped,
{
}

/// Every request is served as `owed` says: from the request on, with the
/// worker telling what it finds in `world`, the dispatcher asks for the reply
/// owed and for no other, and has by then bound the window if it was found.
pub proof fn law_serves_what_is_owed<H>(
    state: DispatcherView<H>,
    target: Seq<u8>,
    world: World<H>,
)
    requires
        state.phase is Idle,
    ensures
        owed(state, target, world) is Some,
        serve(state, EventView::Request { target }, world, 6) == Some(
            (state.after_lookup(world.found).at(Phase::Replying), owed(state, target, world)->0),
        ),
{
    reveal_with_fuel(serve, 7);
}

/// While there is no window, a request for any target is answered with the
/// status for "not ready", and neither its body is read nor any operation
/// performed: the lookup is the one thing the worker is asked to do.
pub proof fn law_not_ready_without_window<H>(
    state: DispatcherView<H>,
    target: Seq<u8>,
    world: World<H>,
)
    requires
        state.phase is Idle,
        state.surface is None,
        world.found is None,
    ensures
        react(state, EventView::Request { target }) == Some(
            (
                state.at(Phase::Resolving { route: route_of(target) }),
                ActionView::Lookup { label: state.label },
            ),
        ),
        react(
            state.at(Phase::Resolving { route: route_of(target) }),
            EventView::<H>::Looked(None),
        ) == Some(
            (state.at(Phase::Replying), ActionView::Respond(not_ready_reply(state.label))),
        ),
        owed(state, target, world) == Some(not_ready_reply(state.label)),
{
}

/// In a run in which no lookup finds the window, the window stays unbound,
/// every reply is the one for "not ready", and the worker is never asked to
/// read a body or to perform an operation.
pub proof fn law_nothing_runs_before_the_window<H>(
    state: DispatcherView<H>,
    events: Seq<EventView<H>>,
)
    requires
        state.wf(),
        state.surface is None,
        forall|i: int|
            0 <= i < events.len() ==> !(#[trigger] events[i] matches EventView::Looked(Some(_))),
    ensures
        run(state, events).wf(),
        run(state, events).surface is None,
        run(state, events).label == state.label,
        forall|n: int|
            0 < n <= events.len() ==> match #[trigger] asked(state, events.take(n)) {
                Some(ActionView::Perform(_)) => false,
                Some(ActionView::ReadBody) => false,
                Some(ActionView::Respond(reply)) => reply == not_ready_reply(state.label),
                _ => true,
            },
    decreases events.len(),
{
    if events.len() > 0 {
        let earlier = events.drop_last();
        law_nothing_runs_before_the_window(state, earlier);
        let before = run(state, earlier);
        assert(!(events.last() matches EventView::Looked(Some(_)))) by {
            assert(events.last() == events[events.len() - 1]);
        }
        assert forall|n: int| 0 < n <= events.len() implies match #[trigger] asked(
            state,
            events.take(n),
        ) {
            Some(ActionView::Perform(_)) => false,
            Some(ActionView::ReadBody) => false,
            Some(ActionView::Respond(reply)) => reply == not_ready_reply(state.label),
            _ => true,
        } by {
            if n < events.len() {
                assert(events.take(n) =~= earlier.take(n));
            } else {
                assert(events.take(n) =~= events);
            }
        }
    }
}

/// Once the window is bound it stays bound to the same handle through any
/// run, and the worker is never again asked to look it up.
pub proof fn law_window_is_looked_up_no_more<H>(
    state: DispatcherView<H>,
    events: Seq<EventView<H>>,
)
    requires
        state.surface is Some,
    ensures
        run(state, events).surface == state.surface,
        forall|n: int|
            0 < n <= events.len() ==> !(#[trigger] asked(state, events.take(n)) matches Some(
                ActionView::Lookup { .. },
            )),
    decreases events.len(),
{
    if events.len() > 0 {
        let earlier = events.drop_last();
        law_window_is_looked_up_no_more(state, earlier);
        assert forall|n: int| 0 < n <= events.len() implies !(#[trigger] asked(
            state,
            events.take(n),
        ) matches Some(ActionView::Lookup { .. })) by {
            if n < events.len() {
                assert(events.take(n) =~= earlier.take(n));
            } else {
                assert(events.take(n) =~= events);
            }
        }
    }
}

/// A longer run goes on from where the shorter one ended.
pub proof fn lemma_run_goes_on<H>(state: DispatcherView<H>, events: Seq<EventView<H>>, n: int)
    requires
        0 <= n <= events.len(),
    ensures
        run(state, events) == run(run(state, events.take(n)), events.skip(n)),
    decreases events.len() - n,
{
    let rest = events.skip(n);
    if n == events.len() {
        assert(events.take(n) =~= events);
        assert(rest.len() == 0);
    } else {
        assert(events.drop_last().take(n) =~= events.take(n));
        assert(events.drop_last().skip(n) =~= rest.drop_last());
        assert(rest.last() == events.last());
        lemma_run_goes_on(state, events.drop_last(), n);
    }
}

/// In any run at most one lookup finds the window: once one has, none after
/// it does.
pub proof fn law_window_is_found_once<H>(
    state: DispatcherView<H>,
    events: Seq<EventView<H>>,
    m: int,
    n: int,
)
    requires
        0 < m < n <= events.len(),
        finds_window(state, events.take(m)),
    ensures
        !finds_window(state, events.take(n)),
{
    let first = events.take(m);
    let second = events.take(n).drop_last();
    assert(second.take(m) =~= first);
    lemma_run_goes_on(state, second, m);
    law_window_is_looked_up_no_more(run(state, first), second.skip(m));
}

/// Requests are served one at a time. In any run that starts with no request
/// being served, a request is taken only when every request before it has
/// been answered and the answer sent: the numbers of requests taken, replies
/// asked for and replies sent never differ by more than one, and a request
/// is being served exactly while one more was taken than replies were sent.
pub proof fn law_one_request_at_a_time<H>(state: DispatcherView<H>, events: Seq<EventView<H>>)
    requires
        !state.busy(),
    ensures
        replies_sent(state, events) <= replies_asked(state, events) <= requests_taken(
            state,
            events,
        ) <= replies_sent(state, events) + 1,
        run(state, events).busy() <==> requests_taken(state, events) == replies_sent(
            state,
            events,
        ) + 1,
        run(state, events).phase is Replying <==> replies_asked(state, events) == replies_sent(
            state,
            events,
        ) + 1,
    decreases events.len(),
{
    if events.len() > 0 {
        law_one_request_at_a_time(state, events.drop_last());
    }
}

/// A request is taken only while no request is being served, and from then
/// on one is.
pub proof fn law_request_waits_its_turn<H>(state: DispatcherView<H>, target: Seq<u8>)
    ensures
        react(state, EventView::Request { target }) is Some <==> state.phase is Idle,
        react(state, EventView::Request { target }) is Some ==> !state.busy() && state_after(
            state,
            EventView::Request { target },
        ).busy(),
{
}

/// No request is left unanswered. While a request is being served, each
/// event the dispatcher takes brings the end of the request nearer, the
/// reply is asked for exactly on entering the phase that sends it, and the
/// worker waits for the next request only when the reply was sent.
pub proof fn law_every_request_is_answered<H>(state: DispatcherView<H>, event: EventView<H>)
    requires
        state.busy(),
        react(state, event) is Some,
    ensures
        steps_left(state_after(state, event).phase) < steps_left(state.phase),
        action_on(state, event) matches Some(ActionView::Respond(_)) <==> state_after(
            state,
            event,
        ).phase is Replying,
        action_on(state, event) matches Some(ActionView::Poll { .. }) <==> state.phase is Replying,
        !(action_on(state, event) matches Some(ActionView::Halt { .. })),
{
}

/// A capture that succeeds is delivered as it is: a request whose path is
/// `/screenshot`, on a window whose capture gives `bytes`, is answered with
/// status 200 and exactly those bytes as a PNG image.
pub proof fn law_capture_is_delivered<H>(
    state: DispatcherView<H>,
    target: Seq<u8>,
    world: World<H>,
    bytes: Seq<u8>,
)
    requires
        state.phase is Idle,
        resolve(state.surface, world.found) is Some,
        route_of(target) == Route::Screenshot,
        world.answers.capture == CaptureOutcomeView::Image(bytes),
    ensures
        owed(state, target, world) == Some(
            ReplyView { status: STATUS_OK, body: BodyView::Png(bytes) },
        ),
{
}

/// A capture that does not complete within the ceiling is answered with the
/// status for a failed capture and the text that says so.
pub proof fn law_capture_timeout_is_told<H>(
    state: DispatcherView<H>,
    target: Seq<u8>,
    world: World<H>,
)
    requires
        state.phase is Idle,
        resolve(state.surface, world.found) is Some,
        route_of(target) == Route::Screenshot,
        world.answers.capture == CaptureOutcomeView::TimedOut,
    ensures
        owed(state, target, world) == Some(timeout_reply()),
        react(state.after_lookup(world.found), EventView::Request { target }) == Some(
            (
                state.after_lookup(world.found).at(
                    Phase::Executing { stage: Stage::Capturing },
                ),
                ActionView::Perform(capture_effect()),
            ),
        ),
{
}

/// A script that fails is answered with the status for a failed script and
/// what the window said of it, whatever delay was asked for.
pub proof fn law_failed_script_is_told<H>(
    state: DispatcherView<H>,
    target: Seq<u8>,
    world: World<H>,
    script: Seq<char>,
    reason: Seq<char>,
)
    requires
        state.phase is Idle,
        resolve(state.surface, world.found) is Some,
        route_of(target) is Eval,
        world.body == BodyReadView::Text(script),
        world.answers.evaluation == EvaluationView::Failed(reason),
    ensures
        owed(state, target, world) == Some(
            ReplyView {
                status: STATUS_SCRIPT_FAILED,
                body: BodyView::Text(script_failed_text(reason)),
            },
        ),
{
}

/// A script that fails ends the request at once: the reply is asked for
/// next, so no delay passes and no capture is taken, whatever delay the
/// request asked for.
pub proof fn law_failed_script_ends_the_request<H>(
    state: DispatcherView<H>,
    wait: Option<u64>,
    reason: Seq<char>,
)
    requires
        state.phase == (Phase::Executing { stage: Stage::Evaluating { wait } }),
    ensures
        react(state, EventView::Report(ReportView::Evaluated(EvaluationView::Failed(reason))))
            == Some(
            (
                state.at(Phase::Replying),
                ActionView::Respond(
                    ReplyView {
                        status: STATUS_SCRIPT_FAILED,
                        body: BodyView::Text(script_failed_text(reason)),
                    },
                ),
            ),
        ),
{
}

/// A delay stands between the script and the capture: when the script has
/// run, the worker is asked to let the whole delay pass, and only when it
/// has is the capture asked for.
pub proof fn law_delay_precedes_capture<H>(state: DispatcherView<H>, millis: u64)
    requires
        state.phase == (Phase::Executing { stage: Stage::Evaluating { wait: Some(millis) } }),
    ensures
        react(state, EventView::Report(ReportView::Evaluated(EvaluationView::Ran))) == Some(
            (
                state.at(Phase::Executing { stage: Stage::Sleeping }),
                ActionView::Perform(EffectView::Sleep { millis }),
            ),
        ),
        react(
            state.at(Phase::Executing { stage: Stage::Sleeping }),
            EventView::<H>::Report(ReportView::Slept),
        ) == Some(
            (
                state.at(Phase::Executing { stage: Stage::Capturing }),
                ActionView::Perform(capture_effect()),
            ),
        ),
        forall|outcome: CaptureOutcomeView|
            #[trigger] react(
                state.at(Phase::Executing { stage: Stage::Sleeping }),
                EventView::<H>::Report(ReportView::Captured(outcome)),
            ) is None,
{
}

/// A request for a path that is neither `/screenshot` nor `/eval` is
/// answered with what the server offers, once there is a window.
pub proof fn law_unknown_path_gets_usage<H>(
    state: DispatcherView<H>,
    target: Seq<u8>,
    world: World<H>,
)
    requires
        state.phase is Idle,
        resolve(state.surface, world.found) is Some,
        route_of(target) == Route::Usage,
    ensures
        owed(state, target, world) == Some(usage_reply()),
{
}

} // verus!
