//! The request dispatcher.
//!
//! One worker serves the requests of one server, one at a time and from
//! beginning to end. The dispatcher is the mind of that worker. It holds what
//! lasts from one request to the next (the configuration and the handle to the
//! window, once found) and where the worker stands in serving the current one.
//! The worker does what the dispatcher asks for (an `Action`), tells it how
//! that went (an `Event`), and is told what to do next.
//!
//! `react` states the whole behaviour over plain values; `Dispatcher::step` is
//! its executable form.

use crate::binder::{resolve, SurfaceBinder};
use crate::config::{address_text, Config};
use crate::operation::{
    advance, begin, first_step, fits, next_step, Effect, EffectView, Operation, OperationView,
    Progress, ProgressView, Report, ReportView, Stage,
};
use crate::reply::{
    body_unreadable, not_ready, reply_to, surface_not_ready, unreadable, usage_reply, Reply,
    ReplyView,
};
use crate::result::{ErrorKind, Failure, FailureView, OperationResult, OperationResultView};
use crate::route::{route, route_of, Route};
use vstd::prelude::*;

verus! {

/// Longest time, in milliseconds, that the worker waits for a request at a
/// stretch. When it has passed the worker wakes, sees whether it is to stop,
/// and waits again.
pub const POLL_TIMEOUT_MILLIS: u64 = 500;

/// Where the worker stands.
#[derive(Debug, Clone, Copy, PartialEq, Eq, Structural)]
pub enum Phase {
    /// It is about to listen on the configured address.
    Binding,
    /// It waits for a request. No request is being served.
    Idle,
    /// It looks up the window for a request with this route.
    Resolving { route: Route },
    /// It reads the body of a request to run a script.
    ReadingBody { wait: Option<u64> },
    /// It performs a step of the operation.
    Executing { stage: Stage },
    /// It sends the reply.
    Replying,
    /// It has stopped for good.
    Stopped,
}

/// How reading the body of a request went.
#[derive(Debug, Clone, PartialEq, Eq)]
pub enum BodyRead {
    /// The body, as text.
    Text(String),
    /// The body could not be read as text, for this reason.
    Unreadable(String),
}

/// A `BodyRead` as the values it holds.
pub enum BodyReadView {
    Text(Seq<char>),
    Unreadable(Seq<char>),
}

impl View for BodyRead {
    type V = BodyReadView;

    open spec fn view(&self) -> BodyReadView {
        match self {
            BodyRead::Text(text) => BodyReadView::Text(text@),
            BodyRead::Unreadable(reason) => BodyReadView::Unreadable(reason@),
        }
    }
}

/// What the worker tells the dispatcher. `H` is the handle type of the host
/// application.
#[derive(Debug)]
pub enum Event<H> {
    /// The server listens.
    Listening,
    /// The server could not listen, for this reason.
    BindFailed(String),
    /// A request came in, with this target.
    Request { target: Vec<u8> },
    /// No request came in while the worker waited.
    Quiet,
    /// The host asked the worker to stop.
    Shutdown,
    /// The lookup of the window is over: here is its handle, or there is no
    /// such window yet.
    Looked(Option<H>),
    /// The body of the request was read, or could not be.
    Body(BodyRead),
    /// A step of the operation was performed.
    Report(Report),
    /// The reply was handed over for sending, whether or not it arrived.
    Sent,
}

/// An `Event` as the values it holds.
pub enum EventView<H> {
    Listening,
    BindFailed(Seq<char>),
    Request { target: Seq<u8> },
    Quiet,
    Shutdown,
    Looked(Option<H>),
    Body(BodyReadView),
    Report(ReportView),
    Sent,
}

impl<H> View for Event<H> {
    type V = EventView<H>;

    open spec fn view(&self) -> EventView<H> {
        match self {
            Event::Listening => EventView::Listening,
            Event::BindFailed(reason) => EventView::BindFailed(reason@),
            Event::Request { target } => EventView::Request { target: target@ },
            Event::Quiet => EventView::Quiet,
            Event::Shutdown => EventView::Shutdown,
            Event::Looked(found) => EventView::Looked(*found),
            Event::Body(read) => EventView::Body(read@),
            Event::Report(report) => EventView::Report(report@),
            Event::Sent => EventView::Sent,
        }
    }
}

/// What the dispatcher asks of the worker.
#[derive(Debug, Clone, PartialEq, Eq)]
pub enum Action {
    /// Listen on `address`.
    Listen { address: String },
    /// Wait for a request, `timeout_millis` at the longest.
    Poll { timeout_millis: u64 },
    /// Look up the window named `label`.
    Lookup { label: String },
    /// Read the body of the request as text.
    ReadBody,
    /// Perform a step of the operation on the window.
    Perform(Effect),
    /// Send `reply` to the client of the request.
    Respond(Reply),
    /// Stop. `failure` says why, unless the host asked for it.
    Halt { failure: Option<Failure> },
}

/// An `Action` as the values it holds.
pub enum ActionView {
    Listen { address: Seq<char> },
    Poll { timeout_millis: u64 },
    Lookup { label: Seq<char> },
    ReadBody,
    Perform(EffectView),
    Respond(ReplyView),
    Halt { failure: Option<FailureView> },
}

impl View for Action {
    type V = ActionView;

    open spec fn view(&self) -> ActionView {
        match self {
            Action::Listen { address } => ActionView::Listen { address: address@ },
            Action::Poll { timeout_millis } => ActionView::Poll { timeout_millis: *timeout_millis },
            Action::Lookup { label } => ActionView::Lookup { label: label@ },
            Action::ReadBody => ActionView::ReadBody,
            Action::Perform(effect) => ActionView::Perform(effect@),
            Action::Respond(reply) => ActionView::Respond(reply@),
            Action::Halt { failure } => ActionView::Halt {
                failure: match failure {
                    Some(failure) => Some(failure@),
                    None => None,
                },
            },
        }
    }
}

/// A dispatcher as the values it holds: the label of the window, the address
/// of the server, the handle to the window if it was found, and the phase.
pub struct DispatcherView<H> {
    pub label: Seq<char>,
    pub address: Seq<char>,
    pub surface: Option<H>,
    pub phase: Phase,
}

impl<H> DispatcherView<H> {
    /// The same dispatcher in another phase.
    pub open spec fn at(self, phase: Phase) -> Self {
        DispatcherView { phase, ..self }
    }

    /// The same dispatcher after a lookup that came back with `found`.
    pub open spec fn after_lookup(self, found: Option<H>) -> Self {
        DispatcherView { surface: resolve(self.surface, found), ..self }
    }

    /// Whether a request is being served.
    pub open spec fn busy(self) -> bool {
        match self.phase {
            Phase::Resolving { .. }
            | Phase::ReadingBody { .. }
            | Phase::Executing { .. }
            | Phase::Replying => true,
            _ => false,
        }
    }

    /// What holds of every dispatcher that `launch` and `step` produce: the
    /// body of a request is read, and an operation performed, only once the
    /// window was found.
    pub open spec fn wf(self) -> bool {
        (self.phase is ReadingBody || self.phase is Executing) ==> self.surface is Some
    }
}

/// The request to wait for the next request.
pub open spec fn poll() -> ActionView {
    ActionView::Poll { timeout_millis: POLL_TIMEOUT_MILLIS }
}

/// Why a worker stops that could not listen on `address`.
pub open spec fn bind_failed(address: Seq<char>, reason: Seq<char>) -> FailureView {
    FailureView {
        kind: ErrorKind::BindFailed,
        message: "failed to start on "@ + address + ": "@ + reason,
    }
}

/// Starting `operation`: its first step is asked for.
pub open spec fn start<H>(state: DispatcherView<H>, operation: OperationView) -> (
    DispatcherView<H>,
    ActionView,
) {
    let (stage, effect) = first_step(operation);
    (state.at(Phase::Executing { stage }), ActionView::Perform(effect))
}

/// Ending the request with `result`: the reply that tells of it is sent.
pub open spec fn conclude<H>(state: DispatcherView<H>, result: OperationResultView) -> Option<
    (DispatcherView<H>, ActionView),
> {
    match reply_to(result) {
        Some(reply) => Some((state.at(Phase::Replying), ActionView::Respond(reply))),
        None => None,
    }
}

/// Going where `route` leads, once the window is at hand.
pub open spec fn dispatch<H>(state: DispatcherView<H>, route: Route) -> (
    DispatcherView<H>,
    ActionView,
) {
    match route {
        Route::Screenshot => start(state, OperationView::Capture),
        Route::Eval { wait } => (state.at(Phase::ReadingBody { wait }), ActionView::ReadBody),
        Route::Usage => (state.at(Phase::Replying), ActionView::Respond(usage_reply())),
    }
}

/// What the dispatcher does on `event`: the state it is in afterwards and
/// the action it asks for. An event that the phase does not wait for is not
/// taken: there is no reaction to it.
pub open spec fn react<H>(state: DispatcherView<H>, event: EventView<H>) -> Option<
    (DispatcherView<H>, ActionView),
> {
    match (state.phase, event) {
        (Phase::Binding, EventView::Listening) => Some((state.at(Phase::Idle), poll())),
        (Phase::Binding, EventView::BindFailed(reason)) => Some(
            (
                state.at(Phase::Stopped),
                ActionView::Halt { failure: Some(bind_failed(state.address, reason)) },
            ),
        ),
        (Phase::Idle, EventView::Quiet) => Some((state, poll())),
        (Phase::Idle, EventView::Shutdown) => Some(
            (state.at(Phase::Stopped), ActionView::Halt { failure: None }),
        ),
        (Phase::Idle, EventView::Request { target }) => if state.surface is Some {
            Some(dispatch(state, route_of(target)))
        } else {
            Some(
                (
                    state.at(Phase::Resolving { route: route_of(target) }),
                    ActionView::Lookup { label: state.label },
                ),
            )
        },
        (Phase::Resolving { route }, EventView::Looked(found)) => if state.after_lookup(
            found,
        ).surface is Some {
            Some(dispatch(state.after_lookup(found), route))
        } else {
            conclude(state, not_ready(state.label))
        },
        (Phase::ReadingBody { wait }, EventView::Body(BodyReadView::Text(script))) => Some(
            start(state, OperationView::RunScript { script, wait }),
        ),
        (
            Phase::ReadingBody { .. },
            EventView::Body(BodyReadView::Unreadable(reason)),
        ) => conclude(state, unreadable(reason)),
        (Phase::Executing { stage }, EventView::Report(report)) => match next_step(
            stage,
            report,
        ) {
            Some(ProgressView::Next { stage: later, effect }) => Some(
                (state.at(Phase::Executing { stage: later }), ActionView::Perform(effect)),
            ),
            Some(ProgressView::Done(result)) => conclude(state, result),
            None => None,
        },
        (Phase::Replying, EventView::Sent) => Some((state.at(Phase::Idle), poll())),
        _ => None,
    }
}

/// The state after `event`: as `react` says, or unchanged if the event is
/// not taken.
pub open spec fn state_after<H>(state: DispatcherView<H>, event: EventView<H>) -> DispatcherView<
    H,
> {
    match react(state, event) {
        Some((after, _)) => after,
        None => state,
    }
}

/// The action asked for on `event`, if the event is taken.
pub open spec fn action_on<H>(state: DispatcherView<H>, event: EventView<H>) -> Option<
    ActionView,
> {
    match react(state, event) {
        Some((_, action)) => Some(action),
        None => None,
    }
}

/// Whether `phase` waits for `event`.
pub open spec fn awaits<H>(phase: Phase, event: EventView<H>) -> bool {
    match phase {
        Phase::Binding => event is Listening || event is BindFailed,
        Phase::Idle => event is Request || event is Quiet || event is Shutdown,
        Phase::Resolving { .. } => event is Looked,
        Phase::ReadingBody { .. } => event is Body,
        Phase::Executing { stage } => event matches EventView::Report(report)
            && fits(stage, report),
        Phase::Replying => event is Sent,
        Phase::Stopped => false,
    }
}

/// The mind of the worker. `H` is the handle type of the host application.
#[derive(Debug)]
pub struct Dispatcher<H> {
    config: Config,
    binder: SurfaceBinder<H>,
    phase: Phase,
}

impl<H> View for Dispatcher<H> {
    type V = DispatcherView<H>;

    closed spec fn view(&self) -> DispatcherView<H> {
        DispatcherView {
            label: self.config.window_label@,
            address: address_text(self.config.host@, self.config.port),
            surface: self.binder@,
            phase: self.phase,
        }
    }
}

impl<H> Dispatcher<H> {
    /// A dispatcher for a server configured by `config`, and the first thing
    /// its worker is to do: listen. The window is not looked up yet: it may
    /// not exist before the first request comes.
    pub fn launch(config: Config) -> (start: (Self, Action))
        ensures
            start.0@ == (DispatcherView::<H> {
                label: config.window_label@,
                address: address_text(config.host@, config.port),
                surface: None,
                phase: Phase::Binding,
            }),
            start.1@ == (ActionView::Listen {
                address: address_text(config.host@, config.port),
            }),
            start.0@.wf(),
    {
        let address = config.bind_address();
        let dispatcher = Dispatcher { config, binder: SurfaceBinder::new(), phase: Phase::Binding };
        (dispatcher, Action::Listen { address })
    }

    /// Where the worker stands.
    pub fn phase(&self) -> (phase: Phase)
        ensures
            phase == self@.phase,
    {
        self.phase
    }

    /// The handle to the window, once it was found. It is the same handle
    /// from then on.
    pub fn surface(&self) -> (handle: Option<&H>)
        ensures
            match handle {
                Some(h) => self@.surface == Some(*h),
                None => self@.surface is None,
            },
    {
        self.binder.handle()
    }

    /// Takes what the worker tells and gives what it is to do next, as `react`
    /// says. An event that the phase does not wait for gives nothing and
    /// changes nothing.
    pub fn step(&mut self, event: Event<H>) -> (action: Option<Action>)
        ensures
            action is Some <==> awaits(old(self)@.phase, event@),
            match action {
                Some(a) => react(old(self)@, event@) == Some((final(self)@, a@)),
                None => react(old(self)@, event@) is None && final(self)@ == old(self)@,
            },
            old(self)@.wf() ==> final(self)@.wf(),
    {
        let phase = self.phase;
        match phase {
            Phase::Binding => match event {
                Event::Listening => {
                    self.phase = Phase::Idle;
                    Some(Action::Poll { timeout_millis: POLL_TIMEOUT_MILLIS })
                },
                Event::BindFailed(reason) => {
                    let mut message = String::from_str("failed to start on ");
                    let address = self.config.bind_address();
                    message.append(address.as_str());
                    message.append(": ");
                    message.append(reason.as_str());
                    self.phase = Phase::Stopped;
                    Some(
                        Action::Halt {
                            failure: Some(Failure { kind: ErrorKind::BindFailed, message }),
                        },
                    )
                },
                _ => None,
            },
            Phase::Idle => match event {
                Event::Quiet => Some(Action::Poll { timeout_millis: POLL_TIMEOUT_MILLIS }),
                Event::Shutdown => {
                    self.phase = Phase::Stopped;
                    Some(Action::Halt { failure: None })
                },
                Event::Request { target } => {
                    let route = route(target.as_slice());
                    if self.binder.is_bound() {
                        Some(self.dispatch(route))
                    } else {
                        self.phase = Phase::Resolving { route };
                        Some(Action::Lookup { label: self.config.window_label.clone() })
                    }
                },
                _ => None,
            },
            Phase::Resolving { route } => match event {
                Event::Looked(found) => {
                    if self.binder.offer(found) {
                        Some(self.dispatch(route))
                    } else {
                        let failure = surface_not_ready(self.config.window_label.as_str());
                        self.conclude(failure)
                    }
                },
                _ => None,
            },
            Phase::ReadingBody { wait } => match event {
                Event::Body(BodyRead::Text(script)) => Some(
                    self.start(Operation::RunScript { script, wait }),
                ),
                Event::Body(BodyRead::Unreadable(reason)) => {
                    let failure = body_unreadable(reason.as_str());
                    self.conclude(failure)
                },
                _ => None,
            },
            Phase::Executing { stage } => match event {
                Event::Report(report) => match advance(stage, report) {
                    Some(Progress::Next { stage: later, effect }) => {
                        self.phase = Phase::Executing { stage: later };
                        Some(Action::Perform(effect))
                    },
                    Some(Progress::Done(result)) => self.conclude(result),
                    None => None,
                },
                _ => None,
            },
            Phase::Replying => match event {
                Event::Sent => {
                    self.phase = Phase::Idle;
                    Some(Action::Poll { timeout_millis: POLL_TIMEOUT_MILLIS })
                },
                _ => None,
            },
            Phase::Stopped => None,
        }
    }

    /// Starts `operation`.
    fn start(&mut self, operation: Operation) -> (action: Action)
        ensures
            (final(self)@, action@) == start(old(self)@, operation@),
    {
        let (stage, effect) = begin(operation);
        self.phase = Phase::Executing { stage };
        Action::Perform(effect)
    }

    /// Ends the request with `result`, if a client can be told of it.
    fn conclude(&mut self, result: OperationResult) -> (action: Option<Action>)
        ensures
            match action {
                Some(a) => conclude(old(self)@, result@) == Some((final(self)@, a@)),
                None => conclude(old(self)@, result@) is None && final(self)@ == old(self)@,
            },
    {
        match Reply::to_result(result) {
            Some(reply) => {
                self.phase = Phase::Replying;
                Some(Action::Respond(reply))
            },
            None => None,
        }
    }

    /// Goes where `route` leads.
    fn dispatch(&mut self, route: Route) -> (action: Action)
        ensures
            (final(self)@, action@) == dispatch(old(self)@, route),
    {
        match route {
            Route::Screenshot => self.start(Operation::Capture),
            Route::Eval { wait } => {
                self.phase = Phase::ReadingBody { wait };
                Action::ReadBody
            },
            Route::Usage => {
                self.phase = Phase::Replying;
                Action::Respond(Reply::usage())
            },
        }
    }
}

} // verus!
