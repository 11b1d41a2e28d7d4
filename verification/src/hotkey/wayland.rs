//! The session manager for global shortcuts that a desktop portal hands out.
//!
//! The manager decides; it performs nothing itself. A registration is a
//! conversation: [`WaylandHotkeyManager::register`] answers with the first
//! [`Action`], the caller carries it out and reports what happened through
//! [`WaylandHotkeyManager::advance`], which answers with the next one, until
//! the answer is [`Action::Complete`]. The order of the actions is the point:
//! the listener of an earlier registration is stopped, and seen to be gone,
//! before a connection for the new one is opened.

use vstd::prelude::*;
use vstd::string::*;

use crate::hotkey::error::{
    BindFailure, BindFailureModel, ErrorModel, ListenerFailure, ListenerFailureModel, RegisterError,
    UnavailableCause, UnavailableModel,
};
use crate::hotkey::request::{
    blank_request, bound_models, extract_trigger, trigger_for, BoundModel, BoundShortcut,
    RegistrationRequest, RequestModel,
};
use crate::text::{contains, occurs_in, text_model};

verus! {

/// Seconds allowed for the previous listener to end after the stop signal.
pub const STOP_TIMEOUT_SECS: u64 = 5;

/// Seconds allowed for connecting to the portal, and for creating a session.
pub const CONNECT_TIMEOUT_SECS: u64 = 5;

/// Seconds allowed for binding: the portal may show a dialog to the user.
pub const BIND_TIMEOUT_SECS: u64 = 60;

/// Seconds allowed for the new listener to report that it is subscribed.
pub const READY_TIMEOUT_SECS: u64 = 5;

/// Where a registration stands.
#[derive(Clone, Copy, Debug, PartialEq, Eq, Structural)]
pub enum Phase {
    /// No registration is running.
    Idle,
    /// The previous listener was told to stop and is being awaited.
    StoppingPrevious,
    /// The previous listener did not stop in time and is being cancelled.
    AbortingPrevious,
    /// A connection to the portal is being opened.
    Connecting,
    /// A session is being created on the connection.
    CreatingSession,
    /// The shortcut is being bound; the user may be looking at a dialog.
    Binding,
    /// The listener for the bound session is being started.
    SpawningListener,
    /// The listener runs; its word that it is subscribed is awaited.
    AwaitingReady,
}

/// How the wait for the previous listener ended.
#[derive(Clone, Copy, Debug, PartialEq, Eq, Structural)]
pub enum StopOutcome {
    /// It ended by itself.
    Terminated,
    /// It ended by a panic.
    Panicked,
    /// It was still running when the time was up.
    TimedOut,
}

/// How connecting, or creating a session, ended.
#[derive(Debug, PartialEq, Eq)]
pub enum BrokerOutcome {
    Ready,
    TimedOut,
    Failed(String),
}

/// How binding ended.
#[derive(Debug, PartialEq, Eq)]
pub enum BindOutcome {
    /// The portal bound the session and lists what it bound.
    Bound(Vec<BoundShortcut>),
    /// No answer in time.
    TimedOut,
    /// The request failed, with the transport's words.
    Failed(String),
    /// The portal answered with a refusal, in its words.
    ResponseFailed(String),
}

/// What the new listener reported, if anything.
#[derive(Debug, PartialEq, Eq)]
pub enum ReadyOutcome {
    /// It is subscribed.
    Confirmed,
    /// It could not subscribe, with the transport's words.
    Failed(String),
    /// It ended without a report.
    Exited,
    /// No report in time.
    TimedOut,
}

/// What the caller reports back. `H` is the caller's handle to a running
/// listener: whatever it needs to signal, await and cancel it.
#[derive(Debug, PartialEq, Eq)]
pub enum Event<H> {
    PreviousStopped(StopOutcome),
    PreviousAborted,
    Connected(BrokerOutcome),
    SessionCreated(BrokerOutcome),
    BindFinished(BindOutcome),
    ListenerSpawned(H),
    ReadinessReported(ReadyOutcome),
}

/// What the caller is to do next.
#[derive(Debug, PartialEq, Eq)]
pub enum Action<H> {
    /// Signal the listener to stop, then await its end for so many seconds.
    StopListener { listener: H, timeout_secs: u64 },
    /// Cancel the listener that did not stop in time.
    AbortListener,
    /// Open a connection to the portal.
    Connect { timeout_secs: u64 },
    /// Create a session on the connection.
    CreateSession { timeout_secs: u64 },
    /// Bind the shortcut to the session.
    Bind { request: RegistrationRequest, timeout_secs: u64 },
    /// Start a listener that owns the session and dispatches this id.
    SpawnListener { shortcut_id: String },
    /// Await the listener's report that it is subscribed.
    AwaitReady { timeout_secs: u64 },
    /// The registration is over, with this result.
    Complete(Result<Option<String>, RegisterError>),
    /// The event is not the one awaited; nothing has changed. A handle
    /// that came with the event is let go.
    Rejected,
}

pub enum BrokerOutcomeModel {
    Ready,
    TimedOut,
    Failed(Seq<char>),
}

pub enum BindOutcomeModel {
    Bound(Seq<BoundModel>),
    TimedOut,
    Failed(Seq<char>),
    ResponseFailed(Seq<char>),
}

pub enum ReadyOutcomeModel {
    Confirmed,
    Failed(Seq<char>),
    Exited,
    TimedOut,
}

/// Model of an [`Event`].
pub enum EventModel<H> {
    PreviousStopped(StopOutcome),
    PreviousAborted,
    Connected(BrokerOutcomeModel),
    SessionCreated(BrokerOutcomeModel),
    BindFinished(BindOutcomeModel),
    ListenerSpawned(H),
    ReadinessReported(ReadyOutcomeModel),
}

/// Model of the result of a registration.
pub type OutcomeModel = Result<Option<Seq<char>>, ErrorModel>;

/// Model of an [`Action`].
pub enum ActionModel<H> {
    StopListener { listener: H, timeout_secs: u64 },
    AbortListener,
    Connect { timeout_secs: u64 },
    CreateSession { timeout_secs: u64 },
    Bind { request: RequestModel, timeout_secs: u64 },
    SpawnListener { shortcut_id: Seq<char> },
    AwaitReady { timeout_secs: u64 },
    Complete(OutcomeModel),
    Rejected,
}

impl View for BrokerOutcome {
    type V = BrokerOutcomeModel;

    open spec fn view(&self) -> BrokerOutcomeModel {
        match self {
            BrokerOutcome::Ready => BrokerOutcomeModel::Ready,
            BrokerOutcome::TimedOut => BrokerOutcomeModel::TimedOut,
            BrokerOutcome::Failed(detail) => BrokerOutcomeModel::Failed(detail@),
        }
    }
}

impl View for BindOutcome {
    type V = BindOutcomeModel;

    open spec fn view(&self) -> BindOutcomeModel {
        match self {
            BindOutcome::Bound(shortcuts) => BindOutcomeModel::Bound(bound_models(shortcuts@)),
            BindOutcome::TimedOut => BindOutcomeModel::TimedOut,
            BindOutcome::Failed(detail) => BindOutcomeModel::Failed(detail@),
            BindOutcome::ResponseFailed(detail) => BindOutcomeModel::ResponseFailed(detail@),
        }
    }
}

impl View for ReadyOutcome {
    type V = ReadyOutcomeModel;

    open spec fn view(&self) -> ReadyOutcomeModel {
        match self {
            ReadyOutcome::Confirmed => ReadyOutcomeModel::Confirmed,
            ReadyOutcome::Failed(detail) => ReadyOutcomeModel::Failed(detail@),
            ReadyOutcome::Exited => ReadyOutcomeModel::Exited,
            ReadyOutcome::TimedOut => ReadyOutcomeModel::TimedOut,
        }
    }
}

impl<H> View for Event<H> {
    type V = EventModel<H>;

    open spec fn view(&self) -> EventModel<H> {
        match self {
            Event::PreviousStopped(outcome) => EventModel::PreviousStopped(*outcome),
            Event::PreviousAborted => EventModel::PreviousAborted,
            Event::Connected(outcome) => EventModel::Connected(outcome@),
            Event::SessionCreated(outcome) => EventModel::SessionCreated(outcome@),
            Event::BindFinished(outcome) => EventModel::BindFinished(outcome@),
            Event::ListenerSpawned(listener) => EventModel::ListenerSpawned(*listener),
            Event::ReadinessReported(outcome) => EventModel::ReadinessReported(outcome@),
        }
    }
}

/// Model of the result of a registration.
pub open spec fn outcome_model(outcome: Result<Option<String>, RegisterError>) -> OutcomeModel {
    match outcome {
        Ok(trigger) => Ok(text_model(trigger)),
        Err(error) => Err(error@),
    }
}

impl<H> View for Action<H> {
    type V = ActionModel<H>;

    open spec fn view(&self) -> ActionModel<H> {
        match self {
            Action::StopListener { listener, timeout_secs } => ActionModel::StopListener {
                listener: *listener,
                timeout_secs: *timeout_secs,
            },
            Action::AbortListener => ActionModel::AbortListener,
            Action::Connect { timeout_secs } => ActionModel::Connect { timeout_secs: *timeout_secs },
            Action::CreateSession { timeout_secs } => ActionModel::CreateSession {
                timeout_secs: *timeout_secs,
            },
            Action::Bind { request, timeout_secs } => ActionModel::Bind {
                request: request@,
                timeout_secs: *timeout_secs,
            },
            Action::SpawnListener { shortcut_id } => ActionModel::SpawnListener {
                shortcut_id: shortcut_id@,
            },
            Action::AwaitReady { timeout_secs } => ActionModel::AwaitReady {
                timeout_secs: *timeout_secs,
            },
            Action::Complete(outcome) => ActionModel::Complete(outcome_model(*outcome)),
            Action::Rejected => ActionModel::Rejected,
        }
    }
}

/// Model of the manager: the two flags, the slot for the listener's handle,
/// and what is kept of the registration that is running.
pub struct ManagerModel<H> {
    /// Set by a failed connect or session creation; cleared only on request.
    pub portal_unavailable: bool,
    /// Held from the start of a registration to its end.
    pub registration_in_progress: bool,
    /// The handle of the listener that the manager answers for.
    pub listener: Option<H>,
    pub phase: Phase,
    /// The request of the registration that is running.
    pub request: RequestModel,
    /// The trigger that the portal bound, kept until the result is given.
    pub actual_trigger: Option<Seq<char>>,
}

/// Whether no session exists yet in this phase of a registration.
pub open spec fn before_spawn(phase: Phase) -> bool {
    phase == Phase::StoppingPrevious || phase == Phase::AbortingPrevious || phase == Phase::Connecting
        || phase == Phase::CreatingSession || phase == Phase::Binding || phase == Phase::SpawningListener
}

/// The states that the manager can be in.
///
/// The flag is held exactly while a registration runs; a running
/// registration has found the portal in reach; from the moment the previous
/// listener is taken out of the slot until the new one is put in, the slot
/// is empty; and at rest nothing of a request is kept.
pub open spec fn well_formed<H>(s: ManagerModel<H>) -> bool {
    &&& s.registration_in_progress <==> s.phase != Phase::Idle
    &&& s.registration_in_progress ==> !s.portal_unavailable
    &&& before_spawn(s.phase) ==> s.listener is None
    &&& s.phase == Phase::Idle ==> s.request == blank_request() && s.actual_trigger is None
    &&& s.actual_trigger is Some ==> s.phase == Phase::SpawningListener || s.phase == Phase::AwaitingReady
}

/// The manager at rest, as `new` makes it.
pub open spec fn initial<H>() -> ManagerModel<H> {
    ManagerModel {
        portal_unavailable: false,
        registration_in_progress: false,
        listener: None,
        phase: Phase::Idle,
        request: blank_request(),
        actual_trigger: None,
    }
}

/// The end of a registration: the flag is released and nothing of the
/// request is kept. Every path to a result goes through here.
pub open spec fn finished<H>(s: ManagerModel<H>, outcome: OutcomeModel) -> (ManagerModel<H>, ActionModel<H>) {
    (
        ManagerModel {
            registration_in_progress: false,
            phase: Phase::Idle,
            request: blank_request(),
            actual_trigger: None,
            ..s
        },
        ActionModel::Complete(outcome),
    )
}

/// The end of a registration that found the portal out of reach.
pub open spec fn broker_lost<H>(s: ManagerModel<H>, cause: UnavailableModel) -> (ManagerModel<H>, ActionModel<H>) {
    finished(
        ManagerModel { portal_unavailable: true, ..s },
        Err(ErrorModel::BrokerUnavailable(cause)),
    )
}

/// The previous listener is gone: a connection may be opened.
pub open spec fn connecting<H>(s: ManagerModel<H>) -> (ManagerModel<H>, ActionModel<H>) {
    (
        ManagerModel { phase: Phase::Connecting, ..s },
        ActionModel::Connect { timeout_secs: CONNECT_TIMEOUT_SECS },
    )
}

/// What a refusal in the portal's response means: the portal words a
/// dismissed dialog as "Other".
pub open spec fn refusal(detail: Seq<char>) -> ErrorModel {
    if occurs_in("Other"@, detail) {
        ErrorModel::UserCancelled
    } else {
        ErrorModel::BindFailed(BindFailureModel::Response(detail))
    }
}

/// The start of a registration.
pub open spec fn begin<H>(s: ManagerModel<H>, request: RequestModel) -> (ManagerModel<H>, ActionModel<H>) {
    if s.portal_unavailable {
        (s, ActionModel::Complete(Err(ErrorModel::BrokerUnavailable(UnavailableModel::KnownUnavailable))))
    } else if s.registration_in_progress {
        (s, ActionModel::Complete(Err(ErrorModel::RegistrationInProgress)))
    } else {
        let held = ManagerModel {
            registration_in_progress: true,
            listener: None,
            request: request,
            actual_trigger: None,
            ..s
        };
        match s.listener {
            Some(listener) => (
                ManagerModel { phase: Phase::StoppingPrevious, ..held },
                ActionModel::StopListener { listener: listener, timeout_secs: STOP_TIMEOUT_SECS },
            ),
            None => connecting(held),
        }
    }
}

/// One step of a registration: the state and the report give the next state
/// and the next action.
pub open spec fn step<H>(s: ManagerModel<H>, event: EventModel<H>) -> (ManagerModel<H>, ActionModel<H>) {
    match (s.phase, event) {
        (Phase::StoppingPrevious, EventModel::PreviousStopped(StopOutcome::TimedOut)) => (
            ManagerModel { phase: Phase::AbortingPrevious, ..s },
            ActionModel::AbortListener,
        ),
        (Phase::StoppingPrevious, EventModel::PreviousStopped(_)) => connecting(s),
        (Phase::AbortingPrevious, EventModel::PreviousAborted) => connecting(s),
        (Phase::Connecting, EventModel::Connected(BrokerOutcomeModel::Ready)) => (
            ManagerModel { phase: Phase::CreatingSession, ..s },
            ActionModel::CreateSession { timeout_secs: CONNECT_TIMEOUT_SECS },
        ),
        (Phase::Connecting, EventModel::Connected(BrokerOutcomeModel::TimedOut)) => broker_lost(
            s,
            UnavailableModel::ConnectTimedOut,
        ),
        (Phase::Connecting, EventModel::Connected(BrokerOutcomeModel::Failed(detail))) => broker_lost(
            s,
            UnavailableModel::ConnectFailed(detail),
        ),
        (Phase::CreatingSession, EventModel::SessionCreated(BrokerOutcomeModel::Ready)) => (
            ManagerModel { phase: Phase::Binding, ..s },
            ActionModel::Bind { request: s.request, timeout_secs: BIND_TIMEOUT_SECS },
        ),
        (Phase::CreatingSession, EventModel::SessionCreated(BrokerOutcomeModel::TimedOut)) => broker_lost(
            s,
            UnavailableModel::SessionTimedOut,
        ),
        (Phase::CreatingSession, EventModel::SessionCreated(BrokerOutcomeModel::Failed(detail))) => broker_lost(
            s,
            UnavailableModel::SessionFailed(detail),
        ),
        (Phase::Binding, EventModel::BindFinished(BindOutcomeModel::Bound(shortcuts))) => (
            ManagerModel {
                phase: Phase::SpawningListener,
                actual_trigger: trigger_for(shortcuts, s.request.shortcut_id),
                ..s
            },
            ActionModel::SpawnListener { shortcut_id: s.request.shortcut_id },
        ),
        (Phase::Binding, EventModel::BindFinished(BindOutcomeModel::TimedOut)) => finished(
            s,
            Err(ErrorModel::BindTimeout),
        ),
        (Phase::Binding, EventModel::BindFinished(BindOutcomeModel::Failed(detail))) => finished(
            s,
            Err(ErrorModel::BindFailed(BindFailureModel::Request(detail))),
        ),
        (Phase::Binding, EventModel::BindFinished(BindOutcomeModel::ResponseFailed(detail))) => finished(
            s,
            Err(refusal(detail)),
        ),
        (Phase::SpawningListener, EventModel::ListenerSpawned(listener)) => (
            ManagerModel { listener: Some(listener), phase: Phase::AwaitingReady, ..s },
            ActionModel::AwaitReady { timeout_secs: READY_TIMEOUT_SECS },
        ),
        (Phase::AwaitingReady, EventModel::ReadinessReported(ReadyOutcomeModel::Failed(detail))) => finished(
            s,
            Err(ErrorModel::ListenerSubscriptionFailed(ListenerFailureModel::Subscription(detail))),
        ),
        (Phase::AwaitingReady, EventModel::ReadinessReported(ReadyOutcomeModel::Exited)) => finished(
            s,
            Err(ErrorModel::ListenerSubscriptionFailed(ListenerFailureModel::ExitedEarly)),
        ),
        (Phase::AwaitingReady, EventModel::ReadinessReported(_)) => finished(s, Ok(s.actual_trigger)),
        _ => (s, ActionModel::Rejected),
    }
}

/// The manager after a running registration was given up: at rest, as after
/// a result. Where none runs, nothing changes.
pub open spec fn abandoned<H>(s: ManagerModel<H>) -> ManagerModel<H> {
    if s.registration_in_progress {
        finished(s, Err(ErrorModel::RegistrationInProgress)).0
    } else {
        s
    }
}

/// The manager after `unregister`: the slot is empty, the rest is as before.
pub open spec fn released<H>(s: ManagerModel<H>) -> ManagerModel<H> {
    ManagerModel { listener: None, ..s }
}

/// The manager after a reset: the portal counts as reachable again.
pub open spec fn reset<H>(s: ManagerModel<H>) -> ManagerModel<H> {
    ManagerModel { portal_unavailable: false, ..s }
}

/// Manages one global shortcut through the desktop portal.
#[derive(Debug)]
pub struct WaylandHotkeyManager<H> {
    portal_unavailable: bool,
    registration_in_progress: bool,
    listener: Option<H>,
    phase: Phase,
    request: RegistrationRequest,
    actual_trigger: Option<String>,
}

impl<H> View for WaylandHotkeyManager<H> {
    type V = ManagerModel<H>;

    closed spec fn view(&self) -> ManagerModel<H> {
        ManagerModel {
            portal_unavailable: self.portal_unavailable,
            registration_in_progress: self.registration_in_progress,
            listener: self.listener,
            phase: self.phase,
            request: self.request@,
            actual_trigger: text_model(self.actual_trigger),
        }
    }
}

impl<H> WaylandHotkeyManager<H> {
    /// A manager with no listener, no registration running, and the portal
    /// taken to be reachable.
    pub fn new() -> (manager: Self)
        ensures
            manager@ == initial::<H>(),
            well_formed(manager@),
    {
        WaylandHotkeyManager {
            portal_unavailable: false,
            registration_in_progress: false,
            listener: None,
            phase: Phase::Idle,
            request: RegistrationRequest::blank(),
            actual_trigger: None,
        }
    }

    /// Starts a registration and says what to do first.
    ///
    /// Fails at once, with nothing changed and nothing to do, where the
    /// portal is marked as out of reach or another registration is running.
    /// Otherwise the flag is taken, and the first action is to stop the
    /// listener of the previous registration or, if there is none, to
    /// connect.
    pub fn register(&mut self, request: RegistrationRequest) -> (action: Action<H>)
        ensures
            (final(self)@, action@) == begin(old(self)@, request@),
            well_formed(old(self)@) ==> well_formed(final(self)@),
    {
        if self.portal_unavailable {
            return Action::Complete(Err(RegisterError::BrokerUnavailable(UnavailableCause::KnownUnavailable)));
        }
        if self.registration_in_progress {
            return Action::Complete(Err(RegisterError::RegistrationInProgress));
        }
        self.registration_in_progress = true;
        self.request = request;
        self.actual_trigger = None;
        match self.listener.take() {
            Some(listener) => {
                self.phase = Phase::StoppingPrevious;
                Action::StopListener { listener, timeout_secs: STOP_TIMEOUT_SECS }
            },
            None => self.connect(),
        }
    }

    /// Takes the report on the action last given and says what to do next.
    pub fn advance(&mut self, event: Event<H>) -> (action: Action<H>)
        ensures
            (final(self)@, action@) == step(old(self)@, event@),
            well_formed(old(self)@) ==> well_formed(final(self)@),
    {
        match (self.phase, event) {
            (Phase::StoppingPrevious, Event::PreviousStopped(StopOutcome::TimedOut)) => {
                self.phase = Phase::AbortingPrevious;
                Action::AbortListener
            },
            (Phase::StoppingPrevious, Event::PreviousStopped(_)) => self.connect(),
            (Phase::AbortingPrevious, Event::PreviousAborted) => self.connect(),
            (Phase::Connecting, Event::Connected(BrokerOutcome::Ready)) => {
                self.phase = Phase::CreatingSession;
                Action::CreateSession { timeout_secs: CONNECT_TIMEOUT_SECS }
            },
            (Phase::Connecting, Event::Connected(BrokerOutcome::TimedOut)) => self.lose_broker(
                UnavailableCause::ConnectTimedOut,
            ),
            (Phase::Connecting, Event::Connected(BrokerOutcome::Failed(detail))) => self.lose_broker(
                UnavailableCause::ConnectFailed(detail),
            ),
            (Phase::CreatingSession, Event::SessionCreated(BrokerOutcome::Ready)) => {
                self.phase = Phase::Binding;
                Action::Bind { request: self.request.clone(), timeout_secs: BIND_TIMEOUT_SECS }
            },
            (Phase::CreatingSession, Event::SessionCreated(BrokerOutcome::TimedOut)) => self.lose_broker(
                UnavailableCause::SessionTimedOut,
            ),
            (Phase::CreatingSession, Event::SessionCreated(BrokerOutcome::Failed(detail))) => self.lose_broker(
                UnavailableCause::SessionFailed(detail),
            ),
            (Phase::Binding, Event::BindFinished(BindOutcome::Bound(shortcuts))) => {
                self.actual_trigger = extract_trigger(&shortcuts, &self.request.shortcut_id);
                self.phase = Phase::SpawningListener;
                Action::SpawnListener { shortcut_id: self.request.shortcut_id.clone() }
            },
            (Phase::Binding, Event::BindFinished(BindOutcome::TimedOut)) => self.finish(
                Err(RegisterError::BindTimeout),
            ),
            (Phase::Binding, Event::BindFinished(BindOutcome::Failed(detail))) => self.finish(
                Err(RegisterError::BindFailed(BindFailure::Request(detail))),
            ),
            (Phase::Binding, Event::BindFinished(BindOutcome::ResponseFailed(detail))) => {
                let error = classify_refusal(detail);
                self.finish(Err(error))
            },
            (Phase::SpawningListener, Event::ListenerSpawned(listener)) => {
                self.listener = Some(listener);
                self.phase = Phase::AwaitingReady;
                Action::AwaitReady { timeout_secs: READY_TIMEOUT_SECS }
            },
            (Phase::AwaitingReady, Event::ReadinessReported(ReadyOutcome::Failed(detail))) => self.finish(
                Err(RegisterError::ListenerSubscriptionFailed(ListenerFailure::Subscription(detail))),
            ),
            (Phase::AwaitingReady, Event::ReadinessReported(ReadyOutcome::Exited)) => self.finish(
                Err(RegisterError::ListenerSubscriptionFailed(ListenerFailure::ExitedEarly)),
            ),
            (Phase::AwaitingReady, Event::ReadinessReported(_)) => {
                let trigger = self.actual_trigger.take();
                self.finish(Ok(trigger))
            },
            _ => Action::Rejected,
        }
    }

    /// Gives up the registration that is running, without a result: for the
    /// caller that cannot carry it through to its end. The flag is
    /// released, so that it is never held beyond the call that took it. To
    /// be called by the holder of the flag only.
    pub fn abandon(&mut self)
        ensures
            final(self)@ == abandoned(old(self)@),
            well_formed(old(self)@) ==> well_formed(final(self)@),
    {
        if self.registration_in_progress {
            let _ = self.finish(Err(RegisterError::RegistrationInProgress));
        }
    }

    /// Gives up the listener without waiting for it. The caller signals the
    /// handle that is returned, as well as it can, and lets it go. The mark
    /// on the portal stays as it is.
    pub fn unregister(&mut self) -> (listener: Option<H>)
        ensures
            final(self)@ == released(old(self)@),
            listener == old(self)@.listener,
            well_formed(old(self)@) ==> well_formed(final(self)@),
    {
        self.listener.take()
    }

    /// Takes the manager apart when it is no longer needed. The caller
    /// signals the handle that is returned, as well as it can, and does not
    /// wait for the listener.
    pub fn into_listener(self) -> (listener: Option<H>)
        ensures
            listener == self@.listener,
    {
        self.listener
    }

    /// Whether the portal is marked as out of reach.
    pub fn is_portal_unavailable(&self) -> (flag: bool)
        ensures
            flag == self@.portal_unavailable,
    {
        self.portal_unavailable
    }

    /// Whether a registration is running.
    pub fn is_registration_in_progress(&self) -> (flag: bool)
        ensures
            flag == self@.registration_in_progress,
    {
        self.registration_in_progress
    }

    /// Whether the manager answers for a listener.
    pub fn has_listener(&self) -> (flag: bool)
        ensures
            flag == self@.listener.is_some(),
    {
        self.listener.is_some()
    }

    /// Where the running registration stands.
    pub fn phase(&self) -> (phase: Phase)
        ensures
            phase == self@.phase,
    {
        self.phase
    }

    fn connect(&mut self) -> (action: Action<H>)
        ensures
            (final(self)@, action@) == connecting(old(self)@),
    {
        self.phase = Phase::Connecting;
        Action::Connect { timeout_secs: CONNECT_TIMEOUT_SECS }
    }

    /// Ends the registration. This is the one place where the flag is
    /// released, so that no path to a result can keep it.
    fn finish(&mut self, outcome: Result<Option<String>, RegisterError>) -> (action: Action<H>)
        ensures
            (final(self)@, action@) == finished(old(self)@, outcome_model(outcome)),
    {
        self.registration_in_progress = false;
        self.phase = Phase::Idle;
        self.request = RegistrationRequest::blank();
        self.actual_trigger = None;
        Action::Complete(outcome)
    }

    fn lose_broker(&mut self, cause: UnavailableCause) -> (action: Action<H>)
        ensures
            (final(self)@, action@) == broker_lost(old(self)@, cause@),
    {
        self.portal_unavailable = true;
        self.finish(Err(RegisterError::BrokerUnavailable(cause)))
    }
}

/// Reads a refusal in the portal's response.
pub fn classify_refusal(detail: String) -> (error: RegisterError)
    ensures
        error@ == refusal(detail@),
{
    if contains(detail.as_str(), "Other") {
        RegisterError::UserCancelled
    } else {
        RegisterError::BindFailed(BindFailure::Response(detail))
    }
}

/// Where GNOME keeps the shortcuts that it has approved for the
/// application `app_id`.
pub open spec fn stored_shortcuts_key(app_id: Seq<char>) -> Seq<char> {
    "/org/gnome/settings-daemon/global-shortcuts/"@ + app_id + "/"@
}

/// The key in GNOME's settings under which the shortcuts approved for the
/// application `app_id` are kept. Once the key is reset, GNOME asks the user
/// again instead of approving a shortcut that it knows.
pub fn stored_shortcuts_path(app_id: &str) -> (key: String)
    ensures
        key@ == stored_shortcuts_key(app_id@),
{
    let mut key = String::from_str("/org/gnome/settings-daemon/global-shortcuts/");
    key.append(app_id);
    key.append("/");
    key
}

/// Clears the mark that the portal is out of reach, so that the next
/// registration tries the portal again. Meant for an explicit request of the
/// user, never to be done automatically.
pub fn reset_portal_state<H>(manager: &mut WaylandHotkeyManager<H>)
    ensures
        final(manager)@ == reset(old(manager)@),
        well_formed(old(manager)@) ==> well_formed(final(manager)@),
{
    manager.portal_unavailable = false;
}

} // verus!
