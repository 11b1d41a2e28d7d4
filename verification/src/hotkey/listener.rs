//! The listener: the task that owns one portal session from the moment it is
//! bound, dispatches its activations, and closes it.
//!
//! Like the manager, the listener decides and leaves the doing to the task
//! that drives it. The task subscribes to the session's activations and
//! reports how that went; from then on it performs the [`ListenerAction`] it
//! is given and reports the next thing that happens. A session is closed
//! through [`ListenerAction::CloseSession`] and in no other way, which is how
//! this module can say how often that happens.

use vstd::prelude::*;

use crate::text::text_model;

verus! {

/// Where a listener stands.
#[derive(Clone, Copy, Debug, PartialEq, Eq, Structural)]
pub enum ListenerPhase {
    /// Subscribing to the session's activations.
    Subscribing,
    /// Subscribed: activations and the stop signal are awaited.
    Listening,
    /// The activations have ended: only the stop signal is awaited.
    Draining,
    /// The session is being closed.
    Closing,
    /// Subscribing failed, the session is closed, and the manager is being
    /// told.
    Reporting,
    /// The session is closed and the task is over.
    Finished,
}

/// What the task reports.
#[derive(Debug, PartialEq, Eq)]
pub enum ListenerEvent {
    /// The subscription stands.
    Subscribed,
    /// The subscription failed, with the transport's words.
    SubscribeFailed(String),
    /// The failure has been passed on to the manager.
    FailureReported,
    /// The portal reports an activation of the shortcut with this id.
    Activated(String),
    /// The portal will report no more activations.
    StreamEnded,
    /// The manager asks the listener to stop, or is gone.
    ShutdownRequested,
    /// The close call on the session has returned.
    SessionClosed,
}

/// What the task is to do next.
#[derive(Debug, PartialEq, Eq)]
pub enum ListenerAction {
    /// Tell the manager that the listener is subscribed, then wait.
    ConfirmReady,
    /// Tell the manager that subscribing failed, with these words. The
    /// session is closed by then.
    ReportFailure(String),
    /// Run the caller's callback, then wait.
    InvokeCallback,
    /// Nothing to do: go on as before.
    Ignore,
    /// Wait for the stop signal alone.
    AwaitShutdown,
    /// Close the session and wait for the call to return.
    CloseSession,
    /// End the task.
    Exit,
}

/// Model of a [`ListenerEvent`].
pub enum ListenerEventModel {
    Subscribed,
    SubscribeFailed(Seq<char>),
    FailureReported,
    Activated(Seq<char>),
    StreamEnded,
    ShutdownRequested,
    SessionClosed,
}

/// Model of a [`ListenerAction`].
pub enum ListenerActionModel {
    ConfirmReady,
    ReportFailure(Seq<char>),
    InvokeCallback,
    Ignore,
    AwaitShutdown,
    CloseSession,
    Exit,
}

impl View for ListenerEvent {
    type V = ListenerEventModel;

    open spec fn view(&self) -> ListenerEventModel {
        match self {
            ListenerEvent::Subscribed => ListenerEventModel::Subscribed,
            ListenerEvent::SubscribeFailed(detail) => ListenerEventModel::SubscribeFailed(detail@),
            ListenerEvent::FailureReported => ListenerEventModel::FailureReported,
            ListenerEvent::Activated(id) => ListenerEventModel::Activated(id@),
            ListenerEvent::StreamEnded => ListenerEventModel::StreamEnded,
            ListenerEvent::ShutdownRequested => ListenerEventModel::ShutdownRequested,
            ListenerEvent::SessionClosed => ListenerEventModel::SessionClosed,
        }
    }
}

impl Clone for ListenerEvent {
    fn clone(&self) -> (copy: Self)
        ensures
            copy@ == self@,
    {
        match self {
            ListenerEvent::Subscribed => ListenerEvent::Subscribed,
            ListenerEvent::SubscribeFailed(detail) => ListenerEvent::SubscribeFailed(detail.clone()),
            ListenerEvent::FailureReported => ListenerEvent::FailureReported,
            ListenerEvent::Activated(id) => ListenerEvent::Activated(id.clone()),
            ListenerEvent::StreamEnded => ListenerEvent::StreamEnded,
            ListenerEvent::ShutdownRequested => ListenerEvent::ShutdownRequested,
            ListenerEvent::SessionClosed => ListenerEvent::SessionClosed,
        }
    }
}

impl View for ListenerAction {
    type V = ListenerActionModel;

    open spec fn view(&self) -> ListenerActionModel {
        match self {
            ListenerAction::ConfirmReady => ListenerActionModel::ConfirmReady,
            ListenerAction::ReportFailure(detail) => ListenerActionModel::ReportFailure(detail@),
            ListenerAction::InvokeCallback => ListenerActionModel::InvokeCallback,
            ListenerAction::Ignore => ListenerActionModel::Ignore,
            ListenerAction::AwaitShutdown => ListenerActionModel::AwaitShutdown,
            ListenerAction::CloseSession => ListenerActionModel::CloseSession,
            ListenerAction::Exit => ListenerActionModel::Exit,
        }
    }
}

/// Model of a listener: the id it dispatches, where it stands, and the
/// words of a failed subscription that it has yet to pass on.
pub struct ListenerModel {
    pub shortcut_id: Seq<char>,
    pub phase: ListenerPhase,
    pub failure: Option<Seq<char>>,
}

/// A listener that has just been started for `shortcut_id`.
pub open spec fn fresh(shortcut_id: Seq<char>) -> ListenerModel {
    ListenerModel { shortcut_id: shortcut_id, phase: ListenerPhase::Subscribing, failure: None }
}

/// The listener in another phase.
pub open spec fn moved(l: ListenerModel, phase: ListenerPhase) -> ListenerModel {
    ListenerModel { phase: phase, ..l }
}

/// One step of a listener.
///
/// A failed subscription closes the session first and is passed on to the
/// manager after that, so that the manager never gives the failure to its
/// caller while the session is still open.
pub open spec fn listener_step(l: ListenerModel, event: ListenerEventModel) -> (ListenerModel, ListenerActionModel) {
    match (l.phase, event) {
        (ListenerPhase::Subscribing, ListenerEventModel::Subscribed) => (
            moved(l, ListenerPhase::Listening),
            ListenerActionModel::ConfirmReady,
        ),
        (ListenerPhase::Subscribing, ListenerEventModel::SubscribeFailed(detail)) => (
            ListenerModel { phase: ListenerPhase::Closing, failure: Some(detail), ..l },
            ListenerActionModel::CloseSession,
        ),
        (ListenerPhase::Listening, ListenerEventModel::Activated(id)) => (
            l,
            if id == l.shortcut_id {
                ListenerActionModel::InvokeCallback
            } else {
                ListenerActionModel::Ignore
            },
        ),
        (ListenerPhase::Listening, ListenerEventModel::StreamEnded) => (
            moved(l, ListenerPhase::Draining),
            ListenerActionModel::AwaitShutdown,
        ),
        (ListenerPhase::Listening, ListenerEventModel::ShutdownRequested) => (
            moved(l, ListenerPhase::Closing),
            ListenerActionModel::CloseSession,
        ),
        (ListenerPhase::Draining, ListenerEventModel::ShutdownRequested) => (
            moved(l, ListenerPhase::Closing),
            ListenerActionModel::CloseSession,
        ),
        (ListenerPhase::Closing, ListenerEventModel::SessionClosed) => match l.failure {
            Some(detail) => (
                ListenerModel { phase: ListenerPhase::Reporting, failure: None, ..l },
                ListenerActionModel::ReportFailure(detail),
            ),
            None => (moved(l, ListenerPhase::Finished), ListenerActionModel::Exit),
        },
        (ListenerPhase::Reporting, ListenerEventModel::FailureReported) => (
            moved(l, ListenerPhase::Finished),
            ListenerActionModel::Exit,
        ),
        _ => (l, ListenerActionModel::Ignore),
    }
}

/// The listener of one bound session.
#[derive(Debug)]
pub struct ActivationListener {
    shortcut_id: String,
    phase: ListenerPhase,
    failure: Option<String>,
}

impl View for ActivationListener {
    type V = ListenerModel;

    closed spec fn view(&self) -> ListenerModel {
        ListenerModel {
            shortcut_id: self.shortcut_id@,
            phase: self.phase,
            failure: text_model(self.failure),
        }
    }
}

impl ActivationListener {
    /// A listener for the shortcut registered under `shortcut_id`. The task
    /// that drives it starts by subscribing to the session's activations.
    pub fn new(shortcut_id: String) -> (listener: Self)
        ensures
            listener@ == fresh(shortcut_id@),
    {
        ActivationListener { shortcut_id, phase: ListenerPhase::Subscribing, failure: None }
    }

    /// Takes the task's report and says what to do next.
    ///
    /// The callback is ordered for an activation of the listener's own id
    /// while it listens, and for nothing else. The session is ordered closed
    /// when the stop signal is seen, and when subscribing has failed; the
    /// failure is passed on to the manager once the session is closed.
    pub fn advance(&mut self, event: ListenerEvent) -> (action: ListenerAction)
        ensures
            (final(self)@, action@) == listener_step(old(self)@, event@),
    {
        match (self.phase, event) {
            (ListenerPhase::Subscribing, ListenerEvent::Subscribed) => {
                self.phase = ListenerPhase::Listening;
                ListenerAction::ConfirmReady
            },
            (ListenerPhase::Subscribing, ListenerEvent::SubscribeFailed(detail)) => {
                self.phase = ListenerPhase::Closing;
                self.failure = Some(detail);
                ListenerAction::CloseSession
            },
            (ListenerPhase::Listening, ListenerEvent::Activated(id)) => {
                if id == self.shortcut_id {
                    ListenerAction::InvokeCallback
                } else {
                    ListenerAction::Ignore
                }
            },
            (ListenerPhase::Listening, ListenerEvent::StreamEnded) => {
                self.phase = ListenerPhase::Draining;
                ListenerAction::AwaitShutdown
            },
            (ListenerPhase::Listening, ListenerEvent::ShutdownRequested) => {
                self.phase = ListenerPhase::Closing;
                ListenerAction::CloseSession
            },
            (ListenerPhase::Draining, ListenerEvent::ShutdownRequested) => {
                self.phase = ListenerPhase::Closing;
                ListenerAction::CloseSession
            },
            (ListenerPhase::Closing, ListenerEvent::SessionClosed) => match self.failure.take() {
                Some(detail) => {
                    self.phase = ListenerPhase::Reporting;
                    ListenerAction::ReportFailure(detail)
                },
                None => {
                    self.phase = ListenerPhase::Finished;
                    ListenerAction::Exit
                },
            },
            (ListenerPhase::Reporting, ListenerEvent::FailureReported) => {
                self.phase = ListenerPhase::Finished;
                ListenerAction::Exit
            },
            _ => ListenerAction::Ignore,
        }
    }

    /// Where the listener stands.
    pub fn phase(&self) -> (phase: ListenerPhase)
        ensures
            phase == self@.phase,
    {
        self.phase
    }

    /// Whether the task is over.
    pub fn is_finished(&self) -> (done: bool)
        ensures
            done == (self@.phase == ListenerPhase::Finished),
    {
        match self.phase {
            ListenerPhase::Finished => true,
            _ => false,
        }
    }
}

} // verus!
