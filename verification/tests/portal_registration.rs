//! The session manager, driven against a broker that is played by the test.

use rustler::hotkey::error::{BindFailure, ListenerFailure, RegisterError, UnavailableCause};
use rustler::hotkey::listener::{ActivationListener, ListenerAction, ListenerEvent, ListenerPhase};
use rustler::hotkey::request::{extract_trigger, BoundShortcut, RegistrationRequest};
use rustler::hotkey::wayland::{
    classify_refusal, reset_portal_state, stored_shortcuts_path, Action, BindOutcome, BrokerOutcome, Event, Phase, ReadyOutcome,
    StopOutcome, WaylandHotkeyManager, BIND_TIMEOUT_SECS, CONNECT_TIMEOUT_SECS, READY_TIMEOUT_SECS,
    STOP_TIMEOUT_SECS,
};

/// A broker that approves every request with the preferred trigger, and the
/// listeners that were started on it. A listener's handle is its index.
struct FakeBroker {
    listeners: Vec<ActivationListener>,
    callbacks: u32,
    log: Vec<String>,
}

impl FakeBroker {
    fn new() -> Self {
        FakeBroker { listeners: Vec::new(), callbacks: 0, log: Vec::new() }
    }

    /// Delivers the stop signal to a listener and lets it run to its end.
    fn shut_down(&mut self, handle: usize) {
        let listener = &mut self.listeners[handle];
        if listener.advance(ListenerEvent::ShutdownRequested) == ListenerAction::CloseSession {
            self.log.push(format!("close {}", handle));
            assert_eq!(listener.advance(ListenerEvent::SessionClosed), ListenerAction::Exit);
        }
    }

    /// Reports an activation to a listener and runs the callback if ordered.
    fn activate(&mut self, handle: usize, id: &str) {
        if self.listeners[handle].advance(ListenerEvent::Activated(id.to_string()))
            == ListenerAction::InvokeCallback
        {
            self.callbacks += 1;
        }
    }

    /// Carries one registration through to its result.
    fn register(
        &mut self,
        manager: &mut WaylandHotkeyManager<usize>,
        id: &str,
        description: &str,
        trigger: &str,
    ) -> Result<Option<String>, RegisterError> {
        let mut action = manager.register(RegistrationRequest::new(id, description, trigger));
        loop {
            let event = match action {
                Action::StopListener { listener, .. } => {
                    self.shut_down(listener);
                    Event::PreviousStopped(StopOutcome::Terminated)
                }
                Action::AbortListener => Event::PreviousAborted,
                Action::Connect { .. } => {
                    self.log.push("connect".to_string());
                    Event::Connected(BrokerOutcome::Ready)
                }
                Action::CreateSession { .. } => {
                    self.log.push("create session".to_string());
                    Event::SessionCreated(BrokerOutcome::Ready)
                }
                Action::Bind { request, .. } => {
                    self.log.push(format!("bind {}", request.shortcut_id));
                    Event::BindFinished(BindOutcome::Bound(vec![BoundShortcut::new(
                        &request.shortcut_id,
                        Some(&request.preferred_trigger),
                    )]))
                }
                Action::SpawnListener { shortcut_id } => {
                    let mut listener = ActivationListener::new(shortcut_id);
                    assert_eq!(listener.advance(ListenerEvent::Subscribed), ListenerAction::ConfirmReady);
                    self.listeners.push(listener);
                    Event::ListenerSpawned(self.listeners.len() - 1)
                }
                Action::AwaitReady { .. } => Event::ReadinessReported(ReadyOutcome::Confirmed),
                Action::Complete(result) => return result,
                Action::Rejected => panic!("the manager rejected a report"),
            };
            action = manager.advance(event);
        }
    }
}

fn request() -> RegistrationRequest {
    RegistrationRequest::new("record-toggle", "Toggle Recording", "Alt+E")
}

/// Takes a manager to the point where it waits for the given phase.
fn manager_in(phase: Phase) -> WaylandHotkeyManager<usize> {
    let mut manager = WaylandHotkeyManager::new();
    let mut action = manager.register(request());
    while manager.phase() != phase {
        let event = match action {
            Action::Connect { .. } => Event::Connected(BrokerOutcome::Ready),
            Action::CreateSession { .. } => Event::SessionCreated(BrokerOutcome::Ready),
            Action::Bind { .. } => Event::BindFinished(BindOutcome::Bound(vec![BoundShortcut::new(
                "record-toggle",
                Some("Alt+R"),
            )])),
            Action::SpawnListener { .. } => Event::ListenerSpawned(0),
            other => panic!("unexpected action {:?}", other),
        };
        action = manager.advance(event);
    }
    manager
}

#[test]
fn test_new_creates_manager() {
    let manager: WaylandHotkeyManager<usize> = WaylandHotkeyManager::new();
    assert!(!manager.has_listener());
    assert!(!manager.is_registration_in_progress());
    assert!(!manager.is_portal_unavailable());
    assert_eq!(manager.phase(), Phase::Idle);
}

#[test]
fn register_then_activate_then_unregister() {
    let mut broker = FakeBroker::new();
    let mut manager = WaylandHotkeyManager::new();

    let result = broker.register(&mut manager, "toggle", "Toggle X", "Alt+R");
    assert_eq!(result, Ok(Some("Alt+R".to_string())));
    assert!(manager.has_listener());

    broker.activate(0, "toggle");
    assert_eq!(broker.callbacks, 1);

    let handle = manager.unregister();
    assert_eq!(handle, Some(0));
    broker.shut_down(0);
    assert!(!manager.has_listener());

    broker.activate(0, "toggle");
    assert_eq!(broker.callbacks, 1);
    assert_eq!(broker.listeners[0].phase(), ListenerPhase::Finished);
}

#[test]
fn first_registration_connects_without_stopping_anything() {
    let mut manager: WaylandHotkeyManager<usize> = WaylandHotkeyManager::new();
    let action = manager.register(request());
    assert_eq!(action, Action::Connect { timeout_secs: 5 });
    assert_eq!(manager.phase(), Phase::Connecting);
    assert!(manager.is_registration_in_progress());
}

#[test]
fn registration_walks_through_every_step_in_order() {
    let mut manager: WaylandHotkeyManager<usize> = WaylandHotkeyManager::new();
    assert_eq!(manager.register(request()), Action::Connect { timeout_secs: 5 });
    assert_eq!(
        manager.advance(Event::Connected(BrokerOutcome::Ready)),
        Action::CreateSession { timeout_secs: 5 }
    );
    assert_eq!(
        manager.advance(Event::SessionCreated(BrokerOutcome::Ready)),
        Action::Bind { request: request(), timeout_secs: 60 }
    );
    let bound = vec![
        BoundShortcut::new("something-else", Some("Ctrl+Q")),
        BoundShortcut::new("record-toggle", Some("Super+R")),
    ];
    assert_eq!(
        manager.advance(Event::BindFinished(BindOutcome::Bound(bound))),
        Action::SpawnListener { shortcut_id: "record-toggle".to_string() }
    );
    assert!(!manager.has_listener());
    assert_eq!(manager.advance(Event::ListenerSpawned(3)), Action::AwaitReady { timeout_secs: 5 });
    assert!(manager.has_listener());
    assert_eq!(
        manager.advance(Event::ReadinessReported(ReadyOutcome::Confirmed)),
        Action::Complete(Ok(Some("Super+R".to_string())))
    );
    assert_eq!(manager.phase(), Phase::Idle);
    assert!(!manager.is_registration_in_progress());
    assert!(manager.has_listener());
}

#[test]
fn timeouts_are_short_for_the_broker_and_long_for_the_dialog() {
    assert_eq!(STOP_TIMEOUT_SECS, 5);
    assert_eq!(CONNECT_TIMEOUT_SECS, 5);
    assert_eq!(BIND_TIMEOUT_SECS, 60);
    assert_eq!(READY_TIMEOUT_SECS, 5);
}

#[test]
fn concurrent_registration_is_turned_away() {
    let mut manager: WaylandHotkeyManager<usize> = WaylandHotkeyManager::new();
    let first = manager.register(request());
    assert_eq!(first, Action::Connect { timeout_secs: 5 });

    let second = manager.register(RegistrationRequest::new("other", "Other", "Alt+O"));
    assert_eq!(second, Action::Complete(Err(RegisterError::RegistrationInProgress)));

    // The first call is not disturbed: it still binds its own request.
    assert_eq!(manager.phase(), Phase::Connecting);
    manager.advance(Event::Connected(BrokerOutcome::Ready));
    assert_eq!(
        manager.advance(Event::SessionCreated(BrokerOutcome::Ready)),
        Action::Bind { request: request(), timeout_secs: 60 }
    );
}

#[test]
fn turned_away_in_every_phase_of_a_running_registration() {
    for phase in [
        Phase::Connecting,
        Phase::CreatingSession,
        Phase::Binding,
        Phase::SpawningListener,
        Phase::AwaitingReady,
    ] {
        let mut manager = manager_in(phase);
        assert_eq!(
            manager.register(request()),
            Action::Complete(Err(RegisterError::RegistrationInProgress))
        );
        assert_eq!(manager.phase(), phase);
        assert!(manager.is_registration_in_progress());
    }
}

#[test]
fn flag_is_clear_after_success_and_after_every_failure() {
    let endings: Vec<(Phase, Event<usize>)> = vec![
        (Phase::Connecting, Event::Connected(BrokerOutcome::TimedOut)),
        (Phase::Connecting, Event::Connected(BrokerOutcome::Failed("no bus".to_string()))),
        (Phase::CreatingSession, Event::SessionCreated(BrokerOutcome::TimedOut)),
        (Phase::CreatingSession, Event::SessionCreated(BrokerOutcome::Failed("denied".to_string()))),
        (Phase::Binding, Event::BindFinished(BindOutcome::TimedOut)),
        (Phase::Binding, Event::BindFinished(BindOutcome::Failed("broken pipe".to_string()))),
        (Phase::Binding, Event::BindFinished(BindOutcome::ResponseFailed("Other".to_string()))),
        (Phase::Binding, Event::BindFinished(BindOutcome::ResponseFailed("Cancelled".to_string()))),
        (Phase::AwaitingReady, Event::ReadinessReported(ReadyOutcome::Confirmed)),
        (Phase::AwaitingReady, Event::ReadinessReported(ReadyOutcome::TimedOut)),
        (Phase::AwaitingReady, Event::ReadinessReported(ReadyOutcome::Exited)),
        (Phase::AwaitingReady, Event::ReadinessReported(ReadyOutcome::Failed("no stream".to_string()))),
    ];
    for (phase, event) in endings {
        let mut manager = manager_in(phase);
        assert!(manager.is_registration_in_progress());
        let action = manager.advance(event);
        assert!(matches!(action, Action::Complete(_)), "{:?}", action);
        assert!(!manager.is_registration_in_progress());
        assert_eq!(manager.phase(), Phase::Idle);
    }
}

#[test]
fn failed_connect_marks_the_portal_and_later_calls_fail_fast() {
    let mut manager: WaylandHotkeyManager<usize> = WaylandHotkeyManager::new();
    manager.register(request());
    let action = manager.advance(Event::Connected(BrokerOutcome::Failed("no portal".to_string())));
    assert_eq!(
        action,
        Action::Complete(Err(RegisterError::BrokerUnavailable(UnavailableCause::ConnectFailed(
            "no portal".to_string()
        ))))
    );
    assert!(manager.is_portal_unavailable());

    for _ in 0..3 {
        let action = manager.register(request());
        assert_eq!(
            action,
            Action::Complete(Err(RegisterError::BrokerUnavailable(UnavailableCause::KnownUnavailable)))
        );
        assert_eq!(manager.phase(), Phase::Idle);
        assert!(!manager.is_registration_in_progress());
    }

    manager.unregister();
    assert!(manager.is_portal_unavailable());

    reset_portal_state(&mut manager);
    assert!(!manager.is_portal_unavailable());
    assert_eq!(manager.register(request()), Action::Connect { timeout_secs: 5 });
}

#[test]
fn connect_timeout_and_session_failures_are_sticky() {
    let mut manager = manager_in(Phase::Connecting);
    assert_eq!(
        manager.advance(Event::Connected(BrokerOutcome::TimedOut)),
        Action::Complete(Err(RegisterError::BrokerUnavailable(UnavailableCause::ConnectTimedOut)))
    );
    assert!(manager.is_portal_unavailable());

    let mut manager = manager_in(Phase::CreatingSession);
    assert_eq!(
        manager.advance(Event::SessionCreated(BrokerOutcome::TimedOut)),
        Action::Complete(Err(RegisterError::BrokerUnavailable(UnavailableCause::SessionTimedOut)))
    );
    assert!(manager.is_portal_unavailable());

    let mut manager = manager_in(Phase::CreatingSession);
    assert_eq!(
        manager.advance(Event::SessionCreated(BrokerOutcome::Failed("denied".to_string()))),
        Action::Complete(Err(RegisterError::BrokerUnavailable(UnavailableCause::SessionFailed(
            "denied".to_string()
        ))))
    );
    assert!(manager.is_portal_unavailable());
}

#[test]
fn bind_failures_are_not_sticky() {
    let mut manager = manager_in(Phase::Binding);
    assert_eq!(
        manager.advance(Event::BindFinished(BindOutcome::TimedOut)),
        Action::Complete(Err(RegisterError::BindTimeout))
    );
    assert!(!manager.is_portal_unavailable());

    let mut manager = manager_in(Phase::Binding);
    assert_eq!(
        manager.advance(Event::BindFinished(BindOutcome::Failed("broken pipe".to_string()))),
        Action::Complete(Err(RegisterError::BindFailed(BindFailure::Request("broken pipe".to_string()))))
    );
    assert!(!manager.is_portal_unavailable());

    let mut manager = manager_in(Phase::Binding);
    assert_eq!(
        manager.advance(Event::BindFinished(BindOutcome::ResponseFailed(
            "Portal request failed: Other".to_string()
        ))),
        Action::Complete(Err(RegisterError::UserCancelled))
    );
    assert!(!manager.is_portal_unavailable());

    let mut manager = manager_in(Phase::Binding);
    assert_eq!(
        manager.advance(Event::BindFinished(BindOutcome::ResponseFailed("Cancelled".to_string()))),
        Action::Complete(Err(RegisterError::BindFailed(BindFailure::Response("Cancelled".to_string()))))
    );
    assert!(!manager.is_portal_unavailable());
    // A retry goes to the portal again.
    assert_eq!(manager.register(request()), Action::Connect { timeout_secs: 5 });
}

#[test]
fn refusal_is_a_cancellation_only_when_worded_as_other() {
    assert_eq!(classify_refusal("Other".to_string()), RegisterError::UserCancelled);
    assert_eq!(classify_refusal("response: Other error".to_string()), RegisterError::UserCancelled);
    assert_eq!(
        classify_refusal("other".to_string()),
        RegisterError::BindFailed(BindFailure::Response("other".to_string()))
    );
    assert_eq!(
        classify_refusal(String::new()),
        RegisterError::BindFailed(BindFailure::Response(String::new()))
    );
    assert_eq!(
        classify_refusal("Othe".to_string()),
        RegisterError::BindFailed(BindFailure::Response("Othe".to_string()))
    );
}

#[test]
fn listener_failure_is_an_error_and_readiness_timeout_is_not() {
    let mut manager = manager_in(Phase::AwaitingReady);
    assert_eq!(
        manager.advance(Event::ReadinessReported(ReadyOutcome::Failed("no stream".to_string()))),
        Action::Complete(Err(RegisterError::ListenerSubscriptionFailed(ListenerFailure::Subscription(
            "no stream".to_string()
        ))))
    );
    assert!(!manager.is_portal_unavailable());

    let mut manager = manager_in(Phase::AwaitingReady);
    assert_eq!(
        manager.advance(Event::ReadinessReported(ReadyOutcome::Exited)),
        Action::Complete(Err(RegisterError::ListenerSubscriptionFailed(ListenerFailure::ExitedEarly)))
    );

    let mut manager = manager_in(Phase::AwaitingReady);
    assert_eq!(
        manager.advance(Event::ReadinessReported(ReadyOutcome::TimedOut)),
        Action::Complete(Ok(Some("Alt+R".to_string())))
    );
}

#[test]
fn second_registration_closes_the_first_session_before_it_connects() {
    let mut broker = FakeBroker::new();
    let mut manager = WaylandHotkeyManager::new();
    assert_eq!(broker.register(&mut manager, "toggle", "Toggle X", "Alt+R"), Ok(Some("Alt+R".to_string())));
    assert_eq!(broker.register(&mut manager, "toggle", "Toggle X", "Alt+T"), Ok(Some("Alt+T".to_string())));

    assert_eq!(
        broker.log,
        vec![
            "connect",
            "create session",
            "bind toggle",
            "close 0",
            "connect",
            "create session",
            "bind toggle",
        ]
    );
    assert_eq!(broker.listeners[0].phase(), ListenerPhase::Finished);
    assert_eq!(broker.listeners[1].phase(), ListenerPhase::Listening);

    // Only the second listener dispatches now.
    broker.activate(0, "toggle");
    assert_eq!(broker.callbacks, 0);
    broker.activate(1, "toggle");
    assert_eq!(broker.callbacks, 1);
}

#[test]
fn second_registration_stops_the_listener_first() {
    let mut manager = manager_in(Phase::AwaitingReady);
    manager.advance(Event::ReadinessReported(ReadyOutcome::Confirmed));

    let action = manager.register(request());
    assert_eq!(action, Action::StopListener { listener: 0, timeout_secs: 5 });
    assert_eq!(manager.phase(), Phase::StoppingPrevious);
    assert!(!manager.has_listener());

    // Nothing but the end of the listener moves the registration on.
    assert_eq!(manager.advance(Event::Connected(BrokerOutcome::Ready)), Action::Rejected);
    assert_eq!(manager.phase(), Phase::StoppingPrevious);

    assert_eq!(
        manager.advance(Event::PreviousStopped(StopOutcome::Terminated)),
        Action::Connect { timeout_secs: 5 }
    );
}

#[test]
fn panicked_listener_counts_as_gone() {
    let mut manager = manager_in(Phase::AwaitingReady);
    manager.advance(Event::ReadinessReported(ReadyOutcome::Confirmed));
    manager.register(request());
    assert_eq!(
        manager.advance(Event::PreviousStopped(StopOutcome::Panicked)),
        Action::Connect { timeout_secs: 5 }
    );
}

#[test]
fn listener_that_does_not_stop_is_aborted_before_connecting() {
    let mut manager = manager_in(Phase::AwaitingReady);
    manager.advance(Event::ReadinessReported(ReadyOutcome::Confirmed));
    manager.register(request());

    assert_eq!(manager.advance(Event::PreviousStopped(StopOutcome::TimedOut)), Action::AbortListener);
    assert_eq!(manager.phase(), Phase::AbortingPrevious);
    assert_eq!(manager.advance(Event::Connected(BrokerOutcome::Ready)), Action::Rejected);
    assert_eq!(manager.advance(Event::PreviousAborted), Action::Connect { timeout_secs: 5 });
    assert_eq!(manager.phase(), Phase::Connecting);
}

#[test]
fn reports_out_of_turn_are_rejected_and_change_nothing() {
    let mut manager: WaylandHotkeyManager<usize> = WaylandHotkeyManager::new();
    assert_eq!(manager.advance(Event::Connected(BrokerOutcome::Ready)), Action::Rejected);
    assert_eq!(manager.advance(Event::ListenerSpawned(9)), Action::Rejected);
    assert!(!manager.has_listener());
    assert_eq!(manager.phase(), Phase::Idle);

    let mut manager = manager_in(Phase::Binding);
    assert_eq!(manager.advance(Event::SessionCreated(BrokerOutcome::Ready)), Action::Rejected);
    assert_eq!(manager.advance(Event::ReadinessReported(ReadyOutcome::Confirmed)), Action::Rejected);
    assert_eq!(manager.phase(), Phase::Binding);
    assert!(manager.is_registration_in_progress());
}

#[test]
fn unregister_gives_up_the_listener_and_keeps_the_mark() {
    let mut manager: WaylandHotkeyManager<usize> = WaylandHotkeyManager::new();
    assert_eq!(manager.unregister(), None);

    let mut manager = manager_in(Phase::AwaitingReady);
    manager.advance(Event::ReadinessReported(ReadyOutcome::Confirmed));
    assert_eq!(manager.unregister(), Some(0));
    assert_eq!(manager.unregister(), None);
    // With the listener given up, the next registration has nothing to stop.
    assert_eq!(manager.register(request()), Action::Connect { timeout_secs: 5 });
}

#[test]
fn response_without_the_id_gives_no_trigger() {
    let mut manager = manager_in(Phase::Binding);
    let bound = vec![BoundShortcut::new("something-else", Some("Ctrl+Q"))];
    manager.advance(Event::BindFinished(BindOutcome::Bound(bound)));
    manager.advance(Event::ListenerSpawned(0));
    assert_eq!(
        manager.advance(Event::ReadinessReported(ReadyOutcome::Confirmed)),
        Action::Complete(Ok(None))
    );
}

#[test]
fn trigger_is_that_of_the_first_entry_with_the_id() {
    let id = "toggle".to_string();
    assert_eq!(extract_trigger(&vec![], &id), None);
    let bound = vec![
        BoundShortcut::new("a", Some("Ctrl+A")),
        BoundShortcut::new("toggle", Some("Alt+R")),
        BoundShortcut::new("toggle", Some("Alt+T")),
    ];
    assert_eq!(extract_trigger(&bound, &id), Some("Alt+R".to_string()));
    let unnamed = vec![BoundShortcut::new("toggle", None), BoundShortcut::new("toggle", Some("Alt+T"))];
    assert_eq!(extract_trigger(&unnamed, &id), None);
    assert_eq!(extract_trigger(&bound, &"Toggle".to_string()), None);
}

#[test]
fn request_is_copied_part_by_part() {
    let source = RegistrationRequest::new("id", "what it does", "Ctrl+K");
    let copy = source.clone();
    assert_eq!(copy, source);
    assert_eq!(copy.shortcut_id, "id");
    assert_eq!(copy.description, "what it does");
    assert_eq!(copy.preferred_trigger, "Ctrl+K");
    assert_eq!(RegistrationRequest::blank(), RegistrationRequest::new("", "", ""));
}

#[test]
fn every_error_has_its_message() {
    let advice = ". Please use the in-app recording button instead.";
    assert_eq!(
        RegisterError::BrokerUnavailable(UnavailableCause::KnownUnavailable).message(),
        "GlobalShortcuts portal is not available on this system. Global hotkeys are not supported on Wayland with your current desktop environment. Please use the in-app recording button instead."
    );
    assert_eq!(
        RegisterError::BrokerUnavailable(UnavailableCause::ConnectTimedOut).message(),
        "GlobalShortcuts portal not available (timeout). Your desktop environment may not support global shortcuts via xdg-desktop-portal. Please use the in-app recording button instead."
    );
    assert_eq!(
        RegisterError::BrokerUnavailable(UnavailableCause::ConnectFailed("E1".to_string())).message(),
        format!("Failed to connect to GlobalShortcuts portal: E1{}", advice)
    );
    assert_eq!(
        RegisterError::BrokerUnavailable(UnavailableCause::SessionTimedOut).message(),
        "GlobalShortcuts portal timed out. Please use the in-app recording button instead."
    );
    assert_eq!(
        RegisterError::BrokerUnavailable(UnavailableCause::SessionFailed("E2".to_string())).message(),
        format!("Failed to create shortcuts session: E2{}", advice)
    );
    assert_eq!(
        RegisterError::BindTimeout.message(),
        "Shortcut configuration timed out. If a dialog appeared, please try again and configure the shortcut in the system dialog."
    );
    assert_eq!(
        RegisterError::UserCancelled.message(),
        "Shortcut configuration was cancelled. Please try again and configure the shortcut in the system dialog that appears."
    );
    assert_eq!(
        RegisterError::BindFailed(BindFailure::Request("E3".to_string())).message(),
        format!("Failed to bind shortcut: E3{}", advice)
    );
    assert_eq!(
        RegisterError::BindFailed(BindFailure::Response("E4".to_string())).message(),
        format!("Failed to get bind response: E4{}", advice)
    );
    assert_eq!(
        RegisterError::RegistrationInProgress.message(),
        "Registration already in progress, please wait for the current registration to complete."
    );
    assert_eq!(
        RegisterError::ListenerSubscriptionFailed(ListenerFailure::Subscription("E5".to_string())).message(),
        "Failed to start shortcut listener: E5"
    );
    assert_eq!(
        RegisterError::ListenerSubscriptionFailed(ListenerFailure::ExitedEarly).message(),
        "Listener task exited unexpectedly before confirming readiness."
    );
}

#[test]
fn only_broker_errors_mark_the_portal() {
    assert!(RegisterError::BrokerUnavailable(UnavailableCause::ConnectTimedOut).marks_unavailable());
    assert!(RegisterError::BrokerUnavailable(UnavailableCause::KnownUnavailable).marks_unavailable());
    assert!(!RegisterError::BindTimeout.marks_unavailable());
    assert!(!RegisterError::UserCancelled.marks_unavailable());
    assert!(!RegisterError::RegistrationInProgress.marks_unavailable());
    assert!(!RegisterError::BindFailed(BindFailure::Request(String::new())).marks_unavailable());
    assert!(!RegisterError::ListenerSubscriptionFailed(ListenerFailure::ExitedEarly).marks_unavailable());
}

#[test]
fn abandoned_registration_releases_the_flag() {
    for phase in [
        Phase::Connecting,
        Phase::CreatingSession,
        Phase::Binding,
        Phase::SpawningListener,
        Phase::AwaitingReady,
    ] {
        let mut manager = manager_in(phase);
        manager.abandon();
        assert!(!manager.is_registration_in_progress());
        assert_eq!(manager.phase(), Phase::Idle);
        assert!(!manager.is_portal_unavailable());
        // The next registration starts from the beginning.
        assert!(matches!(
            manager.register(request()),
            Action::Connect { .. } | Action::StopListener { .. }
        ));
    }
}

#[test]
fn abandon_without_a_registration_changes_nothing() {
    let mut manager: WaylandHotkeyManager<usize> = WaylandHotkeyManager::new();
    manager.abandon();
    assert_eq!(manager.phase(), Phase::Idle);
    assert!(!manager.is_registration_in_progress());

    let mut manager = manager_in(Phase::AwaitingReady);
    manager.advance(Event::ReadinessReported(ReadyOutcome::Confirmed));
    manager.abandon();
    assert!(manager.has_listener());
    assert_eq!(manager.register(request()), Action::StopListener { listener: 0, timeout_secs: 5 });
}

#[test]
fn manager_taken_apart_hands_out_its_listener() {
    let manager: WaylandHotkeyManager<usize> = WaylandHotkeyManager::new();
    assert_eq!(manager.into_listener(), None);

    let mut manager = manager_in(Phase::AwaitingReady);
    manager.advance(Event::ReadinessReported(ReadyOutcome::Confirmed));
    assert_eq!(manager.into_listener(), Some(0));
}

#[test]
fn stored_shortcuts_are_kept_under_the_id_of_the_application() {
    assert_eq!(
        stored_shortcuts_path("com.example.app"),
        "/org/gnome/settings-daemon/global-shortcuts/com.example.app/"
    );
    assert_eq!(stored_shortcuts_path(""), "/org/gnome/settings-daemon/global-shortcuts//");
}
