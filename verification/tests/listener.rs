//! The listener: dispatching activations and closing the session.

use rustler::hotkey::listener::{ActivationListener, ListenerAction, ListenerEvent, ListenerPhase};

fn listening(id: &str) -> ActivationListener {
    let mut listener = ActivationListener::new(id.to_string());
    assert_eq!(listener.advance(ListenerEvent::Subscribed), ListenerAction::ConfirmReady);
    listener
}

/// Feeds the reports and counts the orders to run the callback and to close.
fn run(listener: &mut ActivationListener, events: Vec<ListenerEvent>) -> (u32, u32) {
    let mut callbacks = 0;
    let mut closes = 0;
    for event in events {
        match listener.advance(event) {
            ListenerAction::InvokeCallback => callbacks += 1,
            ListenerAction::CloseSession => closes += 1,
            _ => {}
        }
    }
    (callbacks, closes)
}

#[test]
fn new_listener_is_subscribing() {
    let listener = ActivationListener::new("record-toggle".to_string());
    assert_eq!(listener.phase(), ListenerPhase::Subscribing);
    assert!(!listener.is_finished());
}

#[test]
fn activation_of_another_id_is_ignored() {
    let mut listener = listening("record-toggle");
    assert_eq!(listener.advance(ListenerEvent::Activated("other-id".to_string())), ListenerAction::Ignore);
    assert_eq!(
        listener.advance(ListenerEvent::Activated("record-toggle".to_string())),
        ListenerAction::InvokeCallback
    );
    assert_eq!(listener.phase(), ListenerPhase::Listening);
}

#[test]
fn callback_runs_once_per_activation_of_the_own_id() {
    let mut listener = listening("record-toggle");
    let events = vec![
        ListenerEvent::Activated("record-toggle".to_string()),
        ListenerEvent::Activated("other-id".to_string()),
        ListenerEvent::Activated("record-toggle".to_string()),
        ListenerEvent::Activated("record-toggle ".to_string()),
        ListenerEvent::Activated(String::new()),
        ListenerEvent::Activated("record-toggle".to_string()),
    ];
    assert_eq!(run(&mut listener, events), (3, 0));
}

#[test]
fn no_callback_before_the_subscription_stands() {
    let mut listener = ActivationListener::new("record-toggle".to_string());
    assert_eq!(
        listener.advance(ListenerEvent::Activated("record-toggle".to_string())),
        ListenerAction::Ignore
    );
    assert_eq!(listener.phase(), ListenerPhase::Subscribing);
}

#[test]
fn shutdown_closes_the_session_once_and_ends_the_task() {
    let mut listener = listening("record-toggle");
    assert_eq!(listener.advance(ListenerEvent::ShutdownRequested), ListenerAction::CloseSession);
    assert_eq!(listener.phase(), ListenerPhase::Closing);
    // A second signal while closing orders nothing.
    assert_eq!(listener.advance(ListenerEvent::ShutdownRequested), ListenerAction::Ignore);
    assert_eq!(listener.advance(ListenerEvent::SessionClosed), ListenerAction::Exit);
    assert!(listener.is_finished());
    assert_eq!(listener.advance(ListenerEvent::ShutdownRequested), ListenerAction::Ignore);
    assert_eq!(listener.advance(ListenerEvent::SessionClosed), ListenerAction::Ignore);
}

#[test]
fn no_callback_once_shutdown_was_seen() {
    let mut listener = listening("record-toggle");
    let events = vec![
        ListenerEvent::Activated("record-toggle".to_string()),
        ListenerEvent::ShutdownRequested,
        ListenerEvent::Activated("record-toggle".to_string()),
        ListenerEvent::SessionClosed,
        ListenerEvent::Activated("record-toggle".to_string()),
    ];
    assert_eq!(run(&mut listener, events), (1, 1));
    assert!(listener.is_finished());
}

#[test]
fn failed_subscription_closes_the_session_and_is_reported_then() {
    let mut listener = ActivationListener::new("record-toggle".to_string());
    assert_eq!(
        listener.advance(ListenerEvent::SubscribeFailed("no stream".to_string())),
        ListenerAction::CloseSession
    );
    assert_eq!(listener.phase(), ListenerPhase::Closing);
    assert_eq!(
        listener.advance(ListenerEvent::Activated("record-toggle".to_string())),
        ListenerAction::Ignore
    );
    // The failure is passed on only once the session is closed.
    assert_eq!(listener.advance(ListenerEvent::FailureReported), ListenerAction::Ignore);
    assert_eq!(
        listener.advance(ListenerEvent::SessionClosed),
        ListenerAction::ReportFailure("no stream".to_string())
    );
    assert_eq!(listener.phase(), ListenerPhase::Reporting);
    assert!(!listener.is_finished());
    assert_eq!(listener.advance(ListenerEvent::FailureReported), ListenerAction::Exit);
    assert!(listener.is_finished());
}

#[test]
fn end_of_activations_leaves_only_the_stop_signal() {
    let mut listener = listening("record-toggle");
    assert_eq!(listener.advance(ListenerEvent::StreamEnded), ListenerAction::AwaitShutdown);
    assert_eq!(listener.phase(), ListenerPhase::Draining);
    assert_eq!(
        listener.advance(ListenerEvent::Activated("record-toggle".to_string())),
        ListenerAction::Ignore
    );
    assert_eq!(listener.advance(ListenerEvent::ShutdownRequested), ListenerAction::CloseSession);
    assert_eq!(listener.advance(ListenerEvent::SessionClosed), ListenerAction::Exit);
}

#[test]
fn close_is_ordered_at_most_once_whatever_is_reported() {
    let all = || {
        vec![
            ListenerEvent::Subscribed,
            ListenerEvent::SubscribeFailed("x".to_string()),
            ListenerEvent::FailureReported,
            ListenerEvent::Activated("id".to_string()),
            ListenerEvent::StreamEnded,
            ListenerEvent::ShutdownRequested,
            ListenerEvent::SessionClosed,
        ]
    };
    // Every run of three reports, from a new listener.
    for first in all() {
        for second in all() {
            for third in all() {
                let mut listener = ActivationListener::new("id".to_string());
                let (_, closes) = run(&mut listener, vec![first.clone(), second.clone(), third.clone()]);
                assert!(closes <= 1);
                if listener.is_finished() {
                    assert_eq!(closes, 1);
                }
            }
        }
    }
    // A long run that repeats every report after the end.
    let mut listener = ActivationListener::new("id".to_string());
    let mut events = vec![ListenerEvent::Subscribed, ListenerEvent::ShutdownRequested, ListenerEvent::SessionClosed];
    events.extend(all());
    events.extend(all());
    assert_eq!(run(&mut listener, events), (0, 1));
}

#[test]
fn listener_cut_off_while_listening_has_closed_nothing() {
    // A forced abort ends the run wherever it stands.
    let mut listener = listening("id");
    let (callbacks, closes) = run(&mut listener, vec![ListenerEvent::Activated("id".to_string())]);
    assert_eq!((callbacks, closes), (1, 0));
    assert_eq!(listener.phase(), ListenerPhase::Listening);
}
