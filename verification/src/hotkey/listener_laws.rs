//! What holds of a listener over whole runs: how often the callback runs and
//! how often the session is closed.

use vstd::prelude::*;

use crate::hotkey::listener::{
    fresh, listener_step, ListenerActionModel, ListenerEventModel, ListenerModel, ListenerPhase,
};

verus! {

/// The listener after the first `k` of the reports `events`.
pub open spec fn listener_at(l: ListenerModel, events: Seq<ListenerEventModel>, k: nat) -> ListenerModel
    decreases k,
{
    if k == 0 {
        l
    } else {
        listener_step(listener_at(l, events, (k - 1) as nat), events[k - 1]).0
    }
}

/// The action ordered on report number `k` of `events`.
pub open spec fn order_at(l: ListenerModel, events: Seq<ListenerEventModel>, k: nat) -> ListenerActionModel {
    listener_step(listener_at(l, events, k), events[k as int]).1
}

/// How often the session is ordered closed on the first `k` reports.
pub open spec fn closes(l: ListenerModel, events: Seq<ListenerEventModel>, k: nat) -> nat
    decreases k,
{
    if k == 0 {
        0
    } else {
        closes(l, events, (k - 1) as nat) + if order_at(l, events, (k - 1) as nat) is CloseSession {
            1nat
        } else {
            0nat
        }
    }
}

/// How often the callback is ordered on the first `k` reports.
pub open spec fn dispatches(l: ListenerModel, events: Seq<ListenerEventModel>, k: nat) -> nat
    decreases k,
{
    if k == 0 {
        0
    } else {
        dispatches(l, events, (k - 1) as nat) + if order_at(l, events, (k - 1) as nat) is InvokeCallback {
            1nat
        } else {
            0nat
        }
    }
}

/// How many of the first `k` reports are activations of `id`.
pub open spec fn activations_of(id: Seq<char>, events: Seq<ListenerEventModel>, k: nat) -> nat
    decreases k,
{
    if k == 0 {
        0
    } else {
        activations_of(id, events, (k - 1) as nat) + if events[k - 1] == ListenerEventModel::Activated(id) {
            1nat
        } else {
            0nat
        }
    }
}

/// How often the manager is told how subscribing went, on the first `k`
/// reports: that the listener is ready, or that subscribing failed.
pub open spec fn readiness_reports(l: ListenerModel, events: Seq<ListenerEventModel>, k: nat) -> nat
    decreases k,
{
    if k == 0 {
        0
    } else {
        let order = order_at(l, events, (k - 1) as nat);
        readiness_reports(l, events, (k - 1) as nat) + if order is ConfirmReady || order is ReportFailure {
            1nat
        } else {
            0nat
        }
    }
}

/// Whether the manager has yet to be told how subscribing went.
pub open spec fn readiness_owed(l: ListenerModel) -> bool {
    l.phase == ListenerPhase::Subscribing || (l.phase == ListenerPhase::Closing && l.failure is Some)
}

/// The states that a listener can be in: words of a failure are kept only
/// while the session is being closed.
pub open spec fn listener_well_formed(l: ListenerModel) -> bool {
    l.failure is Some ==> l.phase == ListenerPhase::Closing
}

/// Whether the close of the session has been ordered in this phase.
pub open spec fn close_ordered(phase: ListenerPhase) -> bool {
    phase == ListenerPhase::Closing || phase == ListenerPhase::Reporting || phase
        == ListenerPhase::Finished
}

/// Whether the listener has stopped dispatching for good in this phase.
pub open spec fn past_listening(phase: ListenerPhase) -> bool {
    phase != ListenerPhase::Subscribing && phase != ListenerPhase::Listening
}

/// Event filtering, step by step. The callback is ordered exactly on an
/// activation of the listener's own id that arrives while it listens.
pub proof fn callback_only_for_own_activation(l: ListenerModel, event: ListenerEventModel)
    ensures
        listener_step(l, event).1 is InvokeCallback <==> l.phase == ListenerPhase::Listening
            && event == ListenerEventModel::Activated(l.shortcut_id),
{
}

/// No report changes the id that a listener dispatches.
pub proof fn listener_keeps_its_id(l: ListenerModel, events: Seq<ListenerEventModel>, k: nat)
    requires
        k <= events.len(),
    ensures
        listener_at(l, events, k).shortcut_id == l.shortcut_id,
    decreases k,
{
    if k > 0 {
        listener_keeps_its_id(l, events, (k - 1) as nat);
    }
}

/// Event filtering, over a run. While a listener listens and is sent
/// activations only, the callback is ordered once for each activation of its
/// own id and for no other.
pub proof fn callback_once_per_own_activation(l: ListenerModel, events: Seq<ListenerEventModel>, k: nat)
    requires
        l.phase == ListenerPhase::Listening,
        k <= events.len(),
        forall|i: int| 0 <= i < events.len() ==> #[trigger] events[i] is Activated,
    ensures
        listener_at(l, events, k) == l,
        dispatches(l, events, k) == activations_of(l.shortcut_id, events, k),
    decreases k,
{
    if k > 0 {
        callback_once_per_own_activation(l, events, (k - 1) as nat);
        assert(events[k - 1] is Activated);
    }
}

/// Once the stop signal has been seen, or subscribing has failed, or the
/// activations have ended, the callback is never ordered again, whatever is
/// reported.
pub proof fn no_callback_past_listening(l: ListenerModel, events: Seq<ListenerEventModel>, k: nat)
    requires
        past_listening(l.phase),
        k <= events.len(),
    ensures
        past_listening(listener_at(l, events, k).phase),
        dispatches(l, events, k) == 0,
    decreases k,
{
    if k > 0 {
        no_callback_past_listening(l, events, (k - 1) as nat);
    }
}

/// The stop signal, seen while the listener waits, orders the close.
pub proof fn shutdown_orders_the_close(l: ListenerModel)
    requires
        l.phase == ListenerPhase::Listening || l.phase == ListenerPhase::Draining,
    ensures
        listener_step(l, ListenerEventModel::ShutdownRequested).1 is CloseSession,
{
}

/// A failed subscription orders the close; once the session is closed the
/// failure is passed on, in the transport's words; and then the task ends.
/// The listener never comes to listen.
pub proof fn failed_subscription_orders_the_close(id: Seq<char>, detail: Seq<char>)
    ensures
        ({
            let failed = listener_step(fresh(id), ListenerEventModel::SubscribeFailed(detail));
            let closed = listener_step(failed.0, ListenerEventModel::SessionClosed);
            let told = listener_step(closed.0, ListenerEventModel::FailureReported);
            &&& failed.1 is CloseSession
            &&& past_listening(failed.0.phase)
            &&& closed.1 == ListenerActionModel::ReportFailure(detail)
            &&& told.1 is Exit
            &&& told.0.phase == ListenerPhase::Finished
        }),
{
}

/// The failure of a subscription is passed on only on the report that the
/// close call on the session has returned: the manager does not learn of
/// the failure while the session is open.
pub proof fn failure_reported_after_close(l: ListenerModel, event: ListenerEventModel)
    ensures
        listener_step(l, event).1 is ReportFailure ==> l.phase == ListenerPhase::Closing
            && event is SessionClosed,
{
}

/// The count of closes and the phase go together: from a listener for which
/// no close has been ordered, a close has been ordered once if the listener
/// has come to close its session, and never otherwise.
pub proof fn close_count_follows_phase(l: ListenerModel, events: Seq<ListenerEventModel>, k: nat)
    requires
        !close_ordered(l.phase),
        k <= events.len(),
    ensures
        closes(l, events, k) == if close_ordered(listener_at(l, events, k).phase) {
            1nat
        } else {
            0nat
        },
    decreases k,
{
    if k > 0 {
        close_count_follows_phase(l, events, (k - 1) as nat);
    }
}

/// No report takes a listener out of the states it can be in.
pub proof fn listener_stays_well_formed(l: ListenerModel, events: Seq<ListenerEventModel>, k: nat)
    requires
        listener_well_formed(l),
        k <= events.len(),
    ensures
        listener_well_formed(listener_at(l, events, k)),
    decreases k,
{
    if k > 0 {
        listener_stays_well_formed(l, events, (k - 1) as nat);
    }
}

/// The count of readiness reports and the state go together.
proof fn readiness_count_follows_state(l: ListenerModel, events: Seq<ListenerEventModel>, k: nat)
    requires
        listener_well_formed(l),
        readiness_owed(l),
        k <= events.len(),
    ensures
        readiness_reports(l, events, k) == if readiness_owed(listener_at(l, events, k)) {
            0nat
        } else {
            1nat
        },
    decreases k,
{
    if k > 0 {
        readiness_count_follows_state(l, events, (k - 1) as nat);
        listener_stays_well_formed(l, events, (k - 1) as nat);
    }
}

/// The readiness handshake is one-shot. Whatever is reported to a new
/// listener, the manager is told at most once how subscribing went; and a
/// listener that has come to listen, or has ended, has told it exactly
/// once.
pub proof fn readiness_is_reported_once(id: Seq<char>, events: Seq<ListenerEventModel>, k: nat)
    requires
        k <= events.len(),
    ensures
        readiness_reports(fresh(id), events, k) <= 1,
        !readiness_owed(listener_at(fresh(id), events, k)) ==> readiness_reports(fresh(id), events, k) == 1,
{
    readiness_count_follows_state(fresh(id), events, k);
}

/// Close on exit. Whatever is reported to a new listener, and wherever the
/// run is cut off, its session has been ordered closed at most once; and a
/// listener that has ended by itself, after the stop signal or after a failed
/// subscription, has had it ordered closed exactly once.
pub proof fn session_closed_once(id: Seq<char>, events: Seq<ListenerEventModel>, k: nat)
    requires
        k <= events.len(),
    ensures
        closes(fresh(id), events, k) <= 1,
        listener_at(fresh(id), events, k).phase == ListenerPhase::Finished ==> closes(fresh(id), events, k) == 1,
{
    close_count_follows_phase(fresh(id), events, k);
}

/// A listener ends only through the close of its session: the task is told
/// to exit when the close call has returned and nothing is left to pass
/// on, and on nothing else.
pub proof fn exit_only_after_close(l: ListenerModel, event: ListenerEventModel)
    ensures
        listener_step(l, event).1 is Exit ==> close_ordered(l.phase) && (event is SessionClosed
            || event is FailureReported),
        listener_step(l, event).0.phase == ListenerPhase::Finished ==> l.phase == ListenerPhase::Finished
            || listener_step(l, event).1 is Exit,
{
}

} // verus!
