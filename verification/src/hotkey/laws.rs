//! What holds of the session manager over whole runs: however registrations,
//! reports, `unregister` and resets follow one another.

use vstd::prelude::*;

use crate::hotkey::error::{ErrorModel, UnavailableModel};
use crate::hotkey::request::RequestModel;
use crate::hotkey::wayland::{
    abandoned, begin, before_spawn, initial, released, reset, step, well_formed, ActionModel, EventModel,
    ManagerModel, Phase, StopOutcome,
};

verus! {

/// One call on the manager.
pub enum Input<H> {
    /// `register` with this request.
    Register(RequestModel),
    /// `advance` with this report.
    Report(EventModel<H>),
    /// `unregister`.
    Unregister,
    /// `abandon`.
    Abandon,
    /// `reset_portal_state`.
    Reset,
}

/// The manager after one call, and the action it answered with, if the call
/// is one that answers with an action.
pub open spec fn react<H>(s: ManagerModel<H>, input: Input<H>) -> (ManagerModel<H>, Option<ActionModel<H>>) {
    match input {
        Input::Register(request) => (begin(s, request).0, Some(begin(s, request).1)),
        Input::Report(event) => (step(s, event).0, Some(step(s, event).1)),
        Input::Unregister => (released(s), None),
        Input::Abandon => (abandoned(s), None),
        Input::Reset => (reset(s), None),
    }
}

/// The manager after the first `k` of the calls `inputs`, starting from `s`.
pub open spec fn state_at<H>(s: ManagerModel<H>, inputs: Seq<Input<H>>, k: nat) -> ManagerModel<H>
    decreases k,
{
    if k == 0 {
        s
    } else {
        react(state_at(s, inputs, (k - 1) as nat), inputs[k - 1]).0
    }
}

/// The answer to call number `k` of `inputs`, starting from `s`.
pub open spec fn answer_at<H>(s: ManagerModel<H>, inputs: Seq<Input<H>>, k: nat) -> Option<ActionModel<H>> {
    react(state_at(s, inputs, k), inputs[k as int]).1
}

/// Whether an action takes the caller to the portal or to a listener.
pub open spec fn is_outside_work<H>(action: ActionModel<H>) -> bool {
    !(action is Complete) && !(action is Rejected)
}

/// Whether a call tells the manager that the listener it answered for is
/// gone or let go: the report that it ended within the time allowed, the
/// report that it was cancelled, `unregister`, or `abandon` while the
/// listener is being stopped.
pub open spec fn lets_listener_go<H>(s: ManagerModel<H>, input: Input<H>) -> bool {
    match input {
        Input::Unregister => true,
        Input::Abandon => s.phase == Phase::StoppingPrevious || s.phase == Phase::AbortingPrevious,
        Input::Report(EventModel::PreviousStopped(outcome)) => s.phase == Phase::StoppingPrevious
            && outcome != StopOutcome::TimedOut,
        Input::Report(EventModel::PreviousAborted) => s.phase == Phase::AbortingPrevious,
        _ => false,
    }
}

/// A new manager is in a state that the manager can be in.
pub proof fn initial_is_well_formed<H>()
    ensures
        well_formed(initial::<H>()),
{
}

/// No call takes the manager out of the states it can be in.
pub proof fn well_formed_is_kept<H>(s: ManagerModel<H>, input: Input<H>)
    requires
        well_formed(s),
    ensures
        well_formed(react(s, input).0),
{
}

/// The same over a run of calls.
pub proof fn well_formed_throughout<H>(s: ManagerModel<H>, inputs: Seq<Input<H>>, k: nat)
    requires
        well_formed(s),
        k <= inputs.len(),
    ensures
        well_formed(state_at(s, inputs, k)),
    decreases k,
{
    if k > 0 {
        well_formed_throughout(s, inputs, (k - 1) as nat);
        well_formed_is_kept(state_at(s, inputs, (k - 1) as nat), inputs[k - 1]);
    }
}

/// Mutual exclusion. While a registration runs, another `register` on the
/// same manager is turned away at once with `RegistrationInProgress`, and
/// changes nothing.
pub proof fn running_registration_excludes_others<H>(s: ManagerModel<H>, request: RequestModel)
    requires
        well_formed(s),
        s.registration_in_progress,
    ensures
        begin(s, request) == (s, ActionModel::<H>::Complete(Err(ErrorModel::RegistrationInProgress))),
{
}

/// Mutual exclusion, for two calls in a row: where the first `register` got
/// past the test of the flag, the second does not.
pub proof fn second_registration_is_turned_away<H>(s: ManagerModel<H>, first: RequestModel, second: RequestModel)
    requires
        well_formed(s),
        !(begin(s, first).1 is Complete),
    ensures
        begin(begin(s, first).0, second) == (
            begin(s, first).0,
            ActionModel::<H>::Complete(Err(ErrorModel::RegistrationInProgress)),
        ),
{
}

/// The flag is held for the whole of a registration: a call that neither
/// gives the registration its result nor gives it up leaves the flag as it
/// is.
pub proof fn flag_is_held_until_the_result<H>(s: ManagerModel<H>, input: Input<H>)
    requires
        well_formed(s),
        s.registration_in_progress,
        !(input is Abandon),
        !(react(s, input).1 matches Some(ActionModel::Complete(outcome))
            && outcome != Err::<Option<Seq<char>>, ErrorModel>(ErrorModel::RegistrationInProgress)),
    ensures
        react(s, input).0.registration_in_progress,
{
}

/// Flag hygiene. When a registration is given its result, whatever the
/// result, the flag is released and the manager is at rest. The one result
/// that is no end of a registration is `RegistrationInProgress`: it is given
/// to a call that never held the flag.
pub proof fn flag_is_released_with_the_result<H>(s: ManagerModel<H>, input: Input<H>, outcome: Result<Option<Seq<char>>, ErrorModel>)
    requires
        well_formed(s),
        react(s, input).1 == Some(ActionModel::<H>::Complete(outcome)),
        outcome != Err::<Option<Seq<char>>, ErrorModel>(ErrorModel::RegistrationInProgress),
    ensures
        !react(s, input).0.registration_in_progress,
        react(s, input).0.phase == Phase::Idle,
{
}

/// A failed connect, or a failed creation of the session, marks the portal
/// as out of reach; no other failure does.
pub proof fn only_the_broker_marks_the_portal<H>(s: ManagerModel<H>, input: Input<H>)
    requires
        well_formed(s),
        !s.portal_unavailable,
    ensures
        react(s, input).0.portal_unavailable <==> (react(s, input).1 matches Some(
            ActionModel::Complete(Err(ErrorModel::BrokerUnavailable(_))),
        )),
{
}

/// Whether `event` is a report on `action`: on how the action went.
pub open spec fn answers<H>(action: ActionModel<H>, event: EventModel<H>) -> bool {
    match action {
        ActionModel::StopListener { .. } => event is PreviousStopped,
        ActionModel::AbortListener => event is PreviousAborted,
        ActionModel::Connect { .. } => event is Connected,
        ActionModel::CreateSession { .. } => event is SessionCreated,
        ActionModel::Bind { .. } => event is BindFinished,
        ActionModel::SpawnListener { .. } => event is ListenerSpawned,
        ActionModel::AwaitReady { .. } => event is ReadinessReported,
        ActionModel::Complete(_) => false,
        ActionModel::Rejected => false,
    }
}

/// The number of reports that a registration in this phase needs at most to
/// come to its result.
pub open spec fn reports_left(phase: Phase) -> nat {
    match phase {
        Phase::Idle => 0,
        Phase::AwaitingReady => 1,
        Phase::SpawningListener => 2,
        Phase::Binding => 3,
        Phase::CreatingSession => 4,
        Phase::Connecting => 5,
        Phase::AbortingPrevious => 6,
        Phase::StoppingPrevious => 7,
    }
}

/// The caller that reports on the action it was given is never rejected:
/// whatever the outcome it reports, the manager takes it.
pub proof fn report_on_the_action_is_taken<H>(s: ManagerModel<H>, input: Input<H>, event: EventModel<H>)
    requires
        well_formed(s),
        react(s, input).1 matches Some(action) && answers(action, event),
    ensures
        !(step(react(s, input).0, event).1 is Rejected),
{
}

/// A registration comes to its result: every report that is taken brings it
/// nearer, so that no registration takes more than seven reports, and one
/// that has nothing to stop no more than five. A report that is rejected
/// changes nothing.
pub proof fn registration_comes_to_its_result<H>(s: ManagerModel<H>, event: EventModel<H>)
    requires
        well_formed(s),
    ensures
        step(s, event).1 is Rejected ==> step(s, event).0 == s,
        !(step(s, event).1 is Rejected) ==> reports_left(step(s, event).0.phase) < reports_left(s.phase),
        step(s, event).1 is Complete <==> step(s, event).0.phase == Phase::Idle && s.phase != Phase::Idle,
{
}

/// Only a running registration takes reports.
pub proof fn manager_at_rest_takes_no_report<H>(s: ManagerModel<H>, event: EventModel<H>)
    requires
        well_formed(s),
        !s.registration_in_progress,
    ensures
        step(s, event) == (s, ActionModel::<H>::Rejected),
{
}

/// Nothing but a reset clears the mark on the portal.
pub proof fn only_a_reset_clears_the_mark<H>(s: ManagerModel<H>, input: Input<H>)
    requires
        well_formed(s),
        s.portal_unavailable,
        !(input is Reset),
    ensures
        react(s, input).0.portal_unavailable,
{
}

/// Sticky persistence. Once the portal is marked as out of reach, and until
/// a reset, it stays marked; every `register` fails at once with
/// `BrokerUnavailable` and changes nothing; and no call is answered with
/// work on the portal or on a listener.
pub proof fn unavailable_portal_stays_unavailable<H>(s: ManagerModel<H>, inputs: Seq<Input<H>>, k: nat)
    requires
        well_formed(s),
        s.portal_unavailable,
        forall|i: int| 0 <= i < inputs.len() ==> !(#[trigger] inputs[i] is Reset),
        k < inputs.len(),
    ensures
        state_at(s, inputs, k).portal_unavailable,
        state_at(s, inputs, k + 1).portal_unavailable,
        inputs[k as int] is Register ==> answer_at(s, inputs, k) == Some(
            ActionModel::<H>::Complete(Err(ErrorModel::BrokerUnavailable(UnavailableModel::KnownUnavailable))),
        ) && state_at(s, inputs, k + 1) == state_at(s, inputs, k),
        answer_at(s, inputs, k) matches Some(action) ==> !is_outside_work(action),
    decreases k,
{
    well_formed_throughout(s, inputs, k);
    if k > 0 {
        unavailable_portal_stays_unavailable(s, inputs, (k - 1) as nat);
    }
}

/// A reset lets the next registration try the portal again.
pub proof fn reset_reopens_the_portal<H>(s: ManagerModel<H>, request: RequestModel)
    requires
        well_formed(s),
        s.portal_unavailable,
    ensures
        well_formed(reset(s)),
        is_outside_work(begin(reset(s), request).1),
{
}

/// Ordering, step by step. The order to connect is given in three places
/// only: by `register` when the manager answers for no listener, on the
/// report that the previous listener ended within the time allowed, and on
/// the report that it was cancelled. And a `register` that finds a listener
/// orders it stopped first.
pub proof fn connect_waits_for_the_previous_listener<H>(s: ManagerModel<H>, input: Input<H>)
    requires
        well_formed(s),
    ensures
        react(s, input).1 matches Some(ActionModel::Connect { .. }) ==> {
            ||| input is Register && s.listener is None
            ||| input is Report && lets_listener_go(s, input)
        },
        input is Register && s.listener is Some && !s.portal_unavailable && !s.registration_in_progress
            ==> react(s, input).1 == Some(
            ActionModel::StopListener {
                listener: s.listener->Some_0,
                timeout_secs: crate::hotkey::wayland::STOP_TIMEOUT_SECS,
            },
        ),
        react(s, input).1 matches Some(ActionModel::CreateSession { .. }) ==> s.phase == Phase::Connecting,
        react(s, input).1 matches Some(ActionModel::Bind { .. }) ==> s.phase == Phase::CreatingSession,
        react(s, input).1 matches Some(ActionModel::SpawnListener { .. }) ==> s.phase == Phase::Binding,
{
}

/// While a session is being made, the manager answers for no listener.
pub proof fn no_listener_while_a_session_is_made<H>(s: ManagerModel<H>, inputs: Seq<Input<H>>, k: nat)
    requires
        well_formed(s),
        k <= inputs.len(),
        before_spawn(state_at(s, inputs, k).phase),
    ensures
        state_at(s, inputs, k).listener is None,
{
    well_formed_throughout(s, inputs, k);
}

/// Whether one of the calls from number `from` up to and including number
/// `to` lets the listener go.
pub open spec fn let_go_between<H>(s: ManagerModel<H>, inputs: Seq<Input<H>>, from: nat, to: nat) -> bool {
    exists|k: nat| from <= k <= to && lets_listener_go(state_at(s, inputs, k), #[trigger] inputs[k as int])
}

/// Whether the manager answers for a listener or is busy stopping one.
pub open spec fn holds_a_listener<H>(s: ManagerModel<H>) -> bool {
    s.listener is Some || s.phase == Phase::StoppingPrevious || s.phase == Phase::AbortingPrevious
}

/// A manager that holds a listener holds one after any call that does not
/// let the listener go.
proof fn listener_is_held_by_one_call<H>(s: ManagerModel<H>, input: Input<H>)
    requires
        well_formed(s),
        holds_a_listener(s),
        !lets_listener_go(s, input),
    ensures
        holds_a_listener(react(s, input).0),
{
}

/// The report that a listener was spawned, once accepted, puts the listener
/// in the slot.
proof fn spawn_report_fills_the_slot<H>(s: ManagerModel<H>, input: Input<H>)
    requires
        react(s, input).1 matches Some(ActionModel::AwaitReady { .. }),
    ensures
        holds_a_listener(react(s, input).0),
{
}

/// After the call with which a listener was put in the slot, and until a
/// call lets it go, the manager holds a listener.
proof fn listener_is_held<H>(s: ManagerModel<H>, inputs: Seq<Input<H>>, spawned: nat, k: nat)
    requires
        well_formed(s),
        spawned < k <= inputs.len(),
        answer_at(s, inputs, spawned) matches Some(ActionModel::AwaitReady { .. }),
        forall|w: nat| spawned < w < k ==> !lets_listener_go(state_at(s, inputs, w), #[trigger] inputs[w as int]),
    ensures
        holds_a_listener(state_at(s, inputs, k)),
    decreases k,
{
    let before = (k - 1) as nat;
    let earlier = state_at(s, inputs, before);
    assert(state_at(s, inputs, k) == react(earlier, inputs[before as int]).0);
    if k == spawned + 1 {
        spawn_report_fills_the_slot(earlier, inputs[before as int]);
    } else {
        well_formed_throughout(s, inputs, before);
        listener_is_held(s, inputs, spawned, before);
        assert(!lets_listener_go(earlier, inputs[before as int]));
        listener_is_held_by_one_call(earlier, inputs[before as int]);
    }
}

/// Ordering, over a run. Between the call with which a listener was put in
/// the slot and a later order to connect, some call lets that listener go:
/// the report that it ended, the report that it was cancelled,
/// `unregister`, or `abandon` while it was being stopped. So a second
/// registration opens its connection only after the first listener was seen
/// to end, unless the caller gave the listener up in between.
pub proof fn new_session_only_after_listener_let_go<H>(s: ManagerModel<H>, inputs: Seq<Input<H>>, spawned: nat, connect: nat)
    requires
        well_formed(s),
        spawned < connect < inputs.len(),
        answer_at(s, inputs, spawned) matches Some(ActionModel::AwaitReady { .. }),
        answer_at(s, inputs, connect) matches Some(ActionModel::Connect { .. }),
    ensures
        let_go_between(s, inputs, spawned + 1, connect),
{
    well_formed_throughout(s, inputs, connect);
    let now = state_at(s, inputs, connect);
    connect_waits_for_the_previous_listener(now, inputs[connect as int]);
    if !lets_listener_go(now, inputs[connect as int]) {
        if forall|w: nat| spawned < w < connect ==> !lets_listener_go(state_at(s, inputs, w), #[trigger] inputs[w as int]) {
            listener_is_held(s, inputs, spawned, connect);
            assert(false);
        }
    }
}

} // verus!
