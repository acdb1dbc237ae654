//! The graceful-then-forced termination state machine.
//!
//! Stopping a tracked process follows a fixed escalation: send the graceful
//! signal, wait a short bounded interval, re-check existence, send the forced
//! signal if the process persists, and re-check once more. The escalation
//! never loops: every run reaches `Confirmed` or `Failed` within four steps.
//! A refused signal is never conclusive on its own — the process may already
//! be gone, and terminating an already-dead process counts as success — so
//! only an existence check that still finds the process can fail the run.
//! The caller performs the signalling and the existence checks and feeds the
//! outcome of each action back in as an event.

use vstd::prelude::*;

verus! {

/// Where a termination attempt stands.
#[derive(Clone, Copy, Debug, PartialEq, Eq, Structural)]
pub enum EscalationState {
    /// The process is believed alive; nothing has been sent yet.
    Running,
    /// The graceful signal was attempted; awaiting the existence re-check.
    SignaledGraceful,
    /// The process persisted the graceful attempt; the forced signal is due.
    Escalating,
    /// The forced signal was attempted; awaiting the final existence check.
    SignaledForced,
    /// The process is confirmed gone.
    Confirmed,
    /// The final existence check still found the process.
    Failed,
}

/// What the environment reports after performing the requested action.
#[derive(Clone, Copy, Debug, PartialEq, Eq, Structural)]
pub enum EscalationEvent {
    /// The signal was sent successfully.
    SignalDelivered,
    /// The signal could not be sent; inconclusive on its own, since the
    /// process may already be gone — an existence check follows.
    SignalRefused,
    /// The existence check found the process still present.
    ProcessExists,
    /// The existence check found no such process.
    ProcessGone,
}

/// The next action the environment must perform for a given state.
#[derive(Clone, Copy, Debug, PartialEq, Eq, Structural)]
pub enum EscalationAction {
    /// Send the graceful termination signal.
    SendGraceful,
    /// Wait the fixed grace interval, then check whether the process exists.
    CheckAfterGrace,
    /// Send the forced termination signal.
    SendForced,
    /// Check once more whether the process exists.
    CheckFinal,
    /// The run is over; no further action.
    Done,
}

/// The transition relation of the escalation machine.
pub open spec fn spec_next(s: EscalationState, e: EscalationEvent) -> EscalationState {
    match (s, e) {
        (EscalationState::Running, EscalationEvent::SignalDelivered) => EscalationState::SignaledGraceful,
        (EscalationState::Running, EscalationEvent::SignalRefused) => EscalationState::SignaledGraceful,
        (EscalationState::SignaledGraceful, EscalationEvent::ProcessGone) => EscalationState::Confirmed,
        (EscalationState::SignaledGraceful, EscalationEvent::ProcessExists) => EscalationState::Escalating,
        (EscalationState::Escalating, EscalationEvent::SignalDelivered) => EscalationState::SignaledForced,
        (EscalationState::Escalating, EscalationEvent::SignalRefused) => EscalationState::SignaledForced,
        (EscalationState::SignaledForced, EscalationEvent::ProcessGone) => EscalationState::Confirmed,
        (EscalationState::SignaledForced, EscalationEvent::ProcessExists) => EscalationState::Failed,
        _ => s,
    }
}

/// Whether the run is over.
pub open spec fn spec_terminal(s: EscalationState) -> bool {
    s == EscalationState::Confirmed || s == EscalationState::Failed
}

/// Whether `e` is an answer to the action requested in state `s`.
pub open spec fn spec_expected(s: EscalationState, e: EscalationEvent) -> bool {
    match s {
        EscalationState::Running | EscalationState::Escalating => e
            == EscalationEvent::SignalDelivered || e == EscalationEvent::SignalRefused,
        EscalationState::SignaledGraceful | EscalationState::SignaledForced => e
            == EscalationEvent::ProcessExists || e == EscalationEvent::ProcessGone,
        _ => false,
    }
}

/// How many steps a run can still take from `s`.
pub open spec fn spec_rank(s: EscalationState) -> nat {
    match s {
        EscalationState::Running => 4,
        EscalationState::SignaledGraceful => 3,
        EscalationState::Escalating => 2,
        EscalationState::SignaledForced => 1,
        EscalationState::Confirmed => 0,
        EscalationState::Failed => 0,
    }
}

/// One transition of the machine.
pub fn escalation_step(s: EscalationState, e: EscalationEvent) -> (r: EscalationState)
    ensures
        r == spec_next(s, e),
{
    match (s, e) {
        (EscalationState::Running, EscalationEvent::SignalDelivered) => EscalationState::SignaledGraceful,
        (EscalationState::Running, EscalationEvent::SignalRefused) => EscalationState::SignaledGraceful,
        (EscalationState::SignaledGraceful, EscalationEvent::ProcessGone) => EscalationState::Confirmed,
        (EscalationState::SignaledGraceful, EscalationEvent::ProcessExists) => EscalationState::Escalating,
        (EscalationState::Escalating, EscalationEvent::SignalDelivered) => EscalationState::SignaledForced,
        (EscalationState::Escalating, EscalationEvent::SignalRefused) => EscalationState::SignaledForced,
        (EscalationState::SignaledForced, EscalationEvent::ProcessGone) => EscalationState::Confirmed,
        (EscalationState::SignaledForced, EscalationEvent::ProcessExists) => EscalationState::Failed,
        _ => s,
    }
}

/// The action owed in state `s`.
pub fn escalation_action(s: EscalationState) -> (r: EscalationAction)
    ensures
        (s == EscalationState::Running) == (r == EscalationAction::SendGraceful),
        (s == EscalationState::SignaledGraceful) == (r == EscalationAction::CheckAfterGrace),
        (s == EscalationState::Escalating) == (r == EscalationAction::SendForced),
        (s == EscalationState::SignaledForced) == (r == EscalationAction::CheckFinal),
        spec_terminal(s) == (r == EscalationAction::Done),
{
    match s {
        EscalationState::Running => EscalationAction::SendGraceful,
        EscalationState::SignaledGraceful => EscalationAction::CheckAfterGrace,
        EscalationState::Escalating => EscalationAction::SendForced,
        EscalationState::SignaledForced => EscalationAction::CheckFinal,
        EscalationState::Confirmed => EscalationAction::Done,
        EscalationState::Failed => EscalationAction::Done,
    }
}

/// The state after feeding `events` to the machine one by one.
pub open spec fn run_trace(s: EscalationState, events: Seq<EscalationEvent>) -> EscalationState
    decreases events.len(),
{
    if events.len() == 0 {
        s
    } else {
        run_trace(spec_next(s, events.first()), events.drop_first())
    }
}

/// Every expected event strictly lowers the rank until the run is over:
/// the escalation cannot loop.
pub proof fn lemma_escalation_rank(s: EscalationState, e: EscalationEvent)
    requires
        spec_expected(s, e),
    ensures
        spec_rank(spec_next(s, e)) < spec_rank(s),
{
}

/// A run fed only expected events is over after at most four of them.
pub proof fn lemma_escalation_bounded(s: EscalationState, events: Seq<EscalationEvent>)
    requires
        events.len() >= spec_rank(s),
        forall|i: int|
            0 <= i < events.len() ==> spec_terminal(
                run_trace(s, events.take(i)),
            ) || spec_expected(run_trace(s, events.take(i)), events[i]),
    ensures
        spec_terminal(run_trace(s, events)),
    decreases events.len(),
{
    if spec_terminal(s) {
        lemma_run_trace_terminal(s, events);
    } else {
        assert(run_trace(s, events.take(0)) == s);
        let e = events.first();
        assert(events[0] == e);
        let s2 = spec_next(s, e);
        lemma_escalation_rank(s, e);
        assert forall|i: int|
            0 <= i < events.drop_first().len() implies spec_terminal(
            run_trace(s2, events.drop_first().take(i)),
        ) || spec_expected(
            run_trace(s2, events.drop_first().take(i)),
            events.drop_first()[i],
        ) by {
            assert(events.take(i + 1).drop_first() =~= events.drop_first().take(i));
            assert(run_trace(s, events.take(i + 1)) == run_trace(s2, events.drop_first().take(i)));
            assert(events.drop_first()[i] == events[i + 1]);
        }
        lemma_escalation_bounded(s2, events.drop_first());
    }
}

/// A finished run stays finished.
pub proof fn lemma_run_trace_terminal(s: EscalationState, events: Seq<EscalationEvent>)
    requires
        spec_terminal(s),
    ensures
        run_trace(s, events) == s,
    decreases events.len(),
{
    if events.len() > 0 {
        lemma_run_trace_terminal(s, events.drop_first());
    }
}

/// After either signal, an existence check that finds the process gone
/// confirms the stop.
pub proof fn lemma_escalation_gone_confirms(s: EscalationState)
    requires
        s == EscalationState::SignaledGraceful || s == EscalationState::SignaledForced,
    ensures
        spec_next(s, EscalationEvent::ProcessGone) == EscalationState::Confirmed,
{
}

/// A run can only fail when the final existence check still finds the
/// process: a refused signal alone never concludes failure, so an
/// already-dead process is never reported as a failed stop.
pub proof fn lemma_escalation_failed_needs_witness(s: EscalationState, e: EscalationEvent)
    requires
        s != EscalationState::Failed,
        spec_next(s, e) == EscalationState::Failed,
    ensures
        s == EscalationState::SignaledForced && e == EscalationEvent::ProcessExists,
{
}

/// Terminating an already-dead process succeeds: whether or not the
/// graceful signal could be delivered, an existence check that finds the
/// process gone confirms the stop in two steps.
pub proof fn lemma_escalation_dead_process_confirms(e: EscalationEvent)
    requires
        e == EscalationEvent::SignalDelivered || e == EscalationEvent::SignalRefused,
    ensures
        run_trace(EscalationState::Running, seq![e, EscalationEvent::ProcessGone])
            == EscalationState::Confirmed,
{
    let events = seq![e, EscalationEvent::ProcessGone];
    let t1 = events.drop_first();
    let t2 = t1.drop_first();
    assert(events.first() == e);
    assert(t1.first() == EscalationEvent::ProcessGone);
    assert(t2.len() == 0);
    assert(run_trace(EscalationState::Running, events) == run_trace(
        EscalationState::SignaledGraceful,
        t1,
    ));
    assert(run_trace(EscalationState::SignaledGraceful, t1) == run_trace(
        EscalationState::Confirmed,
        t2,
    ));
}

/// A process that ignores the graceful signal but dies on the forced signal
/// is still confirmed stopped, in exactly four steps.
pub proof fn lemma_escalation_forced_confirms()
    ensures
        run_trace(
            EscalationState::Running,
            seq![
                EscalationEvent::SignalDelivered,
                EscalationEvent::ProcessExists,
                EscalationEvent::SignalDelivered,
                EscalationEvent::ProcessGone,
            ],
        ) == EscalationState::Confirmed,
{
    let events = seq![
        EscalationEvent::SignalDelivered,
        EscalationEvent::ProcessExists,
        EscalationEvent::SignalDelivered,
        EscalationEvent::ProcessGone,
    ];
    let t1 = events.drop_first();
    let t2 = t1.drop_first();
    let t3 = t2.drop_first();
    let t4 = t3.drop_first();
    assert(events.first() == EscalationEvent::SignalDelivered);
    assert(t1.first() == EscalationEvent::ProcessExists);
    assert(t2.first() == EscalationEvent::SignalDelivered);
    assert(t3.first() == EscalationEvent::ProcessGone);
    assert(t4.len() == 0);
    assert(run_trace(EscalationState::Running, events) == run_trace(
        EscalationState::SignaledGraceful,
        t1,
    ));
    assert(run_trace(EscalationState::SignaledGraceful, t1) == run_trace(
        EscalationState::Escalating,
        t2,
    ));
    assert(run_trace(EscalationState::Escalating, t2) == run_trace(
        EscalationState::SignaledForced,
        t3,
    ));
    assert(run_trace(EscalationState::SignaledForced, t3) == run_trace(
        EscalationState::Confirmed,
        t4,
    ));
}

} // verus!
