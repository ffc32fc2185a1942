//! Runs of the loop over whole sequences of events, and what holds of them.

use crate::check_execution::answer_holds;
use crate::fetcher::{
    initial, next, stopped, Action, Event, LoopError, Stage, State, Transition, RETRY_DELAY_SECS,
};
use vstd::prelude::*;

verus! {

/// The state that the loop is in after `events`, started in `state`.
pub open spec fn run(state: State, events: Seq<Event>) -> State
    decreases events.len(),
{
    if events.len() == 0 {
        state
    } else {
        next(run(state, events.drop_last()), events.last()).state
    }
}

/// The step that the loop, started in `state`, takes on the event at `index`.
pub open spec fn step_at(state: State, events: Seq<Event>, index: int) -> Transition
    recommends
        0 <= index < events.len(),
{
    next(run(state, events.take(index)), events[index])
}

/// The last step of a run.
pub open spec fn last_step(state: State, events: Seq<Event>) -> Transition
    recommends
        events.len() > 0,
{
    next(run(state, events.drop_last()), events.last())
}

/// The seconds of delay that the loop, started in `state`, asks for over
/// `events`.
pub open spec fn total_delay(state: State, events: Seq<Event>) -> nat
    decreases events.len(),
{
    if events.len() == 0 {
        0
    } else {
        total_delay(state, events.drop_last()) + match last_step(state, events).action {
            Action::Sleep { seconds } => seconds as nat,
            _ => 0,
        }
    }
}

/// How many dispatches the loop, started in `state`, begins over `events`:
/// the steps that ask the oracle.
pub open spec fn dispatches_begun(state: State, events: Seq<Event>) -> nat
    decreases events.len(),
{
    if events.len() == 0 {
        0
    } else {
        dispatches_begun(state, events.drop_last()) + if last_step(
            state,
            events,
        ).action is CheckPrecondition {
            1nat
        } else {
            0nat
        }
    }
}

/// How many dispatches come to an end over `events`: the steps that lead
/// from a state with a dispatch under way to one without.
pub open spec fn dispatches_ended(state: State, events: Seq<Event>) -> nat
    decreases events.len(),
{
    if events.len() == 0 {
        0
    } else {
        dispatches_ended(state, events.drop_last()) + if run(state, events.drop_last()).in_flight()
            && !run(state, events).in_flight() {
            1nat
        } else {
            0nat
        }
    }
}

/// How many answers of the oracle hold over `events`: the steps on which an
/// answer that is awaited arrives and says that payments are due.
pub open spec fn verdicts_held(state: State, events: Seq<Event>) -> nat
    decreases events.len(),
{
    if events.len() == 0 {
        0
    } else {
        verdicts_held(state, events.drop_last()) + if awaited_answer_holds(
            run(state, events.drop_last()),
            events.last(),
        ) {
            1nat
        } else {
            0nat
        }
    }
}

/// Whether the event is an answer of the oracle that the state waits for and
/// that says that payments are due.
pub open spec fn awaited_answer_holds(state: State, event: Event) -> bool {
    &&& state matches State::Dispatching { stage: Stage::Checking, .. }
    &&& event matches Event::OracleAnswered(answer)
    &&& answer_holds(answer@)
}

/// How many transactions the loop, started in `state`, submits over
/// `events`.
pub open spec fn submissions(state: State, events: Seq<Event>) -> nat
    decreases events.len(),
{
    if events.len() == 0 {
        0
    } else {
        submissions(state, events.drop_last()) + if last_step(state, events).action is Submit {
            1nat
        } else {
            0nat
        }
    }
}

/// `attempts` failed attempts to connect, each followed by its delay.
pub open spec fn failed_attempts(attempts: nat) -> Seq<Event>
    decreases attempts,
{
    if attempts == 0 {
        Seq::empty()
    } else {
        failed_attempts((attempts - 1) as nat).push(Event::ConnectFailed).push(Event::DelayElapsed)
    }
}

/// Whether the action begins a wait for something new: a session, the end of
/// a delay, a frame, or the oracle's answer to a new notification.
pub open spec fn begins_wait(action: Action) -> bool {
    action is Connect || action is Sleep || action is AwaitFrame || action is CheckPrecondition
}

/// Whether the loop is winding down: it has returned, or shutdown has been
/// noted and the dispatch under way is all that is left.
pub open spec fn winding_down(state: State) -> bool {
    state.is_final() || state matches State::Dispatching { stopping: true, .. }
}

/// Whether a transaction may be owed in this state: the precondition held
/// and the chain is being resolved, or could not be resolved.
pub open spec fn submission_pending(state: State) -> bool {
    state matches State::Dispatching { stage: Stage::ResolvingChain, .. } || state
        == State::Failed(LoopError::ChainId)
}

proof fn lemma_run_push(state: State, events: Seq<Event>, event: Event)
    ensures
        run(state, events.push(event)) == next(run(state, events), event).state,
        last_step(state, events.push(event)) == next(run(state, events), event),
{
    assert(events.push(event).drop_last() =~= events);
}

proof fn lemma_failed_attempts(attempts: nat)
    ensures
        run(State::Connecting, failed_attempts(attempts)) == State::Connecting,
        total_delay(State::Connecting, failed_attempts(attempts)) == attempts * RETRY_DELAY_SECS,
    decreases attempts,
{
    if attempts > 0 {
        let before = failed_attempts((attempts - 1) as nat);
        let failed = before.push(Event::ConnectFailed);
        lemma_failed_attempts((attempts - 1) as nat);
        lemma_run_push(State::Connecting, before, Event::ConnectFailed);
        lemma_run_push(State::Connecting, failed, Event::DelayElapsed);
        assert(failed.push(Event::DelayElapsed).drop_last() =~= failed);
        assert(failed.drop_last() =~= before);
        assert(total_delay(State::Connecting, failed) == total_delay(State::Connecting, before)
            + RETRY_DELAY_SECS);
        assert(total_delay(State::Connecting, failed.push(Event::DelayElapsed)) == total_delay(
            State::Connecting,
            failed,
        ));
    }
}

/// After any number of failed attempts to connect, the attempt that succeeds
/// gives a live session whose first frame is awaited, and the loop has asked
/// for `RETRY_DELAY_SECS` of delay per failure.
pub proof fn lemma_reconnect_liveness(attempts: nat)
    ensures
        run(State::Connecting, failed_attempts(attempts).push(Event::Connected))
            == State::Listening,
        last_step(State::Connecting, failed_attempts(attempts).push(Event::Connected)).action
            == Action::AwaitFrame,
        total_delay(State::Connecting, failed_attempts(attempts).push(Event::Connected))
            == attempts * RETRY_DELAY_SECS,
{
    let failures = failed_attempts(attempts);
    lemma_failed_attempts(attempts);
    lemma_run_push(State::Connecting, failures, Event::Connected);
    assert(failures.push(Event::Connected).drop_last() =~= failures);
}

/// A session is opened only by an attempt to connect that succeeds, and only
/// where none is live; an attempt to connect and a delay begin only without
/// a session. So at most one session is live at a time.
pub proof fn lemma_one_session(state: State, event: Event)
    ensures
        !state.has_session() && next(state, event).state.has_session() ==> state
            == State::Connecting && event == Event::Connected,
        next(state, event).action is Connect || next(state, event).action is Sleep ==> !next(
            state,
            event,
        ).state.has_session(),
        next(state, event).action is AwaitFrame ==> next(state, event).state == State::Listening,
{
}

/// While a notification is being dispatched no other is taken up: the oracle
/// is asked only from a live session with nothing under way, a frame that
/// arrives during a dispatch changes nothing, and the next frame is awaited
/// only once the dispatch is over.
pub proof fn lemma_dispatch_is_exclusive(state: State, event: Event)
    ensures
        next(state, event).action is CheckPrecondition ==> state == State::Listening && next(
            state,
            event,
        ).state.in_flight(),
        state.in_flight() && event is Frame ==> next(state, event).state == state && next(
            state,
            event,
        ).action == Action::Proceed,
        state.in_flight() && next(state, event).action is AwaitFrame ==> !next(
            state,
            event,
        ).state.in_flight(),
{
}

/// Dispatches follow one another: over any run that starts with nothing
/// under way, every dispatch that was begun has ended, but for the one that
/// is under way at the end of the run. So when the oracle is asked for one
/// notification, the dispatch of every earlier one is over.
pub proof fn lemma_dispatches_are_serial(state: State, events: Seq<Event>)
    requires
        !state.in_flight(),
    ensures
        dispatches_begun(state, events) == dispatches_ended(state, events) + if run(
            state,
            events,
        ).in_flight() {
            1nat
        } else {
            0nat
        },
    decreases events.len(),
{
    if events.len() > 0 {
        lemma_dispatches_are_serial(state, events.drop_last());
    }
}

/// The precondition gates the submission. An answer that does not hold ends
/// the dispatch with no further call. An answer that holds leads to the
/// chain lookup, and the chain that comes back to the one transaction, for
/// the same notification. No other step submits.
pub proof fn lemma_precondition_gates_submission(state: State, event: Event)
    ensures
        next(state, event).action is ResolveChain <==> awaited_answer_holds(state, event),
        next(state, event).action matches Action::ResolveChain { block_number } ==> state
            matches State::Dispatching { block_number: dispatched, .. } && dispatched
            == block_number,
        next(state, event).action matches Action::Submit { block_number, chain_id } ==> {
            &&& state matches State::Dispatching {
                stage: Stage::ResolvingChain,
                block_number: dispatched,
                ..
            }
            &&& dispatched == block_number
            &&& event == Event::ChainResolved(chain_id)
        },
        state matches State::Dispatching { stage: Stage::Checking, stopping, .. } ==> (event
            matches Event::OracleAnswered(answer) ==> (!answer_holds(answer@) ==> next(
            state,
            event,
        ).action == if stopping {
            Action::Return(Ok(()))
        } else {
            Action::AwaitFrame
        })),
{
}

/// Over any run from the start, each answer of the oracle that held has led
/// to exactly one transaction, but for the last where its chain is being
/// resolved or could not be resolved; and no transaction was submitted
/// without such an answer.
pub proof fn lemma_one_submission_per_verdict(events: Seq<Event>)
    ensures
        verdicts_held(initial().state, events) == submissions(initial().state, events) + if submission_pending(
            run(initial().state, events),
        ) {
            1nat
        } else {
            0nat
        },
    decreases events.len(),
{
    if events.len() > 0 {
        lemma_one_submission_per_verdict(events.drop_last());
    }
}

/// Shutdown ends every wait: where no dispatch is under way, the loop
/// returns `Ok` on the spot.
pub proof fn lemma_shutdown_ends_waits(state: State)
    ensures
        state is Connecting || state is Backoff || state is Listening ==> next(
            state,
            Event::Shutdown,
        ) == stopped(),
        winding_down(next(state, Event::Shutdown).state),
        !begins_wait(next(state, Event::Shutdown).action),
{
}

/// A loop that is winding down stays so and begins no wait.
pub proof fn lemma_winding_down_is_kept(state: State, event: Event)
    requires
        winding_down(state),
    ensures
        winding_down(next(state, event).state),
        !begins_wait(next(state, event).action),
{
}

/// Once shutdown has been signalled, whatever happens later, the loop
/// connects no more, begins no delay, awaits no frame and takes up no
/// notification.
pub proof fn lemma_shutdown_precedence(state: State, later: Seq<Event>, index: int)
    requires
        0 <= index <= later.len(),
    ensures
        winding_down(run(state, seq![Event::Shutdown] + later.take(index))),
        !begins_wait(last_step(state, seq![Event::Shutdown] + later.take(index)).action),
    decreases index,
{
    let events = seq![Event::Shutdown] + later.take(index);
    if index == 0 {
        assert(events =~= seq![Event::Shutdown]);
        assert(events.drop_last() =~= Seq::<Event>::empty());
        lemma_shutdown_ends_waits(state);
    } else {
        let before = seq![Event::Shutdown] + later.take(index - 1);
        lemma_shutdown_precedence(state, later, index - 1);
        assert(events.drop_last() =~= before);
        assert(events.last() == later[index - 1]);
        lemma_winding_down_is_kept(run(state, before), later[index - 1]);
    }
}

} // verus!
