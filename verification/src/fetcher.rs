//! The subscription and dispatch loop, as a state machine.
//!
//! The loop alternates waits and decisions. The decisions are here: `step`
//! takes the state of the loop and what has just happened, and returns the
//! next state and what to do next. The driver performs the action, one at a
//! time, and reports its outcome as the next event. Wherever it waits it
//! also watches the shutdown signal and reports that first.

use crate::check_execution::{answer_holds, precondition_holds};
use crate::felt::FieldElement;
use crate::frame::{route_frame, routed, Diagnostic, Inbound, Routed};
use vstd::prelude::*;

verus! {

/// The seconds to wait before each new attempt to connect.
pub const RETRY_DELAY_SECS: u64 = 5;

/// Why the loop gave up.
#[derive(Clone, Copy, Debug, PartialEq, Eq, Structural)]
pub enum LoopError {
    /// The precondition could not be read.
    Oracle,
    /// The chain could not be resolved.
    ChainId,
    /// The transaction was not accepted.
    Submission,
}

/// How far the dispatch of one notification has come.
#[derive(Clone, Copy, Debug, PartialEq, Eq, Structural)]
pub enum Stage {
    /// The oracle has been asked.
    Checking,
    /// The precondition holds; the provider has been asked for its chain.
    ResolvingChain,
    /// The transaction has been handed to the provider.
    Submitting,
}

/// The state of the loop.
#[derive(Clone, Copy, Debug, PartialEq, Eq, Structural)]
pub enum State {
    /// No session; an attempt to connect is under way.
    Connecting,
    /// No session; the delay before the next attempt is running.
    Backoff,
    /// A session is live and the next frame is awaited.
    Listening,
    /// A session is live and the notification of `block_number` is being
    /// dispatched. `stopping` says that shutdown was signalled meanwhile.
    Dispatching { stage: Stage, block_number: u64, stopping: bool },
    /// The loop has returned after shutdown.
    Stopped,
    /// The loop has returned with an error.
    Failed(LoopError),
}

/// What has just happened.
#[derive(Clone, Debug, PartialEq, Eq)]
pub enum Event {
    /// Shutdown was signalled.
    Shutdown,
    /// The attempt to connect gave a session.
    Connected,
    /// The attempt to connect failed.
    ConnectFailed,
    /// The delay has run out.
    DelayElapsed,
    /// The session delivered a frame.
    Frame(Inbound),
    /// Reading from the session failed.
    ReadFailed,
    /// The session has no more frames.
    StreamEnded,
    /// The oracle's call returned these values.
    OracleAnswered(Vec<FieldElement>),
    /// The oracle's call failed.
    OracleFailed,
    /// The provider named its chain.
    ChainResolved(FieldElement),
    /// The provider could not be asked for its chain.
    ChainFailed,
    /// The provider took the transaction.
    Submitted,
    /// Signing or broadcasting the transaction failed.
    SubmitFailed,
}

/// What the driver does next.
#[derive(Clone, Copy, Debug, PartialEq, Eq)]
pub enum Action {
    /// Drop the session, if any, and try to connect.
    Connect,
    /// Drop the session, if any, and wait.
    Sleep { seconds: u64 },
    /// Wait for the next frame of the session.
    AwaitFrame,
    /// Ask the oracle, for the notification of `block_number`.
    CheckPrecondition { block_number: u64 },
    /// Ask the provider for its chain.
    ResolveChain { block_number: u64 },
    /// Sign and broadcast the payment transaction for this chain.
    Submit { block_number: u64, chain_id: FieldElement },
    /// Nothing new: go on with what is under way.
    Proceed,
    /// Leave the loop with this result.
    Return(Result<(), LoopError>),
}

/// What there is to report of a step.
#[derive(Clone, Copy, Debug, PartialEq, Eq)]
pub enum Notice {
    /// Nothing.
    Quiet,
    /// The session is live.
    SessionOpened,
    /// The attempt to connect failed; another follows after the delay.
    ConnectFailed,
    /// The delay has run out; the next attempt begins.
    Reconnecting,
    /// A notification arrived.
    BlockReceived(u64),
    /// A frame was dropped.
    FrameDiscarded(Diagnostic),
    /// A message of the protocol was passed over.
    FrameObserved,
    /// The peer closed the session; another is opened after the delay.
    SessionClosed,
    /// Reading failed; another session is opened after the delay.
    ReadFailed,
    /// The session ran dry; another is opened after the delay.
    StreamEnded,
    /// The oracle's verdict.
    PreconditionEvaluated(bool),
    /// The chain is known; the transaction is being submitted.
    ChainResolved,
    /// The transaction was taken.
    PaymentsSubmitted,
    /// Shutdown was signalled.
    ShutdownReceived,
    /// The loop gives up.
    GivingUp(LoopError),
}

/// The outcome of a step.
#[derive(Clone, Copy, Debug, PartialEq, Eq)]
pub struct Transition {
    pub state: State,
    pub action: Action,
    pub notice: Notice,
}

impl State {
    /// Whether a session is live in this state.
    pub open spec fn has_session(self) -> bool {
        self is Listening || self is Dispatching
    }

    /// Whether the dispatch of a notification is under way.
    pub open spec fn in_flight(self) -> bool {
        self is Dispatching
    }

    /// Whether the loop has returned.
    pub open spec fn is_final(self) -> bool {
        self is Stopped || self is Failed
    }

    /// Whether the loop has returned.
    pub fn is_terminal(&self) -> (r: bool)
        ensures
            r == self.is_final(),
    {
        match self {
            State::Stopped => true,
            State::Failed(_) => true,
            _ => false,
        }
    }
}

/// The state in which the loop starts, with the action that starts it.
pub open spec fn initial() -> Transition {
    Transition { state: State::Connecting, action: Action::Connect, notice: Notice::Quiet }
}

/// The loop returns after shutdown.
pub open spec fn stopped() -> Transition {
    Transition {
        state: State::Stopped,
        action: Action::Return(Ok(())),
        notice: Notice::ShutdownReceived,
    }
}

/// The session is given up, or was not had, and the delay begins.
pub open spec fn backing_off(notice: Notice) -> Transition {
    Transition {
        state: State::Backoff,
        action: Action::Sleep { seconds: RETRY_DELAY_SECS },
        notice,
    }
}

/// The loop returns with an error.
pub open spec fn failed(error: LoopError) -> Transition {
    Transition {
        state: State::Failed(error),
        action: Action::Return(Err(error)),
        notice: Notice::GivingUp(error),
    }
}

/// The event is not one that the state waits for: nothing changes. A loop
/// that has returned keeps returning its result.
pub open spec fn unmoved(state: State) -> Transition {
    Transition {
        state,
        action: match state {
            State::Stopped => Action::Return(Ok(())),
            State::Failed(error) => Action::Return(Err(error)),
            _ => Action::Proceed,
        },
        notice: Notice::Quiet,
    }
}

/// The dispatch of a notification is over: the next frame is awaited, unless
/// shutdown was signalled meanwhile.
pub open spec fn dispatched(stopping: bool, notice: Notice) -> Transition {
    if stopping {
        Transition { state: State::Stopped, action: Action::Return(Ok(())), notice }
    } else {
        Transition { state: State::Listening, action: Action::AwaitFrame, notice }
    }
}

/// What follows a frame in a live session.
pub open spec fn after_frame(outcome: Routed) -> Transition {
    match outcome {
        Routed::Event(event) => Transition {
            state: State::Dispatching {
                stage: Stage::Checking,
                block_number: event.block_number,
                stopping: false,
            },
            action: Action::CheckPrecondition { block_number: event.block_number },
            notice: Notice::BlockReceived(event.block_number),
        },
        Routed::Discarded(diagnostic) => Transition {
            state: State::Listening,
            action: Action::AwaitFrame,
            notice: Notice::FrameDiscarded(diagnostic),
        },
        Routed::Observed => Transition {
            state: State::Listening,
            action: Action::AwaitFrame,
            notice: Notice::FrameObserved,
        },
        Routed::Closed => backing_off(Notice::SessionClosed),
    }
}

/// What follows an event while a notification is being dispatched.
pub open spec fn dispatching(
    stage: Stage,
    block_number: u64,
    stopping: bool,
    event: Event,
) -> Transition {
    let state = State::Dispatching { stage, block_number, stopping };
    match (stage, event) {
        (_, Event::Shutdown) => Transition {
            state: State::Dispatching { stage, block_number, stopping: true },
            action: Action::Proceed,
            notice: Notice::ShutdownReceived,
        },
        (Stage::Checking, Event::OracleAnswered(answer)) => if answer_holds(answer@) {
            Transition {
                state: State::Dispatching { stage: Stage::ResolvingChain, block_number, stopping },
                action: Action::ResolveChain { block_number },
                notice: Notice::PreconditionEvaluated(true),
            }
        } else {
            dispatched(stopping, Notice::PreconditionEvaluated(false))
        },
        (Stage::Checking, Event::OracleFailed) => failed(LoopError::Oracle),
        (Stage::ResolvingChain, Event::ChainResolved(chain_id)) => Transition {
            state: State::Dispatching { stage: Stage::Submitting, block_number, stopping },
            action: Action::Submit { block_number, chain_id },
            notice: Notice::ChainResolved,
        },
        (Stage::ResolvingChain, Event::ChainFailed) => failed(LoopError::ChainId),
        (Stage::Submitting, Event::Submitted) => dispatched(stopping, Notice::PaymentsSubmitted),
        (Stage::Submitting, Event::SubmitFailed) => failed(LoopError::Submission),
        _ => unmoved(state),
    }
}

/// The transition function of the loop.
pub open spec fn next(state: State, event: Event) -> Transition {
    match state {
        State::Connecting => match event {
            Event::Shutdown => stopped(),
            Event::Connected => Transition {
                state: State::Listening,
                action: Action::AwaitFrame,
                notice: Notice::SessionOpened,
            },
            Event::ConnectFailed => backing_off(Notice::ConnectFailed),
            _ => unmoved(state),
        },
        State::Backoff => match event {
            Event::Shutdown => stopped(),
            Event::DelayElapsed => Transition {
                state: State::Connecting,
                action: Action::Connect,
                notice: Notice::Reconnecting,
            },
            _ => unmoved(state),
        },
        State::Listening => match event {
            Event::Shutdown => stopped(),
            Event::Frame(frame) => after_frame(routed(frame)),
            Event::ReadFailed => backing_off(Notice::ReadFailed),
            Event::StreamEnded => backing_off(Notice::StreamEnded),
            _ => unmoved(state),
        },
        State::Dispatching { stage, block_number, stopping } => dispatching(
            stage,
            block_number,
            stopping,
            event,
        ),
        State::Stopped => unmoved(state),
        State::Failed(_) => unmoved(state),
    }
}

/// Whether `step` takes the event in the state: an answer of the oracle that
/// arrives while the oracle is being asked holds at least one value.
pub open spec fn admits(state: State, event: Event) -> bool {
    state matches State::Dispatching { stage: Stage::Checking, .. } ==> (event matches Event::OracleAnswered(
        answer,
    ) ==> answer@.len() > 0)
}

/// Whether `step` takes the event in the state.
pub fn is_admitted(state: State, event: &Event) -> (r: bool)
    ensures
        r == admits(state, *event),
{
    match state {
        State::Dispatching { stage: Stage::Checking, .. } => match event {
            Event::OracleAnswered(answer) => answer.len() > 0,
            _ => true,
        },
        _ => true,
    }
}

/// The state and the action with which the loop starts.
pub fn start() -> (r: Transition)
    ensures
        r == initial(),
{
    Transition { state: State::Connecting, action: Action::Connect, notice: Notice::Quiet }
}

fn stop() -> (r: Transition)
    ensures
        r == stopped(),
{
    Transition {
        state: State::Stopped,
        action: Action::Return(Ok(())),
        notice: Notice::ShutdownReceived,
    }
}

fn back_off(notice: Notice) -> (r: Transition)
    ensures
        r == backing_off(notice),
{
    Transition { state: State::Backoff, action: Action::Sleep { seconds: RETRY_DELAY_SECS }, notice }
}

fn fail(error: LoopError) -> (r: Transition)
    ensures
        r == failed(error),
{
    Transition {
        state: State::Failed(error),
        action: Action::Return(Err(error)),
        notice: Notice::GivingUp(error),
    }
}

fn stay(state: State) -> (r: Transition)
    ensures
        r == unmoved(state),
{
    let action = match state {
        State::Stopped => Action::Return(Ok(())),
        State::Failed(error) => Action::Return(Err(error)),
        _ => Action::Proceed,
    };
    Transition { state, action, notice: Notice::Quiet }
}

fn finish_dispatch(stopping: bool, notice: Notice) -> (r: Transition)
    ensures
        r == dispatched(stopping, notice),
{
    if stopping {
        Transition { state: State::Stopped, action: Action::Return(Ok(())), notice }
    } else {
        Transition { state: State::Listening, action: Action::AwaitFrame, notice }
    }
}

/// Decides what follows a frame in a live session: a notification starts
/// its dispatch with the oracle, a close frame ends the session, and after
/// any other frame the next one is awaited.
pub fn on_frame(outcome: Routed) -> (r: Transition)
    ensures
        r == after_frame(outcome),
{
    match outcome {
        Routed::Event(event) => Transition {
            state: State::Dispatching {
                stage: Stage::Checking,
                block_number: event.block_number,
                stopping: false,
            },
            action: Action::CheckPrecondition { block_number: event.block_number },
            notice: Notice::BlockReceived(event.block_number),
        },
        Routed::Discarded(diagnostic) => Transition {
            state: State::Listening,
            action: Action::AwaitFrame,
            notice: Notice::FrameDiscarded(diagnostic),
        },
        Routed::Observed => Transition {
            state: State::Listening,
            action: Action::AwaitFrame,
            notice: Notice::FrameObserved,
        },
        Routed::Closed => back_off(Notice::SessionClosed),
    }
}

fn on_dispatch(stage: Stage, block_number: u64, stopping: bool, event: &Event) -> (r: Transition)
    requires
        admits(State::Dispatching { stage, block_number, stopping }, *event),
    ensures
        r == dispatching(stage, block_number, stopping, *event),
{
    let state = State::Dispatching { stage, block_number, stopping };
    match event {
        Event::Shutdown => Transition {
            state: State::Dispatching { stage, block_number, stopping: true },
            action: Action::Proceed,
            notice: Notice::ShutdownReceived,
        },
        Event::OracleAnswered(answer) => match stage {
            Stage::Checking => if precondition_holds(answer) {
                Transition {
                    state: State::Dispatching {
                        stage: Stage::ResolvingChain,
                        block_number,
                        stopping,
                    },
                    action: Action::ResolveChain { block_number },
                    notice: Notice::PreconditionEvaluated(true),
                }
            } else {
                finish_dispatch(stopping, Notice::PreconditionEvaluated(false))
            },
            _ => stay(state),
        },
        Event::OracleFailed => match stage {
            Stage::Checking => fail(LoopError::Oracle),
            _ => stay(state),
        },
        Event::ChainResolved(chain_id) => match stage {
            Stage::ResolvingChain => Transition {
                state: State::Dispatching { stage: Stage::Submitting, block_number, stopping },
                action: Action::Submit { block_number, chain_id: *chain_id },
                notice: Notice::ChainResolved,
            },
            _ => stay(state),
        },
        Event::ChainFailed => match stage {
            Stage::ResolvingChain => fail(LoopError::ChainId),
            _ => stay(state),
        },
        Event::Submitted => match stage {
            Stage::Submitting => finish_dispatch(stopping, Notice::PaymentsSubmitted),
            _ => stay(state),
        },
        Event::SubmitFailed => match stage {
            Stage::Submitting => fail(LoopError::Submission),
            _ => stay(state),
        },
        _ => stay(state),
    }
}

/// One step of the loop: the next state, the next action and what to report,
/// for the state the loop is in and the event that has just happened.
///
/// - Shutdown ends every wait at once: the loop returns `Ok`. While a
///   notification is being dispatched it is only noted, and the loop returns
///   when the dispatch is over.
/// - A failed attempt to connect, a close frame, a failed read and the end
///   of the stream all lead to a new attempt after `RETRY_DELAY_SECS`.
/// - A frame is routed as `route_frame` says. A notification is dispatched
///   before the next frame is read: the oracle is asked, and where its
///   answer holds, the chain is resolved and the transaction submitted.
/// - A failure of the oracle, of the chain lookup or of the submission ends
///   the loop with that error.
/// - An event that the state does not wait for changes nothing.
pub fn step(state: State, event: &Event) -> (r: Transition)
    requires
        admits(state, *event),
    ensures
        r == next(state, *event),
{
    match state {
        State::Connecting => match event {
            Event::Shutdown => stop(),
            Event::Connected => Transition {
                state: State::Listening,
                action: Action::AwaitFrame,
                notice: Notice::SessionOpened,
            },
            Event::ConnectFailed => back_off(Notice::ConnectFailed),
            _ => stay(state),
        },
        State::Backoff => match event {
            Event::Shutdown => stop(),
            Event::DelayElapsed => Transition {
                state: State::Connecting,
                action: Action::Connect,
                notice: Notice::Reconnecting,
            },
            _ => stay(state),
        },
        State::Listening => match event {
            Event::Shutdown => stop(),
            Event::Frame(frame) => on_frame(route_frame(frame)),
            Event::ReadFailed => back_off(Notice::ReadFailed),
            Event::StreamEnded => back_off(Notice::StreamEnded),
            _ => stay(state),
        },
        State::Dispatching { stage, block_number, stopping } => on_dispatch(
            stage,
            block_number,
            stopping,
            event,
        ),
        State::Stopped => stay(state),
        State::Failed(_) => stay(state),
    }
}

} // verus!
