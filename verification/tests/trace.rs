use transaction_executor::felt::FieldElement;
use transaction_executor::fetcher::{
    is_admitted, start, step, Action, Event, LoopError, Stage, State, Transition,
};
use transaction_executor::frame::Inbound;

/// Feeds the events to the loop one after the other, from its start.
fn replay(events: &[Event]) -> Vec<Transition> {
    let mut state = start().state;
    let mut steps = Vec::new();
    for event in events {
        assert!(is_admitted(state, event));
        let next = step(state, event);
        state = next.state;
        steps.push(next);
    }
    steps
}

fn block(number: u64) -> Event {
    Event::Frame(Inbound::Text(format!("{{\"block_number\": {}}}", number)))
}

fn answer(value: u64) -> Event {
    Event::OracleAnswered(vec![FieldElement::from_u64(value)])
}

fn chain() -> Event {
    Event::ChainResolved(FieldElement::from_u64(0x534e))
}

fn seconds_slept(steps: &[Transition]) -> u64 {
    let mut total = 0;
    for taken in steps {
        if let Action::Sleep { seconds } = taken.action {
            total += seconds;
        }
    }
    total
}

fn count(steps: &[Transition], wanted: fn(&Action) -> bool) -> usize {
    steps.iter().filter(|taken| wanted(&taken.action)).count()
}

fn reconnect_after(failures: usize) {
    let mut events = Vec::new();
    for _ in 0..failures {
        events.push(Event::ConnectFailed);
        events.push(Event::DelayElapsed);
    }
    events.push(Event::Connected);
    let steps = replay(&events);
    let last = steps.last().unwrap();
    assert_eq!(last.state, State::Listening);
    assert_eq!(last.action, Action::AwaitFrame);
    assert_eq!(seconds_slept(&steps), 5 * failures as u64);
    assert_eq!(count(&steps, |action| matches!(action, Action::Connect)), failures);
}

#[test]
fn connects_at_once_without_failures() {
    reconnect_after(0);
}

#[test]
fn connects_after_one_failure() {
    reconnect_after(1);
}

#[test]
fn connects_after_many_failures() {
    reconnect_after(3);
    reconnect_after(100);
}

#[test]
fn session_yields_events_after_reconnect() {
    let steps = replay(&[Event::ConnectFailed, Event::DelayElapsed, Event::Connected, block(42)]);
    assert_eq!(steps[3].action, Action::CheckPrecondition { block_number: 42 });
}

#[test]
fn two_notifications_are_dispatched_in_order() {
    let steps = replay(&[
        Event::Connected,
        block(1),
        answer(1),
        chain(),
        Event::Submitted,
        block(2),
        answer(0),
    ]);
    let actions: Vec<Action> = steps.iter().map(|taken| taken.action).collect();
    assert_eq!(
        actions,
        vec![
            Action::AwaitFrame,
            Action::CheckPrecondition { block_number: 1 },
            Action::ResolveChain { block_number: 1 },
            Action::Submit { block_number: 1, chain_id: FieldElement::from_u64(0x534e) },
            Action::AwaitFrame,
            Action::CheckPrecondition { block_number: 2 },
            Action::AwaitFrame,
        ]
    );
}

#[test]
fn second_notification_waits_for_the_first() {
    let steps = replay(&[Event::Connected, block(1), block(2), answer(0), block(2)]);
    assert_eq!(steps[1].action, Action::CheckPrecondition { block_number: 1 });
    assert_eq!(steps[2].action, Action::Proceed);
    assert_eq!(
        steps[2].state,
        State::Dispatching { stage: Stage::Checking, block_number: 1, stopping: false }
    );
    assert_eq!(steps[3].action, Action::AwaitFrame);
    assert_eq!(steps[4].action, Action::CheckPrecondition { block_number: 2 });
}

#[test]
fn false_verdict_makes_no_submission() {
    let steps = replay(&[Event::Connected, block(7), answer(0), block(8), answer(2)]);
    assert_eq!(count(&steps, |action| matches!(action, Action::Submit { .. })), 0);
    assert_eq!(count(&steps, |action| matches!(action, Action::ResolveChain { .. })), 0);
    assert_eq!(steps.last().unwrap().state, State::Listening);
}

#[test]
fn true_verdict_makes_exactly_one_submission() {
    let steps = replay(&[Event::Connected, block(7), answer(1), chain(), Event::Submitted]);
    assert_eq!(count(&steps, |action| matches!(action, Action::Submit { .. })), 1);
    assert_eq!(
        steps[3].action,
        Action::Submit { block_number: 7, chain_id: FieldElement::from_u64(0x534e) }
    );
    assert_eq!(steps.last().unwrap().state, State::Listening);
}

#[test]
fn each_true_verdict_submits_once() {
    let mut events = vec![Event::Connected];
    for number in 0..4 {
        events.push(block(number));
        events.push(answer(1));
        events.push(chain());
        events.push(Event::Submitted);
    }
    let steps = replay(&events);
    assert_eq!(count(&steps, |action| matches!(action, Action::Submit { .. })), 4);
    assert_eq!(count(&steps, |action| matches!(action, Action::CheckPrecondition { .. })), 4);
}

#[test]
fn failed_oracle_ends_the_loop() {
    let steps = replay(&[Event::Connected, block(1), Event::OracleFailed, block(2)]);
    assert_eq!(steps[2].action, Action::Return(Err(LoopError::Oracle)));
    assert_eq!(steps[3].state, State::Failed(LoopError::Oracle));
    assert_eq!(steps[3].action, Action::Return(Err(LoopError::Oracle)));
}

#[test]
fn failed_submission_ends_the_loop() {
    let steps = replay(&[Event::Connected, block(1), answer(1), chain(), Event::SubmitFailed]);
    assert_eq!(steps[4].state, State::Failed(LoopError::Submission));
    assert_eq!(steps[4].action, Action::Return(Err(LoopError::Submission)));
}

fn begins_wait(action: &Action) -> bool {
    matches!(
        action,
        Action::Connect
            | Action::Sleep { .. }
            | Action::AwaitFrame
            | Action::CheckPrecondition { .. }
    )
}

#[test]
fn shutdown_during_retry_delay_returns_at_once() {
    let steps = replay(&[Event::ConnectFailed, Event::Shutdown, Event::DelayElapsed]);
    assert_eq!(steps[1].state, State::Stopped);
    assert_eq!(steps[1].action, Action::Return(Ok(())));
    assert_eq!(steps[2].state, State::Stopped);
    assert_eq!(steps[2].action, Action::Return(Ok(())));
}

#[test]
fn shutdown_while_connecting_returns_at_once() {
    let steps = replay(&[Event::Shutdown, Event::Connected]);
    assert_eq!(steps[0].action, Action::Return(Ok(())));
    assert_eq!(steps[1].state, State::Stopped);
}

#[test]
fn shutdown_while_listening_returns_at_once() {
    let steps = replay(&[Event::Connected, Event::Shutdown, block(3)]);
    assert_eq!(steps[1].action, Action::Return(Ok(())));
    assert_eq!(steps[2].action, Action::Return(Ok(())));
}

#[test]
fn nothing_new_begins_after_shutdown() {
    let later = vec![
        answer(1),
        block(9),
        Event::Connected,
        chain(),
        Event::DelayElapsed,
        Event::Submitted,
        Event::ConnectFailed,
        block(10),
        Event::Frame(Inbound::Close),
    ];
    let mut events = vec![Event::Connected, block(8), Event::Shutdown];
    events.extend(later);
    let steps = replay(&events);
    for taken in &steps[2..] {
        assert!(!begins_wait(&taken.action));
    }
    assert_eq!(count(&steps, |action| matches!(action, Action::Submit { .. })), 1);
    assert_eq!(steps.last().unwrap().state, State::Stopped);
}

#[test]
fn close_frame_leads_to_a_new_session() {
    let steps = replay(&[
        Event::Connected,
        Event::Frame(Inbound::Close),
        Event::DelayElapsed,
        Event::Connected,
        block(5),
    ]);
    assert_eq!(steps[1].action, Action::Sleep { seconds: 5 });
    assert_eq!(steps[2].action, Action::Connect);
    assert_eq!(steps[3].action, Action::AwaitFrame);
    assert_eq!(steps[4].action, Action::CheckPrecondition { block_number: 5 });
}
