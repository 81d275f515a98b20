//! Unit tests of the synchronous pieces: the runtime core applied directly,
//! reply classification, and the error mappings.

use actor_mailbox::Actor;
use actor_mailbox::ActorError;
use actor_mailbox::CounterAction;
use actor_mailbox::CounterError;
use actor_mailbox::into_act_result;
use actor_mailbox::settle_reply;

#[test]
fn step_applies_and_answers() {
    let mut actor: Actor<CounterAction> = Actor::new(0);
    assert_eq!(actor.step(CounterAction::Add(5)), Ok(5));
    assert_eq!(actor.step(CounterAction::Subtract(7)), Ok(-2));
    assert_eq!(actor.step(CounterAction::Get), Ok(-2));
}

#[test]
fn drain_applies_in_order_exactly_once() {
    let mut actor: Actor<CounterAction> = Actor::new(0);
    let replies = actor.drain(vec![
        CounterAction::Add(1),
        CounterAction::Subtract(5),
        CounterAction::Get,
    ]);
    assert_eq!(replies, vec![Ok(1), Ok(-4), Ok(-4)]);
    assert_eq!(actor.step(CounterAction::Get), Ok(-4));
}

#[test]
fn drain_of_nothing_answers_nothing() {
    let mut actor: Actor<CounterAction> = Actor::new(42);
    let replies = actor.drain(vec![]);
    assert_eq!(replies, vec![]);
    assert_eq!(actor.step(CounterAction::Get), Ok(42));
}

#[test]
fn overflow_is_reported_and_leaves_state_unchanged() {
    let mut actor: Actor<CounterAction> = Actor::new(i64::MAX);
    assert_eq!(
        actor.step(CounterAction::Add(1)),
        Err(CounterError::Overflow)
    );
    assert_eq!(actor.step(CounterAction::Get), Ok(i64::MAX));
    let mut low: Actor<CounterAction> = Actor::new(i64::MIN);
    assert_eq!(
        low.step(CounterAction::Subtract(1)),
        Err(CounterError::Overflow)
    );
    assert_eq!(low.step(CounterAction::Get), Ok(i64::MIN));
}

#[test]
fn settle_reply_passes_outcomes_through_verbatim() {
    let delivered: Result<Result<i64, CounterError>, futures_channel::oneshot::Canceled> =
        Ok(Ok(3));
    assert_eq!(settle_reply(delivered), Ok(Ok(3)));
    let failed: Result<Result<i64, CounterError>, futures_channel::oneshot::Canceled> =
        Ok(Err(CounterError::Overflow));
    assert_eq!(settle_reply(failed), Ok(Err(CounterError::Overflow)));
}

#[test]
fn settle_reply_maps_cancellation_to_wait_error() {
    let canceled: Result<Result<i64, CounterError>, futures_channel::oneshot::Canceled> =
        Err(futures_channel::oneshot::Canceled);
    assert_eq!(settle_reply(canceled), Err(ActorError::WaitError));
}

#[test]
fn into_act_result_folds_structural_failures() {
    let ok: Result<Result<i64, CounterError>, ActorError> = Ok(Ok(9));
    assert_eq!(into_act_result(ok), Ok(9));
    let user: Result<Result<i64, CounterError>, ActorError> = Ok(Err(CounterError::Overflow));
    assert_eq!(into_act_result(user), Err(CounterError::Overflow));
    let structural: Result<Result<i64, CounterError>, ActorError> =
        Err(ActorError::InvokeError);
    assert_eq!(
        into_act_result(structural),
        Err(CounterError::Mailbox(ActorError::InvokeError))
    );
}

#[test]
fn canceled_reply_converts_to_wait_error() {
    assert_eq!(
        ActorError::from(futures_channel::oneshot::Canceled),
        ActorError::WaitError
    );
}

#[test]
fn failed_send_converts_to_invoke_error() {
    let (tx, rx) = futures_channel::mpsc::unbounded::<i64>();
    drop(rx);
    let failure = tx.unbounded_send(1).expect_err("receiver is gone");
    assert_eq!(ActorError::from(failure), ActorError::InvokeError);
}

#[test]
fn error_messages() {
    assert_eq!(
        ActorError::InvokeError.message(),
        "Cannot send message to actor"
    );
    assert_eq!(ActorError::WaitError.message(), "Cannot wait for an answer");
}

#[test]
fn mailbox_failure_folds_into_counter_error() {
    assert_eq!(
        CounterError::from(ActorError::WaitError),
        CounterError::Mailbox(ActorError::WaitError)
    );
}
