use hotspot_core::envelope::{WebSocketMessage, WebSocketMessageType};
use hotspot_core::message_queue::{
    MessageError, MessageQueue, RetryPhase, run_retry, MAX_RETRIES, RETRY_DELAY_MS,
};

fn envelope(n: i64) -> WebSocketMessage {
    WebSocketMessage {
        message_type: WebSocketMessageType::GroupMessage,
        data: Some(format!("{{\"n\":{}}}", n)),
        timestamp: n,
    }
}

#[test]
fn enqueue_then_drain_preserves_order() {
    let mut queue = MessageQueue::new();
    assert_eq!(queue.get_queue_size(), 0);
    queue.enqueue(envelope(1)).unwrap();
    queue.enqueue(envelope(2)).unwrap();
    assert_eq!(queue.get_queue_size(), 2);
    assert_eq!(queue.drain_next(), Some(envelope(1)));
    assert_eq!(queue.drain_next(), Some(envelope(2)));
    assert_eq!(queue.drain_next(), None);
}

#[test]
fn enqueue_fails_only_when_the_mailbox_is_closed() {
    let mut queue = MessageQueue::new();
    queue.close();
    match queue.enqueue(envelope(5)) {
        Err(MessageError::SendError(m)) => assert_eq!(m, envelope(5)),
        other => panic!("expected the envelope handed back, got {:?}", other),
    }
    assert_eq!(queue.get_queue_size(), 0);
}

#[test]
fn process_message_delivers_on_the_first_attempt_when_open() {
    let mut queue = MessageQueue::new();
    assert_eq!(queue.process_message(envelope(7)), Ok(()));
    assert_eq!(queue.drain_next(), Some(envelope(7)));
}

#[test]
fn process_message_against_a_closed_mailbox_is_retry_exhausted() {
    let mut queue = MessageQueue::new();
    queue.close();
    assert_eq!(queue.process_message(envelope(7)), Err(MessageError::RetryExhausted));
    assert_eq!(queue.get_queue_size(), 0);
}

#[test]
fn a_permanently_failing_downstream_exhausts_after_three_attempts() {
    let outcomes = vec![false, false, false];
    let m = run_retry(&outcomes);
    assert_eq!(m.phase, RetryPhase::Exhausted);
    assert_eq!(m.attempts_made, MAX_RETRIES);
    assert_eq!(m.waited_ms, 2 * RETRY_DELAY_MS);
    assert!(m.waited_ms >= 2 * 1000);
}

#[test]
fn a_run_succeeds_with_the_first_accepted_attempt() {
    let m1 = run_retry(&vec![true, false, false]);
    assert_eq!(m1.phase, RetryPhase::Succeeded);
    assert_eq!(m1.attempts_made, 1);
    assert_eq!(m1.waited_ms, 0);

    let m2 = run_retry(&vec![false, true, false]);
    assert_eq!(m2.phase, RetryPhase::Succeeded);
    assert_eq!(m2.attempts_made, 2);
    assert_eq!(m2.waited_ms, RETRY_DELAY_MS);

    let m3 = run_retry(&vec![false, false, true]);
    assert_eq!(m3.phase, RetryPhase::Succeeded);
    assert_eq!(m3.attempts_made, 3);
    assert_eq!(m3.waited_ms, 2 * RETRY_DELAY_MS);
}

#[test]
fn clear_queue_drops_everything() {
    let mut queue = MessageQueue::new();
    queue.enqueue(envelope(1)).unwrap();
    queue.enqueue(envelope(2)).unwrap();
    queue.clear_queue();
    assert_eq!(queue.get_queue_size(), 0);
    assert_eq!(queue.drain_next(), None);
}
