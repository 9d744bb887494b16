use hotspot_core::envelope::{WebSocketMessage, WebSocketMessageType};
use hotspot_core::hub::{BroadcastError, BroadcastHub};

fn envelope(n: i64) -> WebSocketMessage {
    WebSocketMessage {
        message_type: WebSocketMessageType::DirectMessage,
        data: Some(format!("{{\"n\":{}}}", n)),
        timestamp: n,
    }
}

#[test]
fn publish_with_zero_subscribers_is_a_no_op_success() {
    let mut hub = BroadcastHub::new(4);
    assert_eq!(hub.publish(&envelope(1)), Ok(0));
}

#[test]
fn fanout_delivers_in_publish_order_to_every_subscriber() {
    let mut hub = BroadcastHub::new(10);
    let a = hub.subscribe();
    let b = hub.subscribe();
    for n in 0..5 {
        assert_eq!(hub.publish(&envelope(n)), Ok(2));
    }
    for sub in [a, b] {
        for n in 0..5 {
            assert_eq!(hub.recv(sub), Some(envelope(n)));
        }
        assert_eq!(hub.recv(sub), None);
    }
}

#[test]
fn a_late_subscriber_never_observes_an_earlier_envelope() {
    let mut hub = BroadcastHub::new(10);
    hub.publish(&envelope(1)).unwrap();
    let s = hub.subscribe();
    assert_eq!(hub.recv(s), None);
    hub.publish(&envelope(2)).unwrap();
    assert_eq!(hub.recv(s), Some(envelope(2)));
    assert_eq!(hub.recv(s), None);
}

#[test]
fn a_full_buffer_drops_its_oldest_envelope() {
    let mut hub = BroadcastHub::new(2);
    let s = hub.subscribe();
    hub.publish(&envelope(1)).unwrap();
    hub.publish(&envelope(2)).unwrap();
    hub.publish(&envelope(3)).unwrap();
    assert_eq!(hub.recv(s), Some(envelope(2)));
    assert_eq!(hub.recv(s), Some(envelope(3)));
    assert_eq!(hub.recv(s), None);
}

#[test]
fn publish_fails_only_when_the_hub_is_torn_down() {
    let mut hub = BroadcastHub::new(4);
    let s = hub.subscribe();
    hub.publish(&envelope(1)).unwrap();
    hub.close();
    assert_eq!(hub.publish(&envelope(2)), Err(BroadcastError::Closed));
    // What was already delivered stays readable.
    assert_eq!(hub.recv(s), Some(envelope(1)));
}

#[test]
fn unsubscribe_drops_the_handle() {
    let mut hub = BroadcastHub::new(4);
    let a = hub.subscribe();
    let b = hub.subscribe();
    assert_eq!(hub.subscriber_count(), 2);
    hub.unsubscribe(a);
    assert_eq!(hub.subscriber_count(), 1);
    hub.publish(&envelope(1)).unwrap();
    assert_eq!(hub.recv(a), None);
    assert_eq!(hub.recv(b), Some(envelope(1)));
    // Unknown handles are a silent no-op.
    hub.unsubscribe(a);
    assert_eq!(hub.subscriber_count(), 1);
}

#[test]
fn one_subscriber_overflow_does_not_disturb_another() {
    let mut hub = BroadcastHub::new(2);
    let slow = hub.subscribe();
    for n in 0..4 {
        hub.publish(&envelope(n)).unwrap();
    }
    let fresh = hub.subscribe();
    hub.publish(&envelope(9)).unwrap();
    // The slow subscriber lost the oldest envelopes, never the publisher.
    assert_eq!(hub.recv(slow), Some(envelope(3)));
    assert_eq!(hub.recv(slow), Some(envelope(9)));
    assert_eq!(hub.recv(fresh), Some(envelope(9)));
    assert_eq!(hub.recv(fresh), None);
}
