use hotspot_core::envelope::{WebSocketMessage, WebSocketMessageType};
use hotspot_core::hub::BroadcastHub;
use hotspot_core::runtime::{
    AuthError, ConnAction, ConnState, ConnectStep, ConnectionRuntime, HandshakeStep,
    InboundFrame, LookupError, StreamEvent, VerifyStep,
};
use hotspot_core::session::SessionManager;

const NOW: i64 = 1_704_067_200_000;

fn connect_runtime(
    registry: &mut SessionManager,
    hub: &mut BroadcastHub,
    token: &str,
    user_id: i64,
    nickname: &str,
) -> (ConnectionRuntime, WebSocketMessage) {
    let mut runtime = ConnectionRuntime::new();
    let frame = InboundFrame::Text(format!("{{\"token\":\"{}\"}}", token));
    let step = runtime.handshake_frame(frame, NOW);
    let tok = match step {
        HandshakeStep::NeedVerify(t) => t,
        other => panic!("expected a token, got {:?}", other),
    };
    assert_eq!(tok, token);
    let step = runtime.handshake_verified(Ok(user_id), NOW);
    let uid = match step {
        VerifyStep::NeedIdentity(u) => u,
        other => panic!("expected an identity lookup, got {:?}", other),
    };
    assert_eq!(uid, user_id);
    let step = runtime.handshake_identity(Ok(String::from(nickname)), registry, hub, NOW);
    let ack = match step {
        ConnectStep::Connected(ack) => ack,
        other => panic!("expected the connected acknowledgement, got {:?}", other),
    };
    (runtime, ack)
}

#[test]
fn a_valid_auth_frame_reaches_streaming_with_the_session_registered() {
    let mut registry = SessionManager::new();
    let mut hub = BroadcastHub::new(16);
    let (runtime, ack) = connect_runtime(&mut registry, &mut hub, "T", 42, "Alice");
    assert_eq!(runtime.state, ConnState::Streaming);
    assert_eq!(ack.message_type, WebSocketMessageType::Connected);
    // The session is registered before any streaming-phase envelope can
    // be relayed.
    let s = registry.get_session(42).expect("the session must be registered");
    assert_eq!(s.nickname, "Alice");
}

#[test]
fn a_non_text_first_frame_is_rejected_with_one_error_envelope() {
    let mut runtime = ConnectionRuntime::new();
    match runtime.handshake_frame(InboundFrame::Binary, NOW) {
        HandshakeStep::Rejected(m) => assert_eq!(m.message_type, WebSocketMessageType::Error),
        other => panic!("expected a rejection, got {:?}", other),
    }
    assert_eq!(runtime.state, ConnState::Closed);
}

#[test]
fn an_unparseable_first_frame_is_rejected() {
    let mut runtime = ConnectionRuntime::new();
    let step = runtime.handshake_frame(InboundFrame::Text(String::from("not json")), NOW);
    assert!(matches!(step, HandshakeStep::Rejected(_)));
    assert_eq!(runtime.state, ConnState::Closed);
}

#[test]
fn a_failed_token_verification_is_rejected() {
    let mut runtime = ConnectionRuntime::new();
    runtime.handshake_frame(InboundFrame::Text(String::from("{\"token\":\"bad\"}")), NOW);
    let step = runtime.handshake_verified(Err(AuthError::Expired), NOW);
    assert!(matches!(step, VerifyStep::Rejected(_)));
    assert_eq!(runtime.state, ConnState::Closed);
}

#[test]
fn a_failed_identity_lookup_is_rejected() {
    let mut registry = SessionManager::new();
    let mut hub = BroadcastHub::new(16);
    let mut runtime = ConnectionRuntime::new();
    runtime.handshake_frame(InboundFrame::Text(String::from("{\"token\":\"T\"}")), NOW);
    runtime.handshake_verified(Ok(42), NOW);
    let step = runtime.handshake_identity(Err(LookupError::NotFound), &mut registry, &mut hub, NOW);
    assert!(matches!(step, ConnectStep::Rejected(_)));
    assert_eq!(runtime.state, ConnState::Closed);
    assert!(registry.get_session(42).is_none());
}

#[test]
fn a_ping_yields_exactly_one_pong_and_no_state_change() {
    let mut registry = SessionManager::new();
    let mut hub = BroadcastHub::new(16);
    let (mut runtime, _) = connect_runtime(&mut registry, &mut hub, "T", 42, "Alice");
    let before = registry.get_session(42).unwrap();
    let subs_before = hub.subscriber_count();
    let ping = InboundFrame::Text(format!(
        "{{\"message_type\":\"ping\",\"data\":null,\"timestamp\":\"2024-01-01T00:00:00Z\"}}"
    ));
    let action = runtime.streaming_event(StreamEvent::Inbound(ping), &mut registry, &mut hub, NOW);
    match action {
        Some(ConnAction::SendEnvelope(p)) => {
            assert_eq!(p.message_type, WebSocketMessageType::Pong);
            assert!(p.data.is_none());
        },
        other => panic!("expected one pong, got {:?}", other),
    }
    assert_eq!(runtime.state, ConnState::Streaming);
    assert_eq!(registry.get_session(42).unwrap(), before);
    assert_eq!(hub.subscriber_count(), subs_before);
}

#[test]
fn a_transport_ping_is_answered_at_the_transport_level() {
    let mut registry = SessionManager::new();
    let mut hub = BroadcastHub::new(16);
    let (mut runtime, _) = connect_runtime(&mut registry, &mut hub, "T", 42, "Alice");
    let action = runtime.streaming_event(
        StreamEvent::Inbound(InboundFrame::TransportPing),
        &mut registry,
        &mut hub,
        NOW,
    );
    assert!(matches!(action, Some(ConnAction::SendTransportPong)));
    assert_eq!(runtime.state, ConnState::Streaming);
}

#[test]
fn a_transport_error_breaks_to_closing() {
    let mut registry = SessionManager::new();
    let mut hub = BroadcastHub::new(16);
    let (mut runtime, _) = connect_runtime(&mut registry, &mut hub, "T", 42, "Alice");
    let action = runtime.streaming_event(
        StreamEvent::Inbound(InboundFrame::TransportError),
        &mut registry,
        &mut hub,
        NOW,
    );
    assert!(action.is_none());
    assert_eq!(runtime.state, ConnState::Closing);
}

#[test]
fn an_unparseable_streaming_frame_is_ignored() {
    let mut registry = SessionManager::new();
    let mut hub = BroadcastHub::new(16);
    let (mut runtime, _) = connect_runtime(&mut registry, &mut hub, "T", 42, "Alice");
    let action = runtime.streaming_event(
        StreamEvent::Inbound(InboundFrame::Text(String::from("garbage"))),
        &mut registry,
        &mut hub,
        NOW,
    );
    assert!(action.is_none());
    assert_eq!(runtime.state, ConnState::Streaming);
}

#[test]
fn end_to_end_connect_relay_disconnect() {
    let mut registry = SessionManager::new();
    let mut hub = BroadcastHub::new(16);

    // Client B is already subscribed before A connects.
    let b = hub.subscribe();

    // Client A connects; its token resolves to user 42, "Alice".
    let (mut runtime_a, ack) = connect_runtime(&mut registry, &mut hub, "T", 42, "Alice");
    assert_eq!(ack.message_type, WebSocketMessageType::Connected);

    // B observes the user_online broadcast.
    let online = hub.recv(b).expect("B must see the presence broadcast");
    assert_eq!(online.message_type, WebSocketMessageType::UserOnline);

    // A relays a direct message; B receives an identical envelope.
    let text = format!(
        "{{\"message_type\":\"direct_message\",\"data\":{{\"content\":\"hi\"}},\"timestamp\":\"2024-01-01T00:00:00Z\"}}"
    );
    let action = runtime_a.streaming_event(
        StreamEvent::Inbound(InboundFrame::Text(text)),
        &mut registry,
        &mut hub,
        NOW,
    );
    assert!(action.is_none());
    let relayed = hub.recv(b).expect("B must receive the relayed envelope");
    assert_eq!(relayed.message_type, WebSocketMessageType::DirectMessage);
    let payload: serde_json::Value =
        serde_json::from_str(relayed.data.as_deref().unwrap()).unwrap();
    assert_eq!(payload.get("content").unwrap().as_str(), Some("hi"));

    // The relay refreshed A's session activity.
    assert_eq!(registry.get_session(42).unwrap().last_active, NOW);

    // A asks to disconnect; the connection closes, a user_offline
    // broadcast follows, and the session is gone.
    let disconnect = format!(
        "{{\"message_type\":\"disconnect\",\"data\":null,\"timestamp\":\"2024-01-01T00:00:00Z\"}}"
    );
    let action = runtime_a.streaming_event(
        StreamEvent::Inbound(InboundFrame::Text(disconnect)),
        &mut registry,
        &mut hub,
        NOW,
    );
    assert!(action.is_none());
    assert_eq!(runtime_a.state, ConnState::Closing);
    let action = runtime_a.close(&mut registry, &mut hub, NOW);
    assert!(matches!(action, ConnAction::CloseSocket));
    assert_eq!(runtime_a.state, ConnState::Closed);
    let offline = hub.recv(b).expect("B must see the offline broadcast");
    assert_eq!(offline.message_type, WebSocketMessageType::UserOffline);
    assert!(registry.get_session(42).is_none());
}

#[test]
fn a_hub_envelope_is_written_to_the_socket() {
    let mut registry = SessionManager::new();
    let mut hub = BroadcastHub::new(16);
    let (mut runtime, _) = connect_runtime(&mut registry, &mut hub, "T", 42, "Alice");
    let m = WebSocketMessage {
        message_type: WebSocketMessageType::GroupMessage,
        data: Some(String::from("{\"x\":1}")),
        timestamp: NOW,
    };
    let action = runtime.streaming_event(
        StreamEvent::HubEnvelope(m.clone()),
        &mut registry,
        &mut hub,
        NOW,
    );
    match action {
        Some(ConnAction::SendEnvelope(out)) => assert_eq!(out, m),
        other => panic!("expected the envelope to be written, got {:?}", other),
    }
    assert_eq!(runtime.state, ConnState::Streaming);
}

#[test]
fn teardown_runs_on_every_exit_path_so_no_session_leaks() {
    let mut registry = SessionManager::new();
    let mut hub = BroadcastHub::new(16);
    let (mut runtime, _) = connect_runtime(&mut registry, &mut hub, "T", 7, "Bob");
    runtime.streaming_event(
        StreamEvent::Inbound(InboundFrame::TransportError),
        &mut registry,
        &mut hub,
        NOW,
    );
    assert_eq!(runtime.state, ConnState::Closing);
    runtime.close(&mut registry, &mut hub, NOW);
    assert!(registry.get_session(7).is_none());
    assert_eq!(hub.subscriber_count(), 0);
}
