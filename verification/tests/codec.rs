use hotspot_core::envelope::{
    message_type_from_str, message_type_to_str, parse_connect_message, parse_envelope,
    serialize_envelope, GroupEventType, WebSocketMessage, WebSocketMessageType,
};
use hotspot_core::ws_service::make_user_status_envelope;

#[test]
fn parse_connect_message_reads_the_token_field() {
    let m = parse_connect_message("{\"token\":\"T\"}").expect("a token must be found");
    assert_eq!(m.token, "T");
}

#[test]
fn parse_connect_message_rejects_bad_input() {
    assert!(parse_connect_message("not json").is_none());
    assert!(parse_connect_message("{\"other\":1}").is_none());
    assert!(parse_connect_message("{\"token\":5}").is_none());
}

#[test]
fn parse_envelope_reads_the_three_wire_fields() {
    let text = "{\"message_type\":\"ping\",\"data\":null,\"timestamp\":\"2024-01-01T00:00:00Z\"}";
    let m = parse_envelope(text).expect("the envelope must parse");
    assert_eq!(m.message_type, WebSocketMessageType::Ping);
    assert!(m.data.is_none());
    assert_eq!(m.timestamp, 1_704_067_200_000);
}

#[test]
fn parse_envelope_rejects_unknown_types_and_bad_timestamps() {
    assert!(parse_envelope("{\"message_type\":\"nonsense\",\"data\":null,\"timestamp\":\"2024-01-01T00:00:00Z\"}").is_none());
    assert!(parse_envelope("{\"message_type\":\"ping\",\"data\":null,\"timestamp\":\"not a date\"}").is_none());
    assert!(parse_envelope("{}").is_none());
    assert!(parse_envelope("[]").is_none());
}

#[test]
fn serialize_then_parse_recovers_a_bare_envelope() {
    let m = WebSocketMessage {
        message_type: WebSocketMessageType::Pong,
        data: None,
        timestamp: 0,
    };
    let back = parse_envelope(&serialize_envelope(&m)).unwrap();
    assert_eq!(back, m);
}

#[test]
fn serialize_then_parse_recovers_the_envelope() {
    let m = WebSocketMessage {
        message_type: WebSocketMessageType::DirectMessage,
        data: Some(String::from("{\"content\":\"hi\"}")),
        timestamp: 1_704_067_200_000,
    };
    let text = serialize_envelope(&m);
    let back = parse_envelope(&text).expect("the serialized envelope must parse");
    assert_eq!(back.message_type, WebSocketMessageType::DirectMessage);
    assert_eq!(back.timestamp, m.timestamp);
    let payload: serde_json::Value =
        serde_json::from_str(back.data.as_deref().unwrap()).unwrap();
    assert_eq!(payload.get("content").unwrap().as_str(), Some("hi"));
}

#[test]
fn every_message_type_name_round_trips() {
    let all = [
        WebSocketMessageType::Ping,
        WebSocketMessageType::Pong,
        WebSocketMessageType::Connect,
        WebSocketMessageType::Connected,
        WebSocketMessageType::Error,
        WebSocketMessageType::Disconnect,
        WebSocketMessageType::DirectMessage,
        WebSocketMessageType::GroupMessage,
        WebSocketMessageType::UserOnline,
        WebSocketMessageType::UserOffline,
        WebSocketMessageType::UserTyping,
        WebSocketMessageType::ReadReceipt,
        WebSocketMessageType::GroupJoined,
        WebSocketMessageType::GroupLeft,
        WebSocketMessageType::NewCheckin,
    ];
    for t in all {
        assert_eq!(message_type_from_str(message_type_to_str(t)), Some(t));
    }
    assert_eq!(message_type_to_str(WebSocketMessageType::DirectMessage), "direct_message");
    assert_eq!(message_type_from_str("no_such_type"), None);
}

#[test]
fn group_event_names_round_trip_and_default_to_create() {
    let all = [
        GroupEventType::Create,
        GroupEventType::Join,
        GroupEventType::Leave,
        GroupEventType::Update,
        GroupEventType::Kick,
        GroupEventType::Transfer,
    ];
    for t in all {
        assert_eq!(GroupEventType::from(t.as_str()), t);
    }
    assert_eq!(GroupEventType::Join.as_str(), "join");
    assert_eq!(GroupEventType::from("anything else"), GroupEventType::Create);
}

#[test]
fn user_status_envelope_carries_the_presence_payload() {
    let online = make_user_status_envelope(42, "online", 1_704_067_200_000);
    assert_eq!(online.message_type, WebSocketMessageType::UserOnline);
    assert_eq!(online.timestamp, 1_704_067_200_000);
    let payload: serde_json::Value =
        serde_json::from_str(online.data.as_deref().unwrap()).unwrap();
    assert_eq!(payload.get("user_id").unwrap().as_str(), Some("42"));
    assert_eq!(payload.get("status").unwrap().as_str(), Some("online"));

    let offline = make_user_status_envelope(42, "offline", 0);
    assert_eq!(offline.message_type, WebSocketMessageType::UserOffline);
}
