use hotspot_core::config::{AppConfig, ConfigService};
use hotspot_core::envelope::{WebSocketMessage, WebSocketMessageType};
use hotspot_core::hub::BroadcastError;
use hotspot_core::session::SessionManager;
use hotspot_core::ws_service::WsService;

fn service() -> WsService {
    let config = AppConfig::new(
        String::from("local-test-signing-key"),
        String::from("3600"),
        String::new(),
        None,
        8080,
    );
    WsService::new(SessionManager::new(), ConfigService::new(config))
}

#[test]
fn broadcast_reaches_every_subscriber() {
    let mut ws = service();
    let a = ws.subscribe();
    let b = ws.subscribe();
    let m = WebSocketMessage {
        message_type: WebSocketMessageType::NewCheckin,
        data: Some(String::from("{\"spot\":\"pier\"}")),
        timestamp: 5,
    };
    ws.broadcast_message(&m).unwrap();
    assert_eq!(ws.hub.recv(a), Some(m.clone()));
    assert_eq!(ws.hub.recv(b), Some(m));
}

#[test]
fn broadcast_fails_only_after_teardown() {
    let mut ws = service();
    let m = WebSocketMessage {
        message_type: WebSocketMessageType::Ping,
        data: None,
        timestamp: 0,
    };
    assert_eq!(ws.broadcast_message(&m), Ok(()));
    ws.hub.close();
    assert_eq!(ws.broadcast_message(&m), Err(BroadcastError::Closed));
}

#[test]
fn presence_envelopes_are_broadcast_to_subscribers() {
    let mut ws = service();
    let s = ws.subscribe();
    ws.send_user_status(42, "online", 1_000).unwrap();
    let online = ws.hub.recv(s).expect("the presence envelope must arrive");
    assert_eq!(online.message_type, WebSocketMessageType::UserOnline);
    assert_eq!(online.timestamp, 1_000);
    ws.send_user_status(42, "offline", 2_000).unwrap();
    let offline = ws.hub.recv(s).unwrap();
    assert_eq!(offline.message_type, WebSocketMessageType::UserOffline);
    let payload: serde_json::Value =
        serde_json::from_str(offline.data.as_deref().unwrap()).unwrap();
    assert_eq!(payload.get("status").unwrap().as_str(), Some("offline"));
}

#[test]
fn the_registry_travels_with_the_service() {
    let mut ws = service();
    ws.session_manager.add_session(1, String::from("A"), 10);
    assert!(ws.session_manager.get_session(1).is_some());
}
