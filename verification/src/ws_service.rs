//! The realtime service facade: the session registry and the broadcast
//! hub behind one value, and the presence envelopes the core emits on
//! connect and disconnect. Token verification and the business event
//! senders live with the host, outside the core.

use vstd::prelude::*;
use crate::config::ConfigService;
use crate::envelope::{WebSocketMessage, WebSocketMessageType};
use crate::hub::{spec_publish, BroadcastError, BroadcastHub};
use crate::session::SessionManager;
use crate::strutil::str_eq;

verus! {

/// The per-subscriber buffer capacity of the service's hub.
pub const HUB_CAPACITY: usize = 100;

/// The payload of a presence envelope for the given user, status and
/// instant.
pub uninterp spec fn user_status_payload(user_id: i64, status: Seq<char>, at_ms: i64) -> Seq<char>;

/// Relies on serde_json's value construction and printer and on
/// chrono's RFC 3339 formatter: the payload text depends on the user
/// id, the status and the instant alone.
#[verifier::external_body]
fn json_user_status(user_id: i64, status: &str, at_ms: i64) -> (r: String)
    ensures
        r@ == user_status_payload(user_id, status@, at_ms),
{
    let mut map = serde_json::Map::new();
    map.insert("user_id".to_string(), serde_json::Value::String(user_id.to_string()));
    map.insert("status".to_string(), serde_json::Value::String(status.to_string()));
    let at_text = match chrono::DateTime::<chrono::Utc>::from_timestamp_millis(at_ms) {
        Some(t) => t.to_rfc3339(),
        None => String::new(),
    };
    map.insert("last_active".to_string(), serde_json::Value::String(at_text));
    serde_json::Value::Object(map).to_string()
}

/// The presence envelope for a user: `user_online` when the status is
/// `online`, `user_offline` otherwise, carrying the status payload.
pub fn make_user_status_envelope(user_id: i64, status: &str, now: i64) -> (r: WebSocketMessage)
    ensures
        r.message_type == (if status@ == "online"@ {
            WebSocketMessageType::UserOnline
        } else {
            WebSocketMessageType::UserOffline
        }),
        r@.data == Some(user_status_payload(user_id, status@, now)),
        r.timestamp == now,
{
    let message_type = if str_eq(status, "online") {
        WebSocketMessageType::UserOnline
    } else {
        WebSocketMessageType::UserOffline
    };
    WebSocketMessage { message_type, data: Some(json_user_status(user_id, status, now)), timestamp: now }
}

/// The realtime service: presence registry, broadcast hub and
/// configuration.
pub struct WsService {
    pub session_manager: SessionManager,
    pub hub: BroadcastHub,
    pub config_service: ConfigService,
}

impl WsService {
    /// The service's well-formedness: registry and hub well formed.
    pub open spec fn inv(self) -> bool {
        self.session_manager.inv() && self.hub.inv()
    }

    /// A service over the given registry and configuration, with a
    /// fresh hub of the standard capacity.
    pub fn new(session_manager: SessionManager, config_service: ConfigService) -> (r: WsService)
        requires
            session_manager.inv(),
        ensures
            r.inv(),
            r.session_manager == session_manager,
            r.config_service == config_service,
            !r.hub@.closed,
            r.hub@.capacity == HUB_CAPACITY as nat,
            r.hub@.subs.len() == 0,
            r.hub.ids_used() == 0,
    {
        WsService { session_manager, hub: BroadcastHub::new(HUB_CAPACITY), config_service }
    }

    /// Broadcast an envelope to every live subscriber. Fails only if
    /// the hub has been torn down; with zero subscribers it succeeds as
    /// a no-op.
    pub fn broadcast_message(&mut self, message: &WebSocketMessage) -> (r: Result<
        (),
        BroadcastError,
    >)
        requires
            old(self).inv(),
        ensures
            final(self).inv(),
            final(self).session_manager == old(self).session_manager,
            final(self).config_service == old(self).config_service,
            final(self).hub.ids_used() == old(self).hub.ids_used(),
            old(self).hub@.closed ==> r == Result::<(), BroadcastError>::Err(
                BroadcastError::Closed,
            ) && final(self).hub@ == old(self).hub@,
            !old(self).hub@.closed ==> r is Ok && final(self).hub@ == spec_publish(
                old(self).hub@,
                *message,
            ),
    {
        match self.hub.publish(message) {
            Ok(_) => Ok(()),
            Err(e) => Err(e),
        }
    }

    /// A fresh subscription to the hub: it observes only envelopes
    /// published after this call.
    pub fn subscribe(&mut self) -> (id: u64)
        requires
            old(self).inv(),
            old(self).hub.can_subscribe(),
        ensures
            final(self).inv(),
            final(self).session_manager == old(self).session_manager,
            final(self).config_service == old(self).config_service,
            final(self).hub.ids_used() == old(self).hub.ids_used() + 1,
            final(self).hub@.closed == old(self).hub@.closed,
            final(self).hub@.capacity == old(self).hub@.capacity,
            final(self).hub@.subs == old(self).hub@.subs.push(
                (crate::hub::SubscriberView { id, pending: Seq::<WebSocketMessage>::empty() }),
            ),
    {
        self.hub.subscribe()
    }

    /// Broadcast a presence envelope for the user: `user_online` when
    /// the status is `online`, `user_offline` otherwise. Fails only if
    /// the hub has been torn down.
    pub fn send_user_status(&mut self, user_id: i64, status: &str, now: i64) -> (r: Result<
        (),
        BroadcastError,
    >)
        requires
            old(self).inv(),
        ensures
            final(self).inv(),
            final(self).session_manager == old(self).session_manager,
            final(self).config_service == old(self).config_service,
            final(self).hub.ids_used() == old(self).hub.ids_used(),
            old(self).hub@.closed ==> r == Result::<(), BroadcastError>::Err(
                BroadcastError::Closed,
            ) && final(self).hub@ == old(self).hub@,
            !old(self).hub@.closed ==> r is Ok && (exists|m: WebSocketMessage|
                #![auto]
                m.message_type == (if status@ == "online"@ {
                    WebSocketMessageType::UserOnline
                } else {
                    WebSocketMessageType::UserOffline
                }) && m@.data == Some(user_status_payload(user_id, status@, now)) && m.timestamp
                    == now && final(self).hub@ == spec_publish(old(self).hub@, m)),
    {
        let message = make_user_status_envelope(user_id, status, now);
        match self.hub.publish(&message) {
            Ok(_) => Ok(()),
            Err(e) => Err(e),
        }
    }
}

} // verus!
