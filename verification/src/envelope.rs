//! The wire envelope: a typed message with an opaque payload and a
//! timestamp. The core never inspects the payload; it is carried as the
//! raw JSON text of the `data` field. Turning envelope fields into wire
//! text and back is delegated to serde_json and chrono behind trusted
//! wrappers; the mapping between type names and the enum is verified
//! here.

use vstd::prelude::*;
use crate::strutil::str_eq;

verus! {

/// The kinds of message an envelope can carry.
#[derive(Debug, Clone, Copy, PartialEq, Eq, Structural)]
pub enum WebSocketMessageType {
    Ping,
    Pong,
    Connect,
    Connected,
    Error,
    Disconnect,
    DirectMessage,
    GroupMessage,
    UserOnline,
    UserOffline,
    UserTyping,
    ReadReceipt,
    GroupJoined,
    GroupLeft,
    NewCheckin,
}

/// The wire name of each message type.
pub open spec fn spec_message_type_name(t: WebSocketMessageType) -> Seq<char> {
    match t {
        WebSocketMessageType::Ping => "ping"@,
        WebSocketMessageType::Pong => "pong"@,
        WebSocketMessageType::Connect => "connect"@,
        WebSocketMessageType::Connected => "connected"@,
        WebSocketMessageType::Error => "error"@,
        WebSocketMessageType::Disconnect => "disconnect"@,
        WebSocketMessageType::DirectMessage => "direct_message"@,
        WebSocketMessageType::GroupMessage => "group_message"@,
        WebSocketMessageType::UserOnline => "user_online"@,
        WebSocketMessageType::UserOffline => "user_offline"@,
        WebSocketMessageType::UserTyping => "user_typing"@,
        WebSocketMessageType::ReadReceipt => "read_receipt"@,
        WebSocketMessageType::GroupJoined => "group_joined"@,
        WebSocketMessageType::GroupLeft => "group_left"@,
        WebSocketMessageType::NewCheckin => "new_checkin"@,
    }
}

/// The message type a wire name denotes, if any.
pub open spec fn spec_message_type_of(s: Seq<char>) -> Option<WebSocketMessageType> {
    if s == "ping"@ {
        Some(WebSocketMessageType::Ping)
    } else if s == "pong"@ {
        Some(WebSocketMessageType::Pong)
    } else if s == "connect"@ {
        Some(WebSocketMessageType::Connect)
    } else if s == "connected"@ {
        Some(WebSocketMessageType::Connected)
    } else if s == "error"@ {
        Some(WebSocketMessageType::Error)
    } else if s == "disconnect"@ {
        Some(WebSocketMessageType::Disconnect)
    } else if s == "direct_message"@ {
        Some(WebSocketMessageType::DirectMessage)
    } else if s == "group_message"@ {
        Some(WebSocketMessageType::GroupMessage)
    } else if s == "user_online"@ {
        Some(WebSocketMessageType::UserOnline)
    } else if s == "user_offline"@ {
        Some(WebSocketMessageType::UserOffline)
    } else if s == "user_typing"@ {
        Some(WebSocketMessageType::UserTyping)
    } else if s == "read_receipt"@ {
        Some(WebSocketMessageType::ReadReceipt)
    } else if s == "group_joined"@ {
        Some(WebSocketMessageType::GroupJoined)
    } else if s == "group_left"@ {
        Some(WebSocketMessageType::GroupLeft)
    } else if s == "new_checkin"@ {
        Some(WebSocketMessageType::NewCheckin)
    } else {
        None
    }
}

/// The wire name of a message type.
pub fn message_type_to_str(t: WebSocketMessageType) -> (r: &'static str)
    ensures
        r@ == spec_message_type_name(t),
{
    match t {
        WebSocketMessageType::Ping => "ping",
        WebSocketMessageType::Pong => "pong",
        WebSocketMessageType::Connect => "connect",
        WebSocketMessageType::Connected => "connected",
        WebSocketMessageType::Error => "error",
        WebSocketMessageType::Disconnect => "disconnect",
        WebSocketMessageType::DirectMessage => "direct_message",
        WebSocketMessageType::GroupMessage => "group_message",
        WebSocketMessageType::UserOnline => "user_online",
        WebSocketMessageType::UserOffline => "user_offline",
        WebSocketMessageType::UserTyping => "user_typing",
        WebSocketMessageType::ReadReceipt => "read_receipt",
        WebSocketMessageType::GroupJoined => "group_joined",
        WebSocketMessageType::GroupLeft => "group_left",
        WebSocketMessageType::NewCheckin => "new_checkin",
    }
}

/// The message type a wire name denotes, if any.
pub fn message_type_from_str(s: &str) -> (r: Option<WebSocketMessageType>)
    ensures
        r == spec_message_type_of(s@),
{
    if str_eq(s, "ping") {
        Some(WebSocketMessageType::Ping)
    } else if str_eq(s, "pong") {
        Some(WebSocketMessageType::Pong)
    } else if str_eq(s, "connect") {
        Some(WebSocketMessageType::Connect)
    } else if str_eq(s, "connected") {
        Some(WebSocketMessageType::Connected)
    } else if str_eq(s, "error") {
        Some(WebSocketMessageType::Error)
    } else if str_eq(s, "disconnect") {
        Some(WebSocketMessageType::Disconnect)
    } else if str_eq(s, "direct_message") {
        Some(WebSocketMessageType::DirectMessage)
    } else if str_eq(s, "group_message") {
        Some(WebSocketMessageType::GroupMessage)
    } else if str_eq(s, "user_online") {
        Some(WebSocketMessageType::UserOnline)
    } else if str_eq(s, "user_offline") {
        Some(WebSocketMessageType::UserOffline)
    } else if str_eq(s, "user_typing") {
        Some(WebSocketMessageType::UserTyping)
    } else if str_eq(s, "read_receipt") {
        Some(WebSocketMessageType::ReadReceipt)
    } else if str_eq(s, "group_joined") {
        Some(WebSocketMessageType::GroupJoined)
    } else if str_eq(s, "group_left") {
        Some(WebSocketMessageType::GroupLeft)
    } else if str_eq(s, "new_checkin") {
        Some(WebSocketMessageType::NewCheckin)
    } else {
        None
    }
}

/// An envelope: an immutable value cloned per subscriber on fan-out. The
/// payload, when present, is the raw JSON text of the wire `data` field
/// and is never inspected by the core. The timestamp counts milliseconds
/// since the epoch.
#[derive(Debug, Clone, PartialEq)]
pub struct WebSocketMessage {
    pub message_type: WebSocketMessageType,
    pub data: Option<String>,
    pub timestamp: i64,
}

/// The mathematical value of an envelope.
pub ghost struct WebSocketMessageView {
    pub message_type: WebSocketMessageType,
    pub data: Option<Seq<char>>,
    pub timestamp: int,
}

impl View for WebSocketMessage {
    type V = WebSocketMessageView;

    open spec fn view(&self) -> WebSocketMessageView {
        WebSocketMessageView {
            message_type: self.message_type,
            data: match self.data {
                Some(d) => Some(d@),
                None => None,
            },
            timestamp: self.timestamp as int,
        }
    }
}

impl WebSocketMessage {
    /// An exact copy, as handed to each subscriber on fan-out.
    pub fn duplicate(&self) -> (r: WebSocketMessage)
        ensures
            r == *self,
    {
        WebSocketMessage {
            message_type: self.message_type,
            data: match &self.data {
                Some(d) => Some(d.clone()),
                None => None,
            },
            timestamp: self.timestamp,
        }
    }

    /// An envelope without payload.
    pub fn bare(message_type: WebSocketMessageType, timestamp: i64) -> (r: WebSocketMessage)
        ensures
            r.message_type == message_type,
            r.data is None,
            r.timestamp == timestamp,
    {
        WebSocketMessage { message_type, data: None, timestamp }
    }
}

/// The first frame a connection must send: a bearer token.
#[derive(Debug, Clone)]
pub struct WebSocketConnectMessage {
    pub token: String,
}

/// The `token` field of a handshake text, if the text is a JSON object
/// that carries one.
pub uninterp spec fn token_field_of(s: Seq<char>) -> Option<Seq<char>>;

/// Relies on serde_json::from_str and serde_json::Value::{get, as_str}:
/// the `token` field read from a JSON text depends on the text alone.
#[verifier::external_body]
fn json_token_field(text: &str) -> (r: Option<String>)
    ensures
        r is Some <==> token_field_of(text@) is Some,
        r matches Some(t) ==> token_field_of(text@) matches Some(v) && t@ == v,
{
    let value: serde_json::Value = serde_json::from_str(text).ok()?;
    let token = value.get("token")?.as_str()?;
    Some(token.to_string())
}

/// Parse the handshake frame `{"token": ...}`.
pub fn parse_connect_message(text: &str) -> (r: Option<WebSocketConnectMessage>)
    ensures
        r is Some <==> token_field_of(text@) is Some,
        r matches Some(m) ==> token_field_of(text@) matches Some(v) && m.token@ == v,
{
    match json_token_field(text) {
        Some(token) => Some(WebSocketConnectMessage { token }),
        None => None,
    }
}

/// The three wire fields of an envelope text, if the text is a JSON
/// object that carries them: the type name, the raw payload text, and
/// the timestamp in milliseconds.
pub uninterp spec fn wire_fields_of(s: Seq<char>) -> Option<(Seq<char>, Option<Seq<char>>, i64)>;

/// Relies on serde_json::from_str, serde_json::Value::{get, as_str,
/// is_null} and chrono's RFC 3339 parser: the wire fields read from an
/// envelope text depend on the text alone.
#[verifier::external_body]
fn json_envelope_fields(text: &str) -> (r: Option<(String, Option<String>, i64)>)
    ensures
        r is Some <==> wire_fields_of(text@) is Some,
        r matches Some(f) ==> wire_fields_of(text@) matches Some(w) && f.0@ == w.0 && (match (
            f.1,
            w.1,
        ) {
            (Some(d), Some(v)) => d@ == v,
            (None, None) => true,
            _ => false,
        }) && f.2 == w.2,
{
    let value: serde_json::Value = serde_json::from_str(text).ok()?;
    let message_type = value.get("message_type")?.as_str()?.to_string();
    let ts_text = value.get("timestamp")?.as_str()?;
    let timestamp = chrono::DateTime::parse_from_rfc3339(ts_text).ok()?.timestamp_millis();
    let data = match value.get("data") {
        None => None,
        Some(v) if v.is_null() => None,
        Some(v) => Some(v.to_string()),
    };
    Some((message_type, data, timestamp))
}

/// The envelope an inbound text frame denotes, if any: the wire fields
/// must parse and the type name must be known.
pub open spec fn spec_parsed_envelope(s: Seq<char>) -> Option<WebSocketMessageView> {
    match wire_fields_of(s) {
        Some(w) => match spec_message_type_of(w.0) {
            Some(t) => Some(
                WebSocketMessageView { message_type: t, data: w.1, timestamp: w.2 as int },
            ),
            None => None,
        },
        None => None,
    }
}

/// Parse an inbound text frame into an envelope.
pub fn parse_envelope(text: &str) -> (r: Option<WebSocketMessage>)
    ensures
        r is Some <==> spec_parsed_envelope(text@) is Some,
        r matches Some(m) ==> spec_parsed_envelope(text@) == Some(m@),
{
    match json_envelope_fields(text) {
        Some((name, data, timestamp)) => match message_type_from_str(name.as_str()) {
            Some(message_type) => Some(WebSocketMessage { message_type, data, timestamp }),
            None => None,
        },
        None => None,
    }
}

/// The wire text of an envelope with the given type name, raw payload
/// and timestamp.
pub uninterp spec fn wire_text_of(name: Seq<char>, data: Option<Seq<char>>, timestamp: i64) -> Seq<
    char,
>;

/// Relies on serde_json's value construction and printer and on chrono's
/// RFC 3339 formatter: the text depends on the three fields alone.
#[verifier::external_body]
fn json_envelope_text(message_type: &str, data: &Option<String>, timestamp: i64) -> (r: String)
    ensures
        r@ == wire_text_of(
            message_type@,
            (match data {
                Some(d) => Some(d@),
                None => None,
            }),
            timestamp,
        ),
{
    let mut map = serde_json::Map::new();
    let mt = serde_json::Value::String(message_type.to_string());
    map.insert("message_type".to_string(), mt);
    let data_value = match data {
        Some(d) => serde_json::from_str(d).unwrap_or(serde_json::Value::Null),
        None => serde_json::Value::Null,
    };
    map.insert("data".to_string(), data_value);
    let ts_text = match chrono::DateTime::<chrono::Utc>::from_timestamp_millis(timestamp) {
        Some(t) => t.to_rfc3339(),
        None => String::new(),
    };
    map.insert("timestamp".to_string(), serde_json::Value::String(ts_text));
    serde_json::Value::Object(map).to_string()
}

/// Serialize an envelope to its wire text.
pub fn serialize_envelope(m: &WebSocketMessage) -> (r: String)
    ensures
        r@ == wire_text_of(spec_message_type_name(m.message_type), m@.data, m.timestamp),
{
    let name = message_type_to_str(m.message_type);
    json_envelope_text(name, &m.data, m.timestamp)
}

/// A chat payload used by the business services.
#[derive(Debug, Clone)]
pub struct ChatPayload {
    pub sender_id: i64,
    pub content: String,
    pub timestamp: i64,
}

/// A typing notification payload.
#[derive(Debug, Clone)]
pub struct UserTypingEvent {
    pub user_id: i64,
    /// A conversation id or a group id.
    pub target_id: String,
    /// Either `conversation` or `group`.
    pub target_type: String,
}

/// The kinds of group lifecycle event.
#[derive(Debug, Clone, Copy, PartialEq, Eq, Structural)]
pub enum GroupEventType {
    Create,
    Join,
    Leave,
    Update,
    Kick,
    Transfer,
}

/// The wire name of each group event type.
pub open spec fn spec_group_event_name(t: GroupEventType) -> Seq<char> {
    match t {
        GroupEventType::Create => "create"@,
        GroupEventType::Join => "join"@,
        GroupEventType::Leave => "leave"@,
        GroupEventType::Update => "update"@,
        GroupEventType::Kick => "kick"@,
        GroupEventType::Transfer => "transfer"@,
    }
}

/// The group event type a wire name denotes; unknown names default to
/// `Create`.
pub open spec fn spec_group_event_of(s: Seq<char>) -> GroupEventType {
    if s == "join"@ {
        GroupEventType::Join
    } else if s == "leave"@ {
        GroupEventType::Leave
    } else if s == "update"@ {
        GroupEventType::Update
    } else if s == "kick"@ {
        GroupEventType::Kick
    } else if s == "transfer"@ {
        GroupEventType::Transfer
    } else {
        GroupEventType::Create
    }
}

impl GroupEventType {
    /// The wire name of this event type.
    pub fn as_str(&self) -> (r: &'static str)
        ensures
            r@ == spec_group_event_name(*self),
    {
        match self {
            GroupEventType::Create => "create",
            GroupEventType::Join => "join",
            GroupEventType::Leave => "leave",
            GroupEventType::Update => "update",
            GroupEventType::Kick => "kick",
            GroupEventType::Transfer => "transfer",
        }
    }

}

impl From<&str> for GroupEventType {
    /// The event type a wire name denotes; unknown names default to
    /// `Create`.
    fn from(s: &str) -> (r: GroupEventType) {
        if str_eq(s, "join") {
            GroupEventType::Join
        } else if str_eq(s, "leave") {
            GroupEventType::Leave
        } else if str_eq(s, "update") {
            GroupEventType::Update
        } else if str_eq(s, "kick") {
            GroupEventType::Kick
        } else if str_eq(s, "transfer") {
            GroupEventType::Transfer
        } else {
            GroupEventType::Create
        }
    }
}

impl vstd::std_specs::convert::FromSpecImpl<&str> for GroupEventType {
    open spec fn obeys_from_spec() -> bool {
        true
    }

    open spec fn from_spec(s: &str) -> GroupEventType {
        spec_group_event_of(s@)
    }
}

} // verus!
