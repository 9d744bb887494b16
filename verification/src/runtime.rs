//! The per-connection state machine. A connection must authenticate
//! with its very first text frame, then streams: inbound pings are
//! answered, a disconnect request or any transport failure tears the
//! connection down, and every other inbound envelope is relayed
//! verbatim to the hub after refreshing the session's activity. On
//! every exit path the session is removed and a `user_offline`
//! presence envelope is broadcast, so no session is ever leaked. The
//! host performs the socket reads and writes and feeds the events in;
//! every decision is taken here.

use vstd::prelude::*;
use crate::envelope::{
    parse_connect_message, parse_envelope, spec_parsed_envelope, token_field_of, WebSocketMessage,
    WebSocketMessageType,
};
use crate::hub::{
    spec_has_sub, spec_publish, spec_unsubscribed, BroadcastHub, HubView, SubscriberView,
};
use crate::session::{spec_touch, Session, SessionManager};
use crate::ws_service::{make_user_status_envelope, user_status_payload};

verus! {

/// The payload of an error envelope with the given reason.
pub uninterp spec fn error_payload(reason: Seq<char>) -> Seq<char>;

/// Relies on serde_json's value construction and printer: the payload
/// text depends on the reason alone.
#[verifier::external_body]
fn json_error_payload(reason: &str) -> (r: String)
    ensures
        r@ == error_payload(reason@),
{
    let mut map = serde_json::Map::new();
    map.insert("error".to_string(), serde_json::Value::String(reason.to_string()));
    serde_json::Value::Object(map).to_string()
}

/// An error envelope carrying the given reason.
fn make_error_envelope(reason: &str, now: i64) -> (r: WebSocketMessage)
    ensures
        r.message_type == WebSocketMessageType::Error,
        r@.data == Some(error_payload(reason@)),
        r.timestamp == now,
{
    WebSocketMessage {
        message_type: WebSocketMessageType::Error,
        data: Some(json_error_payload(reason)),
        timestamp: now,
    }
}

/// The states of a connection.
#[derive(Debug, Clone, Copy, PartialEq, Eq, Structural)]
pub enum ConnState {
    /// Waiting for the authentication frame.
    Handshaking,
    /// Authentication succeeded; presence is being announced.
    Authenticated,
    /// Relaying envelopes in both directions.
    Streaming,
    /// Tearing the connection down.
    Closing,
    /// Terminal.
    Closed,
}

/// What the transport handed the connection.
#[derive(Debug)]
pub enum InboundFrame {
    /// A text frame.
    Text(String),
    /// A non-text data frame.
    Binary,
    /// A transport-level ping.
    TransportPing,
    /// A transport-level close frame.
    CloseFrame,
    /// A read or write error on the socket.
    TransportError,
}

/// An event observed while streaming.
#[derive(Debug)]
pub enum StreamEvent {
    /// The transport handed a frame.
    Inbound(InboundFrame),
    /// The connection's hub subscription yielded an envelope.
    HubEnvelope(WebSocketMessage),
}

/// What the host must do on the socket.
#[derive(Debug)]
pub enum ConnAction {
    /// Serialize the envelope and write it to this socket.
    SendEnvelope(WebSocketMessage),
    /// Answer a transport-level ping.
    SendTransportPong,
    /// Release the socket.
    CloseSocket,
}

/// The outcome of the authentication frame.
#[derive(Debug)]
pub enum HandshakeStep {
    /// A token was presented; the credential collaborator must verify
    /// it.
    NeedVerify(String),
    /// The frame was not acceptable: write this error envelope and
    /// close.
    Rejected(WebSocketMessage),
    /// The transport ended before authentication; close silently.
    Disconnected,
}

/// The failures of the external credential collaborator.
#[derive(Debug, Clone, Copy, PartialEq, Eq, Structural)]
pub enum AuthError {
    InvalidToken,
    Expired,
}

/// The failure of the external user-directory collaborator.
#[derive(Debug, Clone, Copy, PartialEq, Eq, Structural)]
pub enum LookupError {
    NotFound,
}

/// The outcome of token verification.
#[derive(Debug)]
pub enum VerifyStep {
    /// The token names this principal; the user directory must resolve
    /// it.
    NeedIdentity(i64),
    /// Verification failed: write this error envelope and close.
    Rejected(WebSocketMessage),
}

/// The outcome of identity resolution.
#[derive(Debug)]
pub enum ConnectStep {
    /// The connection is streaming: write this acknowledgement to the
    /// socket.
    Connected(WebSocketMessage),
    /// Resolution failed: write this error envelope and close.
    Rejected(WebSocketMessage),
}

/// One connection's state machine.
#[derive(Debug)]
pub struct ConnectionRuntime {
    pub state: ConnState,
    pub user_id: i64,
    pub nickname: String,
    /// The hub subscription this connection owns while streaming.
    pub sub_id: Option<u64>,
}

impl ConnectionRuntime {
    /// A streaming or closing connection owns a hub subscription.
    pub open spec fn wf(self) -> bool {
        (self.state == ConnState::Streaming || self.state == ConnState::Closing)
            ==> self.sub_id is Some
    }

    /// A fresh connection, waiting for its authentication frame.
    pub fn new() -> (r: ConnectionRuntime)
        ensures
            r.wf(),
            r.state == ConnState::Handshaking,
            r.sub_id is None,
    {
        ConnectionRuntime {
            state: ConnState::Handshaking,
            user_id: 0,
            nickname: String::new(),
            sub_id: None,
        }
    }

    /// Take the connection's very first frame. Only a text frame whose
    /// JSON carries a `token` field is acceptable; it yields the token
    /// for the external credential collaborator. Any other data frame,
    /// and any text that does not parse, is rejected with a single
    /// error envelope and the connection closes. A transport-level end
    /// closes silently.
    pub fn handshake_frame(&mut self, frame: InboundFrame, now: i64) -> (r: HandshakeStep)
        requires
            old(self).state == ConnState::Handshaking,
        ensures
            final(self).wf(),
            final(self).user_id == old(self).user_id,
            final(self).sub_id == old(self).sub_id,
            frame matches InboundFrame::Text(t) ==> (token_field_of(t@) matches Some(tok) ==> (
            r matches HandshakeStep::NeedVerify(s) && s@ == tok && final(self).state
                == ConnState::Handshaking)),
            frame matches InboundFrame::Text(t) ==> (token_field_of(t@) is None ==> (
            r matches HandshakeStep::Rejected(m) && m.message_type == WebSocketMessageType::Error
                && m@.data == Some(error_payload("invalid connect message format"@))
                && m.timestamp == now && final(self).state == ConnState::Closed)),
            frame is Binary || frame is TransportPing ==> (r matches HandshakeStep::Rejected(m)
                && m.message_type == WebSocketMessageType::Error && m@.data == Some(
                error_payload("a text frame with the bearer token is required"@),
            ) && m.timestamp == now && final(self).state == ConnState::Closed),
            frame is CloseFrame || frame is TransportError ==> r is Disconnected && final(self).state == ConnState::Closed,
    {
        match frame {
            InboundFrame::Text(text) => {
                match parse_connect_message(text.as_str()) {
                    Some(connect) => HandshakeStep::NeedVerify(connect.token),
                    None => {
                        self.state = ConnState::Closed;
                        HandshakeStep::Rejected(
                            make_error_envelope("invalid connect message format", now),
                        )
                    },
                }
            },
            InboundFrame::Binary | InboundFrame::TransportPing => {
                self.state = ConnState::Closed;
                HandshakeStep::Rejected(
                    make_error_envelope("a text frame with the bearer token is required", now),
                )
            },
            InboundFrame::CloseFrame | InboundFrame::TransportError => {
                self.state = ConnState::Closed;
                HandshakeStep::Disconnected
            },
        }
    }

    /// Take the credential collaborator's verdict on the presented
    /// token. Success records the principal; failure is rejected with
    /// a single error envelope and the connection closes.
    pub fn handshake_verified(&mut self, outcome: Result<i64, AuthError>, now: i64) -> (r:
        VerifyStep)
        requires
            old(self).state == ConnState::Handshaking,
        ensures
            final(self).wf(),
            final(self).sub_id == old(self).sub_id,
            outcome matches Ok(uid) ==> (r matches VerifyStep::NeedIdentity(u) && u == uid
                && final(self).user_id == uid && final(self).state == ConnState::Handshaking),
            outcome is Err ==> (r matches VerifyStep::Rejected(m) && m.message_type
                == WebSocketMessageType::Error && m@.data == Some(
                error_payload("authentication failed"@),
            ) && m.timestamp == now && final(self).state == ConnState::Closed && final(self).user_id == old(self).user_id),
    {
        match outcome {
            Ok(user_id) => {
                self.user_id = user_id;
                VerifyStep::NeedIdentity(user_id)
            },
            Err(_) => {
                self.state = ConnState::Closed;
                VerifyStep::Rejected(make_error_envelope("authentication failed", now))
            },
        }
    }

    /// Take the user directory's answer for the verified principal. On
    /// success the session is registered, the connection subscribes to
    /// the hub, a `user_online` presence envelope is broadcast
    /// (best-effort), and the acknowledgement to write is handed back:
    /// the connection is then streaming, with its session registered
    /// before any envelope is relayed. Failure is rejected with a
    /// single error envelope and the connection closes.
    pub fn handshake_identity(
        &mut self,
        lookup: Result<String, LookupError>,
        registry: &mut SessionManager,
        hub: &mut BroadcastHub,
        now: i64,
    ) -> (r: ConnectStep)
        requires
            old(self).state == ConnState::Handshaking,
            old(registry).inv(),
            old(hub).inv(),
            old(hub).can_subscribe(),
        ensures
            final(self).wf(),
            final(self).user_id == old(self).user_id,
            final(registry).inv(),
            final(hub).inv(),
            final(hub).ids_used() <= old(hub).ids_used() + 1,
            lookup matches Err(e) ==> (r matches ConnectStep::Rejected(m) && m.message_type
                == WebSocketMessageType::Error && m@.data == Some(
                error_payload("failed to fetch user info"@),
            ) && m.timestamp == now && final(self).state == ConnState::Closed && final(registry)@ == old(registry)@ && final(hub)@ == old(hub)@),
            lookup matches Ok(nick) ==> ({
                &&& final(self).state == ConnState::Streaming
                &&& final(self).nickname == nick
                &&& final(self).sub_id is Some
                &&& final(registry)@ == old(registry)@.insert(
                    old(self).user_id,
                    (Session {
                        user_id: old(self).user_id,
                        nickname: nick,
                        connected_at: now,
                        last_active: now,
                        is_typing: false,
                        current_conversation: None,
                        current_group: None,
                    }),
                )
                &&& final(registry)@.contains_key(old(self).user_id)
                &&& r matches ConnectStep::Connected(ack) && ack.message_type
                    == WebSocketMessageType::Connected && ack@.data is None && ack.timestamp
                    == now
                &&& ({
                    let id = final(self).sub_id->0;
                    let h1 = HubView {
                        subs: old(hub)@.subs.push(
                            SubscriberView { id, pending: Seq::<WebSocketMessage>::empty() },
                        ),
                        ..old(hub)@
                    };
                    &&& !spec_has_sub(old(hub)@, id)
                    &&& (old(hub)@.closed ==> final(hub)@ == h1)
                    &&& (!old(hub)@.closed ==> exists|m: WebSocketMessage|
                        #![auto]
                        m.message_type == WebSocketMessageType::UserOnline && m@.data == Some(
                            user_status_payload(old(self).user_id, "online"@, now),
                        ) && m.timestamp == now && final(hub)@ == spec_publish(h1, m))
                })
            }),
    {
        match lookup {
            Ok(nickname) => {
                self.state = ConnState::Authenticated;
                self.nickname = nickname.clone();
                registry.add_session(self.user_id, nickname, now);
                let id = hub.subscribe();
                self.sub_id = Some(id);
                let online = make_user_status_envelope(self.user_id, "online", now);
                // Presence delivery is best-effort: a refusal is
                // swallowed, never fatal for this connection.
                let _ = hub.publish(&online);
                self.state = ConnState::Streaming;
                ConnectStep::Connected(
                    WebSocketMessage {
                        message_type: WebSocketMessageType::Connected,
                        data: None,
                        timestamp: now,
                    },
                )
            },
            Err(_) => {
                self.state = ConnState::Closed;
                ConnectStep::Rejected(make_error_envelope("failed to fetch user info", now))
            },
        }
    }

    /// Take one streaming event. An inbound `ping` envelope yields
    /// exactly one `pong` and changes nothing else; an inbound
    /// `disconnect` envelope, a transport close frame or a transport
    /// error moves the connection to `Closing`; any other parsed
    /// envelope refreshes the session's activity and is republished
    /// verbatim on the hub (best-effort); unparseable text and non-text
    /// frames are ignored; a transport ping is answered at the
    /// transport level; an envelope delivered by the hub subscription
    /// is handed back to be written to the socket.
    pub fn streaming_event(
        &mut self,
        event: StreamEvent,
        registry: &mut SessionManager,
        hub: &mut BroadcastHub,
        now: i64,
    ) -> (r: Option<ConnAction>)
        requires
            old(self).wf(),
            old(self).state == ConnState::Streaming,
            old(registry).inv(),
            old(hub).inv(),
        ensures
            final(self).wf(),
            final(self).user_id == old(self).user_id,
            final(self).nickname == old(self).nickname,
            final(self).sub_id == old(self).sub_id,
            final(self).state == ConnState::Streaming || final(self).state == ConnState::Closing,
            final(registry).inv(),
            final(hub).inv(),
            final(hub).ids_used() == old(hub).ids_used(),
            event matches StreamEvent::HubEnvelope(m) ==> (r == Some(ConnAction::SendEnvelope(m))
                && final(self).state == ConnState::Streaming && final(registry)@ == old(registry)@ && final(hub)@ == old(hub)@),
            event matches StreamEvent::Inbound(f) ==> match f {
                InboundFrame::TransportPing => r == Some(ConnAction::SendTransportPong) && final(self).state == ConnState::Streaming && final(registry)@ == old(registry)@ && final(hub)@ == old(hub)@,
                InboundFrame::Binary => r is None && final(self).state == ConnState::Streaming
                    && final(registry)@ == old(registry)@ && final(hub)@ == old(hub)@,
                InboundFrame::CloseFrame => r is None && final(self).state == ConnState::Closing
                    && final(registry)@ == old(registry)@ && final(hub)@ == old(hub)@,
                InboundFrame::TransportError => r is None && final(self).state
                    == ConnState::Closing && final(registry)@ == old(registry)@ && final(hub)@
                    == old(hub)@,
                InboundFrame::Text(t) => {
                    let parsed = spec_parsed_envelope(t@);
                    &&& (parsed is None ==> r is None && final(self).state == ConnState::Streaming
                        && final(registry)@ == old(registry)@ && final(hub)@ == old(hub)@)
                    &&& (parsed matches Some(v) ==> {
                        if v.message_type == WebSocketMessageType::Ping {
                            &&& final(self).state == ConnState::Streaming
                            &&& final(registry)@ == old(registry)@
                            &&& final(hub)@ == old(hub)@
                            &&& r matches Some(a) && a matches ConnAction::SendEnvelope(p)
                                && p.message_type == WebSocketMessageType::Pong && p@.data
                                is None && p.timestamp == now
                        } else if v.message_type == WebSocketMessageType::Disconnect {
                            &&& r is None
                            &&& final(self).state == ConnState::Closing
                            &&& final(registry)@ == old(registry)@
                            &&& final(hub)@ == old(hub)@
                        } else {
                            &&& r is None
                            &&& final(self).state == ConnState::Streaming
                            &&& final(registry)@ == spec_touch(
                                old(registry)@,
                                old(self).user_id,
                                now as int,
                            )
                            &&& (old(hub)@.closed ==> final(hub)@ == old(hub)@)
                            &&& (!old(hub)@.closed ==> exists|m: WebSocketMessage|
                                #![auto]
                                m@ == v && final(hub)@ == spec_publish(old(hub)@, m))
                        }
                    })
                },
            },
    {
        match event {
            StreamEvent::HubEnvelope(m) => Some(ConnAction::SendEnvelope(m)),
            StreamEvent::Inbound(frame) => match frame {
                InboundFrame::TransportPing => Some(ConnAction::SendTransportPong),
                InboundFrame::Binary => None,
                InboundFrame::CloseFrame => {
                    self.state = ConnState::Closing;
                    None
                },
                InboundFrame::TransportError => {
                    self.state = ConnState::Closing;
                    None
                },
                InboundFrame::Text(text) => {
                    match parse_envelope(text.as_str()) {
                        None => None,
                        Some(envelope) => {
                            if envelope.message_type == WebSocketMessageType::Ping {
                                Some(
                                    ConnAction::SendEnvelope(
                                        WebSocketMessage {
                                            message_type: WebSocketMessageType::Pong,
                                            data: None,
                                            timestamp: now,
                                        },
                                    ),
                                )
                            } else if envelope.message_type == WebSocketMessageType::Disconnect {
                                self.state = ConnState::Closing;
                                None
                            } else {
                                registry.update_session_activity(self.user_id, now);
                                // Relay failure is logged by the host
                                // and swallowed: it never closes this
                                // connection.
                                let _ = hub.publish(&envelope);
                                None
                            }
                        },
                    }
                },
            },
        }
    }

    /// Tear the connection down. On every exit path, regardless of
    /// what triggered it: the session is removed, a `user_offline`
    /// presence envelope is broadcast (best-effort), the hub
    /// subscription is released, and the host is told to release the
    /// socket.
    pub fn close(
        &mut self,
        registry: &mut SessionManager,
        hub: &mut BroadcastHub,
        now: i64,
    ) -> (r: ConnAction)
        requires
            old(self).wf(),
            old(self).state == ConnState::Streaming || old(self).state == ConnState::Closing,
            old(registry).inv(),
            old(hub).inv(),
        ensures
            final(self).state == ConnState::Closed,
            final(self).user_id == old(self).user_id,
            final(registry).inv(),
            final(hub).inv(),
            final(hub).ids_used() == old(hub).ids_used(),
            r is CloseSocket,
            final(registry)@ == old(registry)@.remove(old(self).user_id),
            !old(registry)@.contains_key(old(self).user_id) || !final(registry)@.contains_key(
                old(self).user_id,
            ),
            ({
                let id = old(self).sub_id->0;
                &&& (old(hub)@.closed ==> final(hub)@ == spec_unsubscribed(old(hub)@, id))
                &&& (!old(hub)@.closed ==> exists|m: WebSocketMessage|
                    #![auto]
                    m.message_type == WebSocketMessageType::UserOffline && m@.data == Some(
                        user_status_payload(old(self).user_id, "offline"@, now),
                    ) && m.timestamp == now && final(hub)@ == spec_unsubscribed(
                        spec_publish(old(hub)@, m),
                        id,
                    ))
            }),
    {
        proof {
            reveal_strlit("online");
            reveal_strlit("offline");
            assert(("online"@).len() == 6);
            assert(("offline"@).len() == 7);
        }
        registry.remove_session(self.user_id);
        let ghost h0 = hub@;
        let offline = make_user_status_envelope(self.user_id, "offline", now);
        let ghost witness = offline;
        // Presence delivery is best-effort: a refusal is swallowed.
        let _ = hub.publish(&offline);
        let ghost h1 = hub@;
        proof {
            if !h0.closed {
                assert(h1 == spec_publish(h0, witness));
            } else {
                assert(h1 == h0);
            }
        }
        match self.sub_id {
            Some(id) => {
                hub.unsubscribe(id);
                proof {
                    assert(hub@ == spec_unsubscribed(h1, id));
                    if !h0.closed {
                        assert(witness.message_type == WebSocketMessageType::UserOffline);
                        assert(witness@.data == Some(
                            user_status_payload(old(self).user_id, "offline"@, now),
                        ));
                        assert(witness.timestamp == now);
                        assert(hub@ == spec_unsubscribed(spec_publish(h0, witness), id));
                    }
                }
            },
            None => {
            },
        }
        self.state = ConnState::Closed;
        ConnAction::CloseSocket
    }
}

} // verus!
