//! Presence-and-fanout core for a realtime chat backend: the session
//! registry, the broadcast hub, the retry-backed delivery queue and the
//! per-connection state machine, together with the request validators and
//! shared data models of the surrounding service.

pub mod api;
pub mod config;
pub mod constants;
pub mod envelope;
pub mod hub;
pub mod jwt;
pub mod message_queue;
pub mod response;
pub mod runtime;
pub mod service_models;
pub mod session;
pub mod strutil;
pub mod validators;
pub mod ws_service;
