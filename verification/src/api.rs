//! The request and response models of the service's endpoints. The
//! transport encodes and decodes them outside the core.

pub mod checkin;
pub mod group;
pub mod message;
pub mod user;
