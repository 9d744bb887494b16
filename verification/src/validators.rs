//! Input validation for the request models, verified against exact
//! success conditions.

pub mod checkin_validator;
pub mod common_validator;
pub mod group_validator;
pub mod message_validator;
pub mod user_validator;
