//! Validators for chat message requests.

use vstd::prelude::*;
use vstd::string::{StrSliceExecFns, StringExecFns};
use crate::response::AppError;
use crate::strutil::{parse_i64, parsed_i64, spec_starts_with, str_eq, str_starts_with};

verus! {

/// When a message body is acceptable for its declared type: text bodies
/// are 1-2000 characters, image bodies are URLs of at most 500 characters
/// that begin with `http`, location bodies are 1-500 characters; no other
/// type is supported.
pub open spec fn spec_message_content_ok(content: Seq<char>, message_type: Seq<char>) -> bool {
    if message_type == "text"@ {
        1 <= content.len() <= 2000
    } else if message_type == "image"@ {
        spec_starts_with(content, "http"@) && content.len() <= 500
    } else if message_type == "location"@ {
        1 <= content.len() <= 500
    } else {
        false
    }
}

/// Validate a message body against its declared type.
pub fn validate_message_content(content: &str, message_type: &str) -> (r: Result<(), AppError>)
    ensures
        r is Ok <==> spec_message_content_ok(content@, message_type@),
        r matches Err(e) ==> e is BadRequest,
{
    if str_eq(message_type, "text") {
        if content.unicode_len() == 0 || content.unicode_len() > 2000 {
            return Err(AppError::BadRequest(String::from_str(
                "a text message must be 1-2000 characters",
            )));
        }
        Ok(())
    } else if str_eq(message_type, "image") {
        if !str_starts_with(content, "http") || content.unicode_len() > 500 {
            return Err(AppError::BadRequest(String::from_str(
                "the image URL is not well formed",
            )));
        }
        Ok(())
    } else if str_eq(message_type, "location") {
        if content.unicode_len() == 0 || content.unicode_len() > 500 {
            return Err(AppError::BadRequest(String::from_str(
                "the location message is not well formed",
            )));
        }
        Ok(())
    } else {
        let mut msg = String::from_str("unsupported message type: ");
        msg.append(message_type);
        Err(AppError::BadRequest(msg))
    }
}

/// A conversation id must be present and non-empty.
pub fn validate_conversation_id(conversation_id: Option<&String>) -> (r: Result<(), AppError>)
    ensures
        r is Ok <==> (conversation_id matches Some(c) && c@.len() > 0),
        r matches Err(e) ==> e matches AppError::BadRequest(m)
            && m@ == "the conversation id must not be empty"@,
{
    match conversation_id {
        Some(c) if !c.as_str().is_empty() => Ok(()),
        _ => Err(AppError::BadRequest(String::from_str(
            "the conversation id must not be empty",
        ))),
    }
}

/// A recipient id is valid when it parses as a decimal 64-bit integer;
/// the parsed value is returned.
pub fn validate_recipient_id(recipient_id: &str) -> (r: Result<i64, AppError>)
    ensures
        r matches Ok(n) ==> parsed_i64(recipient_id@) == Some(n),
        r is Err <==> parsed_i64(recipient_id@) is None,
        r matches Err(e) ==> e matches AppError::BadRequest(m)
            && m@ == "invalid user id format"@,
{
    match parse_i64(recipient_id) {
        Some(n) => Ok(n),
        None => Err(AppError::BadRequest(String::from_str("invalid user id format"))),
    }
}

} // verus!
