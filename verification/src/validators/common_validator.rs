//! Validators shared by several endpoints.

use vstd::prelude::*;
use vstd::string::{StrSliceExecFns, StringExecFns};
use crate::response::AppError;

verus! {

/// Pagination is valid when the cursor is non-negative and the page size
/// lies in `1..=max_limit`.
pub fn validate_pagination(cursor: i64, limit: i64, max_limit: i64) -> (r: Result<(), AppError>)
    ensures
        r is Ok <==> (cursor >= 0 && 0 < limit <= max_limit),
        r matches Err(e) ==> e is BadRequest,
{
    if cursor < 0 {
        return Err(AppError::BadRequest(String::from_str("the pagination cursor must not be negative")));
    }
    if limit <= 0 || limit > max_limit {
        return Err(AppError::BadRequest(String::from_str("the page size is out of range")));
    }
    Ok(())
}

/// A location name is valid when it is 1 to 100 characters long.
pub fn validate_location_name(location_name: &str) -> (r: Result<(), AppError>)
    ensures
        r is Ok <==> 1 <= location_name@.len() <= 100,
        r matches Err(e) ==> e matches AppError::BadRequest(m)
            && m@ == "the location name must be 1-100 characters"@,
{
    if location_name.unicode_len() == 0 || location_name.unicode_len() > 100 {
        return Err(AppError::BadRequest(String::from_str(
            "the location name must be 1-100 characters",
        )));
    }
    Ok(())
}

/// A string field is valid when its character count lies in `min..=max`.
pub fn validate_string_length(value: &str, name: &str, min: usize, max: usize) -> (r: Result<
    (),
    AppError,
>)
    ensures
        r is Ok <==> min <= value@.len() <= max,
        r matches Err(e) ==> e matches AppError::BadRequest(m)
            && m@ == "length out of range: "@ + name@,
{
    if value.unicode_len() < min || value.unicode_len() > max {
        let mut msg = String::from_str("length out of range: ");
        msg.append(name);
        return Err(AppError::BadRequest(msg));
    }
    Ok(())
}

} // verus!
