//! Validators for group requests.

use vstd::prelude::*;
use vstd::string::{StrSliceExecFns, StringExecFns};
use crate::constants::{is_valid_role, spec_valid_role};
use crate::response::AppError;

verus! {

/// A group description, when given, must not exceed 1000 characters.
pub fn validate_group_creation_request(description: Option<&String>) -> (r: Result<(), AppError>)
    ensures
        r is Ok <==> (match description {
            Some(d) => d@.len() <= 1000,
            None => true,
        }),
        r matches Err(e) ==> e matches AppError::BadRequest(m)
            && m@ == "the group description must not exceed 1000 characters"@,
{
    if let Some(desc) = description {
        if desc.as_str().unicode_len() > 1000 {
            return Err(AppError::BadRequest(String::from_str(
                "the group description must not exceed 1000 characters",
            )));
        }
    }
    Ok(())
}

/// A group name is valid when it is 2 to 50 characters long.
pub fn validate_group_name(name: &str) -> (r: Result<(), AppError>)
    ensures
        r is Ok <==> 2 <= name@.len() <= 50,
        r matches Err(e) ==> e matches AppError::BadRequest(m)
            && m@ == "the group name must be 2-50 characters"@,
{
    if name.unicode_len() < 2 || name.unicode_len() > 50 {
        return Err(AppError::BadRequest(String::from_str(
            "the group name must be 2-50 characters",
        )));
    }
    Ok(())
}

/// A group password, when given, must be 4 to 20 characters long.
pub fn validate_group_password(password: Option<&str>) -> (r: Result<(), AppError>)
    ensures
        r is Ok <==> (match password {
            Some(p) => 4 <= p@.len() <= 20,
            None => true,
        }),
        r matches Err(e) ==> e matches AppError::BadRequest(m)
            && m@ == "the password must be 4-20 characters"@,
{
    if let Some(pwd) = password {
        if pwd.unicode_len() < 4 || pwd.unicode_len() > 20 {
            return Err(AppError::BadRequest(String::from_str(
                "the password must be 4-20 characters",
            )));
        }
    }
    Ok(())
}

/// A group role is valid when it is one of the three role names.
pub fn validate_group_role(role: &str) -> (r: Result<(), AppError>)
    ensures
        r is Ok <==> spec_valid_role(role@),
        r matches Err(e) ==> e matches AppError::BadRequest(m) && m@ == "invalid group role: "@
            + role@,
{
    if !is_valid_role(role) {
        let mut msg = String::from_str("invalid group role: ");
        msg.append(role);
        return Err(AppError::BadRequest(msg));
    }
    Ok(())
}

} // verus!
