//! Validators for user requests.

use vstd::prelude::*;
use vstd::string::{StrSliceExecFns, StringExecFns};
use crate::response::AppError;
use crate::strutil::{char_is_alphanumeric, is_char_alphanumeric, str_eq};

verus! {

/// The characters a login id may contain: alphanumeric or one of `_`,
/// `-`, `.`.
pub open spec fn spec_login_char_ok(c: char) -> bool {
    is_char_alphanumeric(c) || c == '_' || c == '-' || c == '.'
}

/// A login id is valid when it is 1 to 50 characters long and made of
/// permitted characters only.
pub open spec fn spec_login_id_ok(s: Seq<char>) -> bool {
    &&& 1 <= s.len() <= 50
    &&& forall|i: int| 0 <= i < s.len() ==> spec_login_char_ok(s[i])
}

/// A registration is valid when the login id is well formed, the
/// password, if given, is 6 to 20 characters long, and the nickname, if
/// given, is 1 to 50 characters long.
pub fn validate_user_registration(login_id: &str, password: Option<&str>, nickname: Option<
    &str,
>) -> (r: Result<(), AppError>)
    ensures
        r is Ok <==> ({
            &&& spec_login_id_ok(login_id@)
            &&& (match password {
                Some(p) => 6 <= p@.len() <= 20,
                None => true,
            })
            &&& (match nickname {
                Some(n) => 1 <= n@.len() <= 50,
                None => true,
            })
        }),
        r matches Err(e) ==> e is BadRequest,
{
    if login_id.unicode_len() == 0 || login_id.unicode_len() > 50 {
        return Err(AppError::BadRequest(String::from_str(
            "the login id must be 1-50 characters",
        )));
    }
    let n = login_id.unicode_len();
    let mut i: usize = 0;
    while i < n
        invariant
            n == login_id@.len(),
            i <= n,
            forall|k: int| 0 <= k < i ==> spec_login_char_ok(login_id@[k]),
        decreases n - i,
    {
        let c = login_id.get_char(i);
        if !(char_is_alphanumeric(c) || c == '_' || c == '-' || c == '.') {
            return Err(AppError::BadRequest(String::from_str(
                "the login id may contain only letters, digits and the _-. signs",
            )));
        }
        i += 1;
    }
    if let Some(pwd) = password {
        if pwd.unicode_len() < 6 || pwd.unicode_len() > 20 {
            return Err(AppError::BadRequest(String::from_str(
                "the password must be 6-20 characters",
            )));
        }
    }
    if let Some(name) = nickname {
        if name.unicode_len() == 0 || name.unicode_len() > 50 {
            return Err(AppError::BadRequest(String::from_str(
                "the nickname must be 1-50 characters",
            )));
        }
    }
    Ok(())
}

/// A nickname is valid when it is 1 to 50 characters long.
pub fn validate_nickname(nickname: &str) -> (r: Result<(), AppError>)
    ensures
        r is Ok <==> 1 <= nickname@.len() <= 50,
        r matches Err(e) ==> e matches AppError::BadRequest(m)
            && m@ == "the nickname must be 1-50 characters"@,
{
    if nickname.unicode_len() == 0 || nickname.unicode_len() > 50 {
        return Err(AppError::BadRequest(String::from_str(
            "the nickname must be 1-50 characters",
        )));
    }
    Ok(())
}

/// The set of valid presence states.
pub open spec fn spec_valid_online_status(s: Seq<char>) -> bool {
    s == "online"@ || s == "offline"@ || s == "away"@ || s == "busy"@
}

/// An online status is valid when it is one of the four presence states.
pub fn validate_online_status(status: &str) -> (r: Result<(), AppError>)
    ensures
        r is Ok <==> spec_valid_online_status(status@),
        r matches Err(e) ==> e matches AppError::BadRequest(m) && m@ == "invalid online status: "@
            + status@,
{
    if str_eq(status, "online") || str_eq(status, "offline") || str_eq(status, "away") || str_eq(
        status,
        "busy",
    ) {
        Ok(())
    } else {
        let mut msg = String::from_str("invalid online status: ");
        msg.append(status);
        Err(AppError::BadRequest(msg))
    }
}

} // verus!
