//! Claims carried by an access token, as the authentication collaborator
//! hands them to the core, and the parsing of an `Authorization` header.
//! Token signing and verification themselves are done outside the core.

use vstd::prelude::*;
use vstd::string::StrSliceExecFns;
use crate::strutil::{char_is_whitespace, is_char_whitespace, spec_starts_with, str_starts_with};

verus! {

/// The claims of a decoded access token.
#[derive(Debug, Clone)]
pub struct TokenClaims {
    /// Subject: the user id the token was issued for.
    pub sub: i64,
    /// Seconds since the epoch at which the token was issued.
    pub iat: usize,
    /// Seconds since the epoch at which the token expires.
    pub exp: usize,
    /// Whether the token belongs to a temporary (anonymous) user.
    pub temp: bool,
}

/// Whether the claims describe a temporary user.
pub fn is_temp_user(claims: &TokenClaims) -> (r: bool)
    ensures
        r == claims.temp,
{
    claims.temp
}

/// `s` without its leading whitespace.
pub open spec fn spec_drop_leading_ws(s: Seq<char>) -> Seq<char>
    decreases s.len(),
{
    if s.len() > 0 && is_char_whitespace(s.first()) {
        spec_drop_leading_ws(s.drop_first())
    } else {
        s
    }
}

/// `s` without its trailing whitespace.
pub open spec fn spec_drop_trailing_ws(s: Seq<char>) -> Seq<char>
    decreases s.len(),
{
    if s.len() > 0 && is_char_whitespace(s.last()) {
        spec_drop_trailing_ws(s.drop_last())
    } else {
        s
    }
}

/// The token carried by an `Authorization` header: the part after the
/// `Bearer ` scheme, stripped of surrounding whitespace; nothing when
/// the scheme is missing or the token is empty.
pub open spec fn spec_bearer_token(header: Seq<char>) -> Option<Seq<char>> {
    if spec_starts_with(header, "Bearer "@) {
        let token = spec_drop_trailing_ws(spec_drop_leading_ws(header.skip(7)));
        if token.len() == 0 {
            None
        } else {
            Some(token)
        }
    } else {
        None
    }
}

/// Read the bearer token out of an `Authorization` header.
pub fn extract_bearer_token(header: &str) -> (r: Option<String>)
    ensures
        r is Some <==> spec_bearer_token(header@) is Some,
        r matches Some(t) ==> spec_bearer_token(header@) == Some(t@),
{
    proof {
        reveal_strlit("Bearer ");
    }
    if !str_starts_with(header, "Bearer ") {
        return None;
    }
    let n = header.unicode_len();
    let mut start: usize = 7;
    while start < n && char_is_whitespace(header.get_char(start))
        invariant
            7 <= start <= n,
            n == header@.len(),
            spec_drop_leading_ws(header@.skip(7)) == spec_drop_leading_ws(header@.skip(
                start as int,
            )),
        decreases n - start,
    {
        proof {
            assert(header@.skip(start as int).drop_first() =~= header@.skip(start as int + 1));
        }
        start += 1;
    }
    proof {
        assert(spec_drop_leading_ws(header@.skip(start as int)) == header@.skip(start as int));
    }
    let mut end: usize = n;
    while end > start && char_is_whitespace(header.get_char(end - 1))
        invariant
            start <= end <= n,
            n == header@.len(),
            start < n ==> !is_char_whitespace(header@[start as int]),
            spec_drop_trailing_ws(header@.skip(start as int)) == spec_drop_trailing_ws(
                header@.subrange(start as int, end as int),
            ),
        decreases end,
    {
        proof {
            assert(header@.subrange(start as int, end as int).drop_last() =~= header@.subrange(
                start as int,
                end as int - 1,
            ));
        }
        end -= 1;
    }
    proof {
        assert(spec_drop_trailing_ws(header@.subrange(start as int, end as int))
            == header@.subrange(start as int, end as int));
    }
    if end == start {
        return None;
    }
    let token = header.substring_char(start, end);
    Some(token.to_owned())
}

} // verus!
