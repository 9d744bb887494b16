//! Validators for check-in requests.

use vstd::prelude::*;
use vstd::string::{StrSliceExecFns, StringExecFns};
use crate::response::AppError;
use crate::strutil::{char_is_alphanumeric, char_is_whitespace, is_char_alphanumeric,
    is_char_whitespace};

verus! {

/// A check-in description is valid when it is 1 to 1000 characters long.
pub fn validate_checkin_content(description: &str) -> (r: Result<(), AppError>)
    ensures
        r is Ok <==> 1 <= description@.len() <= 1000,
        r matches Err(e) ==> e matches AppError::BadRequest(m)
            && m@ == "the check-in description must be 1-1000 characters"@,
{
    if description.unicode_len() == 0 || description.unicode_len() > 1000 {
        return Err(AppError::BadRequest(String::from_str(
            "the check-in description must be 1-1000 characters",
        )));
    }
    Ok(())
}

/// The characters a tag may contain: alphanumeric, whitespace, or one of
/// `_`, `-`, `#`.
pub open spec fn spec_tag_char_ok(c: char) -> bool {
    is_char_alphanumeric(c) || is_char_whitespace(c) || c == '_' || c == '-' || c == '#'
}

/// A single tag is valid when it is 1 to 20 characters long and made of
/// permitted characters only.
pub open spec fn spec_tag_ok(t: Seq<char>) -> bool {
    &&& 1 <= t.len() <= 20
    &&& forall|i: int| 0 <= i < t.len() ==> spec_tag_char_ok(t[i])
}

/// A tag list is valid when it holds at most 10 tags, each of them valid.
pub fn validate_checkin_tags(tags: &[String]) -> (r: Result<(), AppError>)
    ensures
        r is Ok <==> (tags@.len() <= 10 && forall|i: int|
            0 <= i < tags@.len() ==> spec_tag_ok(tags@[i]@)),
        r matches Err(e) ==> e is BadRequest,
{
    if tags.len() > 10 {
        return Err(AppError::BadRequest(String::from_str("at most 10 tags are allowed")));
    }
    let mut i: usize = 0;
    while i < tags.len()
        invariant
            i <= tags@.len(),
            tags@.len() <= 10,
            forall|k: int| 0 <= k < i ==> spec_tag_ok(tags@[k]@),
        decreases tags@.len() - i,
    {
        let tag = &tags[i];
        if tag.as_str().unicode_len() == 0 || tag.as_str().unicode_len() > 20 {
            return Err(AppError::BadRequest(String::from_str(
                "each tag must be 1-20 characters",
            )));
        }
        let n = tag.as_str().unicode_len();
        let mut j: usize = 0;
        while j < n
            invariant
                i < tags@.len(),
                tag@ == tags@[i as int]@,
                n == tag@.len(),
                j <= n,
                forall|k: int| 0 <= k < j ==> spec_tag_char_ok(tag@[k]),
            decreases n - j,
        {
            let c = tag.as_str().get_char(j);
            if !(char_is_alphanumeric(c) || char_is_whitespace(c) || c == '_' || c == '-' || c
                == '#') {
                proof {
                    assert(!spec_tag_char_ok(tags@[i as int]@[j as int]));
                    assert(!spec_tag_ok(tags@[i as int]@));
                }
                return Err(AppError::BadRequest(String::from_str(
                    "tags may contain only letters, digits, spaces and the _-# signs",
                )));
            }
            j += 1;
        }
        i += 1;
    }
    Ok(())
}

} // verus!
