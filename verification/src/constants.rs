//! Group role and group event-type vocabularies shared by the services.

use vstd::prelude::*;
use crate::strutil::str_eq;

verus! {

/// Whether `role` is one of the three group roles.
pub open spec fn spec_valid_role(role: Seq<char>) -> bool {
    role == "member"@ || role == "admin"@ || role == "owner"@
}

/// All valid group roles, in rank order.
pub fn all_roles() -> (r: Vec<&'static str>)
    ensures
        r@.len() == 3,
        r@[0]@ == "member"@,
        r@[1]@ == "admin"@,
        r@[2]@ == "owner"@,
{
    vec!["member", "admin", "owner"]
}

/// Whether a role string is valid.
pub fn is_valid_role(role: &str) -> (r: bool)
    ensures
        r == spec_valid_role(role@),
{
    str_eq(role, "member") || str_eq(role, "admin") || str_eq(role, "owner")
}

/// Whether `event_type` is one of the group event kinds.
pub open spec fn spec_valid_event_type(event_type: Seq<char>) -> bool {
    ||| event_type == "create"@
    ||| event_type == "join"@
    ||| event_type == "leave"@
    ||| event_type == "update"@
    ||| event_type == "kick"@
    ||| event_type == "transfer"@
}

/// All valid group event types.
pub fn all_event_types() -> (r: Vec<&'static str>)
    ensures
        r@.len() == 6,
        r@[0]@ == "create"@,
        r@[1]@ == "join"@,
        r@[2]@ == "leave"@,
        r@[3]@ == "update"@,
        r@[4]@ == "kick"@,
        r@[5]@ == "transfer"@,
{
    vec!["create", "join", "leave", "update", "kick", "transfer"]
}

/// Whether an event type string is valid.
pub fn is_valid_event_type(event_type: &str) -> (r: bool)
    ensures
        r == spec_valid_event_type(event_type@),
{
    str_eq(event_type, "create") || str_eq(event_type, "join") || str_eq(event_type, "leave")
        || str_eq(event_type, "update") || str_eq(event_type, "kick")
        || str_eq(event_type, "transfer")
}

} // verus!
