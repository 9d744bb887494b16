//! The row and parameter shapes the business services use internally.

use vstd::prelude::*;

verus! {

/// Parameters of a group search by name.
#[derive(Debug)]
pub struct GroupSearchParams {
    pub user_id: i64,
    pub keyword: String,
    pub cursor: Option<i64>,
    pub limit: Option<i64>,
}

/// The outcome of a group membership action.
#[derive(Debug)]
pub struct GroupActionResult {
    pub success: bool,
    pub role: Option<String>,
}

/// A group search request as the group service takes it.
#[derive(Debug, Clone)]
pub struct SearchGroupByNameRequest {
    pub keyword: String,
    pub limit: Option<i64>,
    pub cursor: Option<i64>,
}

/// The row the user service reads to authenticate a caller.
#[derive(Debug)]
pub struct AuthUserRow {
    pub user_id: i64,
    pub nickname: String,
}

/// The row the user service reads to log a caller in.
#[derive(Debug)]
pub struct UserLoginRow {
    pub user_id: i64,
    pub nickname: String,
}

} // verus!
