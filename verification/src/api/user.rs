//! User request and response models.

use vstd::prelude::*;
use crate::response::Pagination;

verus! {

/// The authenticated caller, as the middleware attaches it to a
/// request.
#[derive(Debug, Clone)]
pub struct AuthUser {
    pub user_id: i64,
    pub nickname: String,
}

#[derive(Debug)]
pub struct RegisterRequest {
    pub login_id: String,
    pub nickname: Option<String>,
    pub password: String,
}

#[derive(Debug)]
pub struct LoginRequest {
    pub login_id: String,
    pub password: String,
}

#[derive(Debug)]
pub struct RefreshTokenRequest {
    pub refresh_token: String,
}

#[derive(Debug)]
pub struct CreateTempUserRequest {
    pub nickname: Option<String>,
}

#[derive(Debug)]
pub struct SearchUserByNameRequest {
    pub keyword: String,
    pub pagination: Pagination,
}

#[derive(Debug)]
pub struct SearchUserByIdRequest {
    pub user_id: i64,
}

} // verus!
