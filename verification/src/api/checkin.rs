//! Check-in request and response models.

use vstd::prelude::*;
use crate::response::Pagination;

verus! {

#[derive(Debug)]
pub struct CreateCheckinResponse {
    pub checkin_id: String,
}

#[derive(Debug)]
pub struct DeleteCheckinRequest {
    pub checkin_id: String,
}

#[derive(Debug)]
pub struct DeleteCheckinResponse {
    pub success: bool,
}

#[derive(Debug)]
pub struct SearchCheckInByIdRequest {
    pub checkin_id: String,
}

#[derive(Debug)]
pub struct UserCheckinsHistoryRequest {
    pub user_id: Option<i64>,
    pub pagination: Pagination,
}

#[derive(Debug)]
pub struct LikeCheckinRequest {
    pub checkin_id: String,
}

#[derive(Debug)]
pub struct LikeCheckinResponse {
    pub success: bool,
    pub likes_count: i64,
}

#[derive(Debug)]
pub struct UnlikeCheckinRequest {
    pub checkin_id: String,
}

#[derive(Debug)]
pub struct UnlikeCheckinResponse {
    pub success: bool,
    pub likes_count: i64,
}

} // verus!
