//! Group request and response models.

use vstd::prelude::*;

verus! {

#[derive(Debug)]
pub struct JoinGroupResponse {
    pub success: bool,
    pub role: String,
}

#[derive(Debug)]
pub struct LeaveGroupResponse {
    pub success: bool,
}

#[derive(Debug)]
pub struct KickMemberResponse {
    pub success: bool,
}

#[derive(Debug)]
pub struct UpdateGroupResponse {
    pub success: bool,
}

#[derive(Debug)]
pub struct SearchGroupByNameRequest {
    pub keyword: String,
    pub cursor: Option<i64>,
    pub limit: Option<i64>,
}

#[derive(Debug)]
pub struct TransferOwnershipResponse {
    pub success: bool,
}

} // verus!
