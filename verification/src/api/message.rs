//! Chat message request and response models.

use vstd::prelude::*;
use crate::response::Pagination;

verus! {

#[derive(Debug)]
pub struct GroupMessageHistoryRequest {
    pub group_id: String,
    pub pagination: Pagination,
}

#[derive(Debug)]
pub struct DeleteGroupMessageRequest {
    pub message_id: String,
}

#[derive(Debug)]
pub struct DirectMessageHistoryRequest {
    pub conversation_id: Option<String>,
    pub user_id: Option<i64>,
    pub pagination: Pagination,
}

#[derive(Debug)]
pub struct DeleteDirectMessageRequest {
    pub message_id: String,
}

/// Mark messages of a conversation as read; when `message_id` is given,
/// only that message and the ones before it are marked.
#[derive(Debug)]
pub struct MarkReadRequest {
    pub conversation_id: String,
    pub message_id: Option<String>,
}

#[derive(Debug)]
pub struct MarkReadResponse {
    pub success: bool,
    pub marked_count: Option<i64>,
}

#[derive(Debug)]
pub struct DeleteMessageResponse {
    pub success: bool,
}

#[derive(Debug)]
pub struct ConversationsRequest {
    pub pagination: Pagination,
}

} // verus!
