//! The service-wide error taxonomy, the response wrapper and the shared
//! pagination models. Turning an error into a transport response happens
//! outside the core; the numeric code of each error is decided here.

use vstd::prelude::*;
use vstd::string::StringExecFns;

verus! {

/// The uniform body of every service response.
#[derive(Debug)]
pub struct ApiResponse<T> {
    /// 0 on success, one of the `AppError` codes on failure.
    pub code: i32,
    pub msg: String,
    pub data: Option<T>,
}

/// The error taxonomy of the service.
#[derive(Debug, PartialEq)]
pub enum AppError {
    NotFound(String),
    BadRequest(String),
    InternalServerError(String),
    Unauthorized(String),
    Forbidden(String),
    Conflict(String),
}

impl AppError {
    /// The numeric code a response carries for this error.
    pub open spec fn spec_code(&self) -> i32 {
        match self {
            AppError::NotFound(_) => 1004,
            AppError::BadRequest(_) => 1000,
            AppError::InternalServerError(_) => 5000,
            AppError::Unauthorized(_) => 1002,
            AppError::Forbidden(_) => 1003,
            AppError::Conflict(_) => 1005,
        }
    }

    /// The message carried by this error.
    pub open spec fn spec_message(&self) -> Seq<char> {
        match self {
            AppError::NotFound(m) => m@,
            AppError::BadRequest(m) => m@,
            AppError::InternalServerError(m) => m@,
            AppError::Unauthorized(m) => m@,
            AppError::Forbidden(m) => m@,
            AppError::Conflict(m) => m@,
        }
    }

    pub fn code(&self) -> (c: i32)
        ensures
            c == self.spec_code(),
    {
        match self {
            AppError::NotFound(_) => 1004,
            AppError::BadRequest(_) => 1000,
            AppError::InternalServerError(_) => 5000,
            AppError::Unauthorized(_) => 1002,
            AppError::Forbidden(_) => 1003,
            AppError::Conflict(_) => 1005,
        }
    }

    pub fn message(&self) -> (m: String)
        ensures
            m@ == self.spec_message(),
    {
        match self {
            AppError::NotFound(m) => m.clone(),
            AppError::BadRequest(m) => m.clone(),
            AppError::InternalServerError(m) => m.clone(),
            AppError::Unauthorized(m) => m.clone(),
            AppError::Forbidden(m) => m.clone(),
            AppError::Conflict(m) => m.clone(),
        }
    }

    /// The body of the uniform response for this error: the error's code,
    /// its message, and no data.
    pub fn into_response_body(self) -> (r: ApiResponse<()>)
        ensures
            r.code == self.spec_code(),
            r.msg@ == self.spec_message(),
            r.data is None,
    {
        let code = self.code();
        let msg = self.message();
        ApiResponse { code, msg, data: None }
    }
}

/// A successful response with the standard message.
pub fn success_response<T>(data: T) -> (r: ApiResponse<T>)
    ensures
        r.code == 0,
        r.msg@ == "success"@,
        r.data == Some(data),
{
    ApiResponse { code: 0, msg: String::from_str("success"), data: Some(data) }
}

/// A successful response with a caller-chosen message.
pub fn success_response_with_msg<T>(data: T, message: &str) -> (r: ApiResponse<T>)
    ensures
        r.code == 0,
        r.msg@ == message@,
        r.data == Some(data),
{
    ApiResponse { code: 0, msg: String::from_str(message), data: Some(data) }
}

/// Cursor pagination parameters common to the list endpoints.
#[derive(Debug, Clone)]
pub struct Pagination {
    /// Records per page; the services default it to 20 and cap it at 50.
    pub limit: Option<i64>,
    /// Cursor from which the next page starts.
    pub cursor: Option<i64>,
}

/// Pagination facts attached to a list response.
#[derive(Debug, Clone)]
pub struct PaginationMeta {
    pub has_more: bool,
    pub next_cursor: Option<i64>,
}

/// A page of items plus its pagination facts.
#[derive(Debug)]
pub struct PaginatedResponse<T> {
    pub items: Vec<T>,
    pub pagination: PaginationMeta,
}

} // verus!
