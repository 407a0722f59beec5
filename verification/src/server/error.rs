//! The host service's error model: business errors carry an HTTP status
//! and a machine code; failures of the infrastructure carry their message.
use vstd::prelude::*;
use vstd::string::StringExecFns;
use crate::text::{push_str, str_to_string, string_from_chars};

verus! {

/// A business error with HTTP meaning; callers depend on `code`, not on
/// `message`.
#[derive(Debug, Clone, PartialEq, Eq)]
pub struct BusinessError {
    pub status: u16,
    pub code: String,
    pub message: String,
}

/// Any failure of the service.
#[derive(Debug, Clone, PartialEq, Eq)]
pub enum AppError {
    Business(BusinessError),
    /// Database failure.
    Db(String),
    /// File-system failure.
    Io(String),
    /// HTTP client failure.
    Http(String),
    /// JSON failure.
    Json(String),
    /// Archive failure.
    Zip(String),
    /// Connection-pool failure.
    Pool(String),
}

/// The business error `(status, code, message)`.
pub open spec fn is_business(e: AppError, status: u16, code: Seq<char>, message: Seq<char>) -> bool {
    e matches AppError::Business(b) && b.status == status && b.code@ == code && b.message@
        == message
}

/// Machine code of an error: its own for business errors, else
/// `INTERNAL_ERROR`.
pub open spec fn code_of(e: AppError) -> Seq<char> {
    match e {
        AppError::Business(b) => b.code@,
        _ => "INTERNAL_ERROR"@,
    }
}

/// HTTP status of an error: its own for business errors, else 500.
pub open spec fn status_of(e: AppError) -> u16 {
    match e {
        AppError::Business(b) => b.status,
        _ => 500,
    }
}

/// The description of an error, as its `Display` renders it.
pub open spec fn app_error_text(e: AppError) -> Seq<char> {
    match e {
        AppError::Business(b) => b.message@,
        AppError::Db(m) => "数据库错误: "@ + m@,
        AppError::Io(m) => "IO 错误: "@ + m@,
        AppError::Http(m) => "HTTP 客户端错误: "@ + m@,
        AppError::Json(m) => "JSON 错误: "@ + m@,
        AppError::Zip(m) => "Zip 错误: "@ + m@,
        AppError::Pool(m) => "连接池错误: "@ + m@,
    }
}

impl AppError {
    /// A business error.
    pub fn business(status: u16, code: &str, message: String) -> (e: AppError)
        ensures
            is_business(e, status, code@, message@),
    {
        AppError::Business(BusinessError { status, code: str_to_string(code), message })
    }

    /// `400 INVALID_REQUEST`.
    pub fn invalid_request(message: String) -> (e: AppError)
        ensures
            is_business(e, 400, "INVALID_REQUEST"@, message@),
    {
        Self::business(400, "INVALID_REQUEST", message)
    }

    /// `404` with the caller's code, such as `ENVIRONMENT_NOT_FOUND`.
    pub fn not_found(code: &str, message: String) -> (e: AppError)
        ensures
            is_business(e, 404, code@, message@),
    {
        Self::business(404, code, message)
    }

    /// `409` with the caller's code, such as `INSTANCE_ALREADY_RUNNING`.
    pub fn conflict(code: &str, message: String) -> (e: AppError)
        ensures
            is_business(e, 409, code@, message@),
    {
        Self::business(409, code, message)
    }

    /// `500 INTERNAL_ERROR`.
    pub fn internal(message: String) -> (e: AppError)
        ensures
            is_business(e, 500, "INTERNAL_ERROR"@, message@),
    {
        Self::business(500, "INTERNAL_ERROR", message)
    }

    /// The machine code.
    pub fn code(&self) -> (c: &str)
        ensures
            c@ == code_of(*self),
    {
        match self {
            AppError::Business(b) => b.code.as_str(),
            _ => "INTERNAL_ERROR",
        }
    }

    /// The HTTP status.
    pub fn status(&self) -> (s: u16)
        ensures
            s == status_of(*self),
    {
        match self {
            AppError::Business(b) => b.status,
            _ => 500,
        }
    }

    /// The description of the error.
    pub fn to_text(&self) -> (s: String)
        ensures
            s@ == app_error_text(*self),
    {
        let mut buf: Vec<char> = Vec::new();
        match self {
            AppError::Business(b) => {
                return b.message.clone();
            },
            AppError::Db(m) => {
                push_str(&mut buf, "数据库错误: ");
                push_str(&mut buf, m.as_str());
            },
            AppError::Io(m) => {
                push_str(&mut buf, "IO 错误: ");
                push_str(&mut buf, m.as_str());
            },
            AppError::Http(m) => {
                push_str(&mut buf, "HTTP 客户端错误: ");
                push_str(&mut buf, m.as_str());
            },
            AppError::Json(m) => {
                push_str(&mut buf, "JSON 错误: ");
                push_str(&mut buf, m.as_str());
            },
            AppError::Zip(m) => {
                push_str(&mut buf, "Zip 错误: ");
                push_str(&mut buf, m.as_str());
            },
            AppError::Pool(m) => {
                push_str(&mut buf, "连接池错误: ");
                push_str(&mut buf, m.as_str());
            },
        }
        string_from_chars(&buf)
    }
}

} // verus!
