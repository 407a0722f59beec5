//! The CLI's error model: four kinds of failure, each tied to an exit code
//! in `exit`.
use vstd::prelude::*;
use vstd::string::StringExecFns;
use crate::text::{dec, push_str, push_u64, string_from_chars};

verus! {

/// A failed command.
#[derive(Debug, Clone, PartialEq, Eq)]
pub enum CliError {
    /// The agent API could not be reached (connection refused, time-out).
    Unreachable(String),
    /// The server answered with a business error.
    Api {
        /// HTTP status.
        status: u16,
        /// Machine error code from the server, such as `INSTANCE_NOT_FOUND`.
        code: String,
        /// Server message, passed through unchanged.
        message: String,
    },
    /// The response was not valid JSON or not of the agreed shape.
    Protocol(String),
    /// The request was never sent (local validation failed and the like).
    Local(String),
}

/// The one-line description of an error.
pub open spec fn error_text(e: CliError) -> Seq<char> {
    match e {
        CliError::Unreachable(s) => "无法连接 chrome-host Agent API（"@ + s@
            + "）。请确认 chrome-host 桌面应用已运行。"@,
        CliError::Api { status, code, message } => "["@ + code@ + "] "@ + message@ + "（HTTP "@
            + dec(status as nat) + "）"@,
        CliError::Protocol(s) => "Agent API 响应格式异常（"@ + s@ + "）"@,
        CliError::Local(s) => s@,
    }
}

impl CliError {
    /// The error's description, as its `Display` renders it.
    pub fn to_text(&self) -> (s: String)
        ensures
            s@ == error_text(*self),
    {
        let mut buf: Vec<char> = Vec::new();
        match self {
            CliError::Unreachable(s) => {
                push_str(&mut buf, "无法连接 chrome-host Agent API（");
                push_str(&mut buf, s.as_str());
                push_str(&mut buf, "）。请确认 chrome-host 桌面应用已运行。");
            },
            CliError::Api { status, code, message } => {
                push_str(&mut buf, "[");
                push_str(&mut buf, code.as_str());
                push_str(&mut buf, "] ");
                push_str(&mut buf, message.as_str());
                push_str(&mut buf, "（HTTP ");
                push_u64(&mut buf, *status as u64);
                push_str(&mut buf, "）");
            },
            CliError::Protocol(s) => {
                push_str(&mut buf, "Agent API 响应格式异常（");
                push_str(&mut buf, s.as_str());
                push_str(&mut buf, "）");
            },
            CliError::Local(s) => {
                push_str(&mut buf, s.as_str());
            },
        }
        string_from_chars(&buf)
    }
}

} // verus!
