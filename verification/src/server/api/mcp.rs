//! The MCP tool view of the API: how a failed service call is reported to
//! the calling agent.
use vstd::prelude::*;
use crate::server::error::{app_error_text, code_of, status_of, AppError};

verus! {

/// Path of the MCP endpoint, on the same port as the REST API.
pub const MCP_PATH: &'static str = "/mcp";

/// `(status, code, message)` of a tool's error result: a business error
/// keeps its own three; any other failure is `500 INTERNAL_ERROR` with its
/// description.
pub fn tool_error_fields(e: &AppError) -> (r: (u16, String, String))
    ensures
        r.0 == status_of(*e),
        r.1@ == code_of(*e),
        r.2@ == app_error_text(*e),
{
    (e.status(), crate::text::str_to_string(e.code()), e.to_text())
}

} // verus!
