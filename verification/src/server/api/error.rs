//! The shape of an error response: its HTTP status and the fields of its
//! `{"error":{"code","message"}}` body.
use vstd::prelude::*;
use crate::server::error::{app_error_text, code_of, status_of, AppError};

verus! {

/// The status of an error response: the error's own status when it is a
/// valid HTTP status code (three digits, 100 to 999), else 500.
pub open spec fn response_status_of(e: AppError) -> u16 {
    if 100 <= status_of(e) <= 999 {
        status_of(e)
    } else {
        500
    }
}

/// The HTTP status an error is answered with.
pub fn response_status(e: &AppError) -> (s: u16)
    ensures
        s == response_status_of(*e),
{
    let s = e.status();
    if 100 <= s && s <= 999 {
        s
    } else {
        500
    }
}

/// `(code, message)` of the error response body: the machine code, and
/// the error's description.
pub fn response_body_fields(e: &AppError) -> (r: (String, String))
    ensures
        r.0@ == code_of(*e),
        r.1@ == app_error_text(*e),
{
    (crate::text::str_to_string(e.code()), e.to_text())
}

} // verus!
