//! Request bodies of the extension endpoints, and the check of a
//! registration request.
use vstd::prelude::*;
use vstd::string::StringExecFns;
use crate::server::error::{is_business, AppError};
use crate::text::{chars_of, string_from_chars, trim, trim_chars};

verus! {

/// Body of `POST /api/v1/extensions`.
#[derive(Debug, Clone, PartialEq, Eq)]
pub struct RegisterBody {
    /// Directory of the extension (holding its extension manifest file).
    pub path: String,
}

/// Body of `PATCH /api/v1/extensions/{id}`.
#[derive(Debug, Clone, Copy, PartialEq, Eq, Structural)]
pub struct PatchBody {
    pub enabled: bool,
}

/// The directory a registration request names, without surrounding
/// blanks; a blank path is refused with `400 INVALID_REQUEST`.
pub fn register_path(body: &RegisterBody) -> (r: Result<String, AppError>)
    ensures
        trim(body.path@).len() == 0 <==> r is Err,
        r matches Ok(p) ==> p@ == trim(body.path@),
        r matches Err(e) ==> is_business(e, 400, "INVALID_REQUEST"@, "path 不能为空"@),
{
    let p = chars_of(body.path.as_str());
    let t = trim_chars(&p);
    if t.len() == 0 {
        return Err(AppError::invalid_request(String::from_str("path 不能为空")));
    }
    Ok(string_from_chars(&t))
}

} // verus!
