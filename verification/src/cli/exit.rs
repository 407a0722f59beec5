//! The one place where a `CliError` becomes a process exit code.
use vstd::prelude::*;
use vstd::string::StringExecFns;
use crate::cli::error::CliError;
use crate::text::{chars_of, ends_with, ends_with_str, eq_str};

verus! {

/// Process exit code: a byte.  The named codes are a published contract;
/// any other byte is `Other`.
#[allow(non_camel_case_types)]
#[derive(Debug, Clone, Copy, PartialEq, Eq, Structural)]
pub enum ExitCode {
    /// Everything went well (0).
    SUCCESS,
    /// Unclassified failure: broken protocol, unknown 5xx, failed doctor check (1).
    GENERAL,
    /// Bad arguments: parse failure, missing `--yes` off a terminal, local validation (2).
    INVALID_ARGUMENT,
    /// The target resource does not exist (3).
    NOT_FOUND,
    /// The resource already exists; matched by code suffix (4).
    ALREADY_EXISTS,
    /// Runtime state conflict or runtime error (5).
    RUNTIME,
    /// Permission refused, such as a locked built-in extension (6).
    PERMISSION,
    /// Request validation failed (7).
    VALIDATION,
    /// The service could not be reached (8).
    UNAVAILABLE,
    /// A client-side wait ran past its limit (9).
    TIMEOUT,
    /// The remote-access token is missing or wrong (10).
    UNAUTHORIZED,
    /// A code outside the named ones (above 10 in its canonical form).
    Other(u8),
}

/// The number of each exit code.
pub open spec fn code_number(x: ExitCode) -> u8 {
    match x {
        ExitCode::SUCCESS => 0,
        ExitCode::GENERAL => 1,
        ExitCode::INVALID_ARGUMENT => 2,
        ExitCode::NOT_FOUND => 3,
        ExitCode::ALREADY_EXISTS => 4,
        ExitCode::RUNTIME => 5,
        ExitCode::PERMISSION => 6,
        ExitCode::VALIDATION => 7,
        ExitCode::UNAVAILABLE => 8,
        ExitCode::TIMEOUT => 9,
        ExitCode::UNAUTHORIZED => 10,
        ExitCode::Other(n) => n,
    }
}

/// The canonical form: `Other` only for bytes that have no name.
pub open spec fn is_canonical(x: ExitCode) -> bool {
    x matches ExitCode::Other(n) ==> n > 10
}

impl ExitCode {
    /// The numeric code.
    pub fn as_u8(self) -> (n: u8)
        ensures
            n == code_number(self),
    {
        match self {
            ExitCode::SUCCESS => 0,
            ExitCode::GENERAL => 1,
            ExitCode::INVALID_ARGUMENT => 2,
            ExitCode::NOT_FOUND => 3,
            ExitCode::ALREADY_EXISTS => 4,
            ExitCode::RUNTIME => 5,
            ExitCode::PERMISSION => 6,
            ExitCode::VALIDATION => 7,
            ExitCode::UNAVAILABLE => 8,
            ExitCode::TIMEOUT => 9,
            ExitCode::UNAUTHORIZED => 10,
            ExitCode::Other(n) => n,
        }
    }

    /// The exit code of byte `n`, in canonical form.
    pub fn from_u8(n: u8) -> (x: ExitCode)
        ensures
            code_number(x) == n,
            is_canonical(x),
    {
        match n {
            0 => ExitCode::SUCCESS,
            1 => ExitCode::GENERAL,
            2 => ExitCode::INVALID_ARGUMENT,
            3 => ExitCode::NOT_FOUND,
            4 => ExitCode::ALREADY_EXISTS,
            5 => ExitCode::RUNTIME,
            6 => ExitCode::PERMISSION,
            7 => ExitCode::VALIDATION,
            8 => ExitCode::UNAVAILABLE,
            9 => ExitCode::TIMEOUT,
            10 => ExitCode::UNAUTHORIZED,
            _ => ExitCode::Other(n),
        }
    }
}

/// Distinct exit codes in canonical form have distinct numbers.
pub proof fn lemma_code_numbers_distinct(a: ExitCode, b: ExitCode)
    requires
        is_canonical(a),
        is_canonical(b),
    ensures
        code_number(a) == code_number(b) <==> a == b,
{
}

/// Server codes of 5xx responses that count as runtime errors.
pub open spec fn is_runtime_error_code(code: Seq<char>) -> bool {
    ||| code == "KERNEL_NOT_READY"@
    ||| code == "INSTANCE_START_FAILED"@
    ||| code == "CDP_PORT_UNAVAILABLE"@
    ||| code == "CDP_CONNECTION_FAILED"@
    ||| code == "HOSTS_FETCH_FAILED"@
}

/// Exit code of a server error `(status, code)`: the reserved
/// `_ALREADY_EXISTS` suffix first (4xx only), then the status, then the
/// runtime code table for 5xx; anything else is general.
pub open spec fn api_exit_code(status: u16, code: Seq<char>) -> u8 {
    if 400 <= status < 500 {
        if ends_with(code, "_ALREADY_EXISTS"@) {
            4
        } else if status == 401 {
            10
        } else if status == 403 {
            6
        } else if status == 404 {
            3
        } else if status == 409 {
            5
        } else {
            7
        }
    } else if 500 <= status < 600 {
        if is_runtime_error_code(code) {
            5
        } else {
            1
        }
    } else {
        1
    }
}

/// Exit code of each kind of error.
pub open spec fn exit_code_of(e: CliError) -> u8 {
    match e {
        CliError::Unreachable(_) => 8,
        CliError::Protocol(_) => 1,
        CliError::Local(_) => 2,
        CliError::Api { status, code, .. } => api_exit_code(status, code@),
    }
}

fn runtime_error_code(code: &[char]) -> (r: bool)
    ensures
        r == is_runtime_error_code(code@),
{
    eq_str(code, "KERNEL_NOT_READY") || eq_str(code, "INSTANCE_START_FAILED") || eq_str(
        code,
        "CDP_PORT_UNAVAILABLE",
    ) || eq_str(code, "CDP_CONNECTION_FAILED") || eq_str(code, "HOSTS_FETCH_FAILED")
}

/// `(HTTP status, server code)` to exit code.
pub fn from_api(status: u16, code: &str) -> (x: ExitCode)
    ensures
        code_number(x) == api_exit_code(status, code@),
{
    let c = chars_of(code);
    if 400 <= status && status < 500 {
        if ends_with_str(&c, "_ALREADY_EXISTS") {
            return ExitCode::ALREADY_EXISTS;
        }
        return if status == 401 {
            ExitCode::UNAUTHORIZED
        } else if status == 403 {
            ExitCode::PERMISSION
        } else if status == 404 {
            ExitCode::NOT_FOUND
        } else if status == 409 {
            ExitCode::RUNTIME
        } else {
            ExitCode::VALIDATION
        };
    }
    if 500 <= status && status < 600 {
        if runtime_error_code(&c) {
            return ExitCode::RUNTIME;
        }
        return ExitCode::GENERAL;
    }
    ExitCode::GENERAL
}

/// The exit code of a failed command.
pub fn from_cli_error(e: &CliError) -> (x: ExitCode)
    ensures
        code_number(x) == exit_code_of(*e),
{
    match e {
        CliError::Unreachable(_) => ExitCode::UNAVAILABLE,
        CliError::Protocol(_) => ExitCode::GENERAL,
        CliError::Local(_) => ExitCode::INVALID_ARGUMENT,
        CliError::Api { status, code, .. } => from_api(*status, code.as_str()),
    }
}

} // verus!
