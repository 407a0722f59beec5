//! Listening addresses of the API, and the decision of each attempt to bind
//! a port that a previous run may still hold.
use vstd::prelude::*;

verus! {

/// Port of the local API (also used by the CLI and MCP clients).
pub const API_PORT: u16 = 17890;

/// Port of the remote-access listener, reached through the SSH tunnel;
/// every request there needs the Bearer token.
pub const REMOTE_API_PORT: u16 = 17891;

/// The only host either listener binds: the loopback interface (never
/// all interfaces).
pub const LISTEN_HOST: &'static str = "127.0.0.1";

/// The address a listener binds: loopback, on the API port or, for the
/// remote-access listener, on the tunnel's landing port.
pub fn listen_addr(remote: bool) -> (r: (String, u16))
    ensures
        r.0@ == "127.0.0.1"@,
        r.1 == (if remote {
            REMOTE_API_PORT
        } else {
            API_PORT
        }),
{
    (crate::text::str_to_string(LISTEN_HOST), if remote {
        REMOTE_API_PORT
    } else {
        API_PORT
    })
}

/// Attempts to bind a port before giving up (about thirty seconds).
pub const MAX_BIND_ATTEMPTS: usize = 60;

/// Pause between two attempts.
pub const BIND_RETRY_MS: u64 = 500;

/// What follows one attempt to bind.
#[derive(Debug, Clone, Copy, PartialEq, Eq, Structural)]
pub enum BindStep {
    /// The port is bound: serve.
    Listen,
    /// Try again after the pause; `warn` says whether to log this attempt.
    Retry { warn: bool },
    /// Every attempt failed: log an error and do not serve.
    GiveUp,
}

/// The step after attempt `attempt` (counted from 1): serve once bound;
/// otherwise retry until the last attempt, logging the first attempt and
/// every twentieth.
pub fn bind_step(attempt: usize, bound: bool) -> (s: BindStep)
    requires
        1 <= attempt <= MAX_BIND_ATTEMPTS,
    ensures
        bound ==> s == BindStep::Listen,
        !bound && attempt < MAX_BIND_ATTEMPTS ==> s == (BindStep::Retry {
            warn: attempt == 1 || attempt % 20 == 0,
        }),
        !bound && attempt == MAX_BIND_ATTEMPTS ==> s == BindStep::GiveUp,
{
    if bound {
        BindStep::Listen
    } else if attempt < MAX_BIND_ATTEMPTS {
        BindStep::Retry { warn: attempt == 1 || attempt % 20 == 0 }
    } else {
        BindStep::GiveUp
    }
}

} // verus!
