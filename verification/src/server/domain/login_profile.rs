//! Login profiles: the captured logged-in browser state of an environment.
use vstd::prelude::*;
use crate::text::{chars_of, eq_str};

verus! {

/// Snapshot state (not configured → ready → (capturing) → ready, or error).
/// Whether the login browser runs is derived, not part of this state.
#[derive(Debug, Clone, Copy, PartialEq, Eq, Structural)]
pub enum LoginProfileStatus {
    NotConfigured,
    Ready,
    Capturing,
    Error,
}

/// Stored name of a state.
pub open spec fn status_name(s: LoginProfileStatus) -> Seq<char> {
    match s {
        LoginProfileStatus::NotConfigured => "not_configured"@,
        LoginProfileStatus::Ready => "ready"@,
        LoginProfileStatus::Capturing => "capturing"@,
        LoginProfileStatus::Error => "error"@,
    }
}

/// The state a stored name denotes; anything unknown reads as not
/// configured.
pub open spec fn status_from_name(v: Seq<char>) -> LoginProfileStatus {
    if v == "ready"@ {
        LoginProfileStatus::Ready
    } else if v == "capturing"@ {
        LoginProfileStatus::Capturing
    } else if v == "error"@ {
        LoginProfileStatus::Error
    } else {
        LoginProfileStatus::NotConfigured
    }
}

impl LoginProfileStatus {
    /// The stored name.
    pub fn as_str(&self) -> (s: &'static str)
        ensures
            s@ == status_name(*self),
    {
        match self {
            LoginProfileStatus::NotConfigured => "not_configured",
            LoginProfileStatus::Ready => "ready",
            LoginProfileStatus::Capturing => "capturing",
            LoginProfileStatus::Error => "error",
        }
    }

    /// The state a stored name denotes.
    pub fn from_db(value: &str) -> (s: LoginProfileStatus)
        ensures
            s == status_from_name(value@),
    {
        let c = chars_of(value);
        if eq_str(&c, "ready") {
            LoginProfileStatus::Ready
        } else if eq_str(&c, "capturing") {
            LoginProfileStatus::Capturing
        } else if eq_str(&c, "error") {
            LoginProfileStatus::Error
        } else {
            LoginProfileStatus::NotConfigured
        }
    }
}

/// Reading back a stored state name gives the state.
pub proof fn lemma_status_name_roundtrip(s: LoginProfileStatus)
    ensures
        status_from_name(status_name(s)) == s,
{
    reveal_strlit("not_configured");
    reveal_strlit("ready");
    reveal_strlit("capturing");
    reveal_strlit("error");
    assert("not_configured"@[0] != "ready"@[0]);
    assert("not_configured"@[0] != "capturing"@[0]);
    assert("not_configured"@[0] != "error"@[0]);
    assert("ready"@[0] != "capturing"@[0]);
    assert("ready"@[0] != "error"@[0]);
    assert("capturing"@[0] != "error"@[0]);
}

/// A login profile; its browser's pid is held in memory only.
#[derive(Debug, Clone, PartialEq, Eq)]
pub struct LoginProfile {
    pub id: String,
    pub environment_id: String,
    pub name: String,
    pub profile_dir: String,
    /// 0 means no snapshot yet.
    pub snapshot_version: i64,
    pub status: LoginProfileStatus,
    pub last_captured_at: Option<i64>,
    /// DevTools port held by the login browser.
    pub cdp_port: Option<u16>,
    pub created_at: i64,
    pub updated_at: i64,
}

} // verus!
