//! Browser instances and their life-cycle state.
use vstd::prelude::*;
use crate::text::{chars_of, eq_str};

verus! {

/// Instance life-cycle state.
#[derive(Debug, Clone, Copy, PartialEq, Eq, Structural)]
pub enum InstanceStatus {
    Created,
    Starting,
    Running,
    Stopping,
    Stopped,
    Error,
    Crashed,
}

/// Stored name of a state.
pub open spec fn status_name(s: InstanceStatus) -> Seq<char> {
    match s {
        InstanceStatus::Created => "created"@,
        InstanceStatus::Starting => "starting"@,
        InstanceStatus::Running => "running"@,
        InstanceStatus::Stopping => "stopping"@,
        InstanceStatus::Stopped => "stopped"@,
        InstanceStatus::Error => "error"@,
        InstanceStatus::Crashed => "crashed"@,
    }
}

/// The state a stored name denotes; anything unknown reads as an error.
pub open spec fn status_from_name(v: Seq<char>) -> InstanceStatus {
    if v == "created"@ {
        InstanceStatus::Created
    } else if v == "starting"@ {
        InstanceStatus::Starting
    } else if v == "running"@ {
        InstanceStatus::Running
    } else if v == "stopping"@ {
        InstanceStatus::Stopping
    } else if v == "stopped"@ {
        InstanceStatus::Stopped
    } else if v == "error"@ {
        InstanceStatus::Error
    } else if v == "crashed"@ {
        InstanceStatus::Crashed
    } else {
        InstanceStatus::Error
    }
}

/// A state in which the browser process is (about to be) up.
pub open spec fn is_alive(s: InstanceStatus) -> bool {
    s == InstanceStatus::Running || s == InstanceStatus::Starting
}

impl InstanceStatus {
    /// The stored name.
    pub fn as_str(&self) -> (s: &'static str)
        ensures
            s@ == status_name(*self),
    {
        match self {
            InstanceStatus::Created => "created",
            InstanceStatus::Starting => "starting",
            InstanceStatus::Running => "running",
            InstanceStatus::Stopping => "stopping",
            InstanceStatus::Stopped => "stopped",
            InstanceStatus::Error => "error",
            InstanceStatus::Crashed => "crashed",
        }
    }

    /// The state a stored name denotes (unknown names read as `Error`).
    pub fn from_db(value: &str) -> (s: InstanceStatus)
        ensures
            s == status_from_name(value@),
    {
        let c = chars_of(value);
        if eq_str(&c, "created") {
            InstanceStatus::Created
        } else if eq_str(&c, "starting") {
            InstanceStatus::Starting
        } else if eq_str(&c, "running") {
            InstanceStatus::Running
        } else if eq_str(&c, "stopping") {
            InstanceStatus::Stopping
        } else if eq_str(&c, "stopped") {
            InstanceStatus::Stopped
        } else if eq_str(&c, "error") {
            InstanceStatus::Error
        } else if eq_str(&c, "crashed") {
            InstanceStatus::Crashed
        } else {
            InstanceStatus::Error
        }
    }

    /// Running or starting.
    pub fn is_alive_status(&self) -> (b: bool)
        ensures
            b == is_alive(*self),
    {
        match self {
            InstanceStatus::Running | InstanceStatus::Starting => true,
            _ => false,
        }
    }
}

/// Reading back a stored state name gives the state.
pub proof fn lemma_status_name_roundtrip(s: InstanceStatus)
    ensures
        status_from_name(status_name(s)) == s,
{
    reveal_strlit("created");
    reveal_strlit("starting");
    reveal_strlit("running");
    reveal_strlit("stopping");
    reveal_strlit("stopped");
    reveal_strlit("error");
    reveal_strlit("crashed");
    assert("created"@[0] != "starting"@[0]);
    assert("created"@[0] != "running"@[0]);
    assert("created"@[0] != "stopping"@[0]);
    assert("created"@[0] != "stopped"@[0]);
    assert("created"@[0] != "error"@[0]);
    assert("created"@[2] != "crashed"@[2]);
    assert("starting"@[0] != "running"@[0]);
    assert("starting"@[2] != "stopping"@[2]);
    assert("starting"@.len() != "stopped"@.len());
    assert("starting"@[0] != "error"@[0]);
    assert("starting"@[0] != "crashed"@[0]);
    assert("running"@[0] != "stopping"@[0]);
    assert("running"@[0] != "stopped"@[0]);
    assert("running"@[0] != "error"@[0]);
    assert("running"@[0] != "crashed"@[0]);
    assert("stopping"@.len() != "stopped"@.len());
    assert("stopping"@[0] != "error"@[0]);
    assert("stopping"@[0] != "crashed"@[0]);
    assert("stopped"@[0] != "error"@[0]);
    assert("stopped"@[0] != "crashed"@[0]);
    assert("error"@[0] != "crashed"@[0]);
}

/// A browser instance; the database keeps its configuration and last
/// known state.
#[derive(Debug, Clone, PartialEq, Eq)]
pub struct Instance {
    pub id: String,
    pub environment_id: String,
    pub login_profile_id: Option<String>,
    pub profile_dir: String,
    pub pid: Option<u32>,
    pub cdp_port: Option<u16>,
    pub status: InstanceStatus,
    /// Host rules fixed at start, as JSON.
    pub host_rules: Option<String>,
    pub browser_version: Option<String>,
    pub started_at: Option<i64>,
    pub stopped_at: Option<i64>,
    pub created_at: i64,
    pub updated_at: i64,
}

/// Runtime fields to update; only the given ones change.
#[derive(Debug, Clone, PartialEq, Eq)]
pub struct RuntimeUpdate {
    pub pid: Option<u32>,
    pub status: Option<InstanceStatus>,
    pub started_at: Option<i64>,
    pub stopped_at: Option<i64>,
    pub browser_version: Option<String>,
    /// Host rules snapshot as JSON.
    pub host_rules: Option<String>,
}

impl Default for RuntimeUpdate {
    fn default() -> (r: Self)
        ensures
            r.pid is None && r.status is None && r.started_at is None && r.stopped_at is None
                && r.browser_version is None && r.host_rules is None,
    {
        RuntimeUpdate {
            pid: None,
            status: None,
            started_at: None,
            stopped_at: None,
            browser_version: None,
            host_rules: None,
        }
    }
}

} // verus!
