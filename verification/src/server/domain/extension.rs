//! Extensions: global resources, either built-in (`System`, locked) or
//! registered by the user.
use vstd::prelude::*;
use crate::text::{chars_of, eq_str};

verus! {

/// Where an extension comes from.
#[derive(Debug, Clone, Copy, PartialEq, Eq, Structural)]
pub enum ExtensionType {
    /// Built in: cannot be removed, moved or switched off.
    System,
    /// Registered by the user.
    User,
}

/// Wire name of a type.
pub open spec fn ext_type_name(t: ExtensionType) -> Seq<char> {
    match t {
        ExtensionType::System => "system"@,
        ExtensionType::User => "user"@,
    }
}

impl ExtensionType {
    /// The stored name.
    pub fn as_str(&self) -> (s: &'static str)
        ensures
            s@ == ext_type_name(*self),
    {
        match self {
            ExtensionType::System => "system",
            ExtensionType::User => "user",
        }
    }
}

/// Whether an extension's source is usable, computed on every read.
#[derive(Debug, Clone, Copy, PartialEq, Eq, Structural)]
pub enum ExtensionStatus {
    Ready,
    Missing,
    Invalid,
}

/// Wire name of a status.
pub open spec fn status_name(s: ExtensionStatus) -> Seq<char> {
    match s {
        ExtensionStatus::Ready => "ready"@,
        ExtensionStatus::Missing => "missing"@,
        ExtensionStatus::Invalid => "invalid"@,
    }
}

/// The status a stored name denotes; anything unknown reads as ready.
pub open spec fn status_from_name(s: Seq<char>) -> ExtensionStatus {
    if s == "missing"@ {
        ExtensionStatus::Missing
    } else if s == "invalid"@ {
        ExtensionStatus::Invalid
    } else {
        ExtensionStatus::Ready
    }
}

impl ExtensionStatus {
    /// `missing` and `invalid` by name; anything else is ready.
    pub fn from_str_or_ready(s: &str) -> (r: ExtensionStatus)
        ensures
            r == status_from_name(s@),
    {
        let c = chars_of(s);
        if eq_str(&c, "missing") {
            ExtensionStatus::Missing
        } else if eq_str(&c, "invalid") {
            ExtensionStatus::Invalid
        } else {
            ExtensionStatus::Ready
        }
    }
}

/// Reading back a stored status name gives the status.
pub proof fn lemma_status_name_roundtrip(s: ExtensionStatus)
    ensures
        status_from_name(status_name(s)) == s,
{
    reveal_strlit("ready");
    reveal_strlit("missing");
    reveal_strlit("invalid");
    assert("ready"@.len() != "missing"@.len());
    assert("ready"@.len() != "invalid"@.len());
    assert("missing"@[0] != "invalid"@[0]);
}

/// A registered extension.
#[derive(Debug, Clone, PartialEq, Eq)]
pub struct Extension {
    pub id: String,
    pub name: String,
    pub description: Option<String>,
    pub version: Option<String>,
    pub manifest_version: Option<i64>,
    pub extension_type: ExtensionType,
    pub source_path: String,
    pub enabled: bool,
    pub status: ExtensionStatus,
    pub created_at: i64,
    pub updated_at: i64,
}

impl Extension {
    /// The stored name of the status.
    pub fn status_as_str(&self) -> (s: &'static str)
        ensures
            s@ == status_name(self.status),
    {
        match self.status {
            ExtensionStatus::Ready => "ready",
            ExtensionStatus::Missing => "missing",
            ExtensionStatus::Invalid => "invalid",
        }
    }
}

} // verus!
