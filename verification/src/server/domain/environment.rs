//! Environments and their create/update inputs.
use vstd::prelude::*;
use crate::text::{chars_of, string_from_chars, trim, trim_chars};

verus! {

/// An environment.
#[derive(Debug, Clone, PartialEq, Eq)]
pub struct Environment {
    pub id: String,
    pub name: String,
    /// URL of a hosts-format text, if any.
    pub hosts_source_url: Option<String>,
    pub icon: Option<String>,
    /// Extra browser start-up arguments.
    pub startup_args: Option<String>,
    pub keep_alive: bool,
    pub created_at: i64,
    pub updated_at: i64,
}

/// Input of environment creation.
#[derive(Debug, Clone, PartialEq, Eq)]
pub struct CreateEnvironmentInput {
    pub name: String,
    pub hosts_source_url: Option<String>,
    pub icon: Option<String>,
}

/// Partial update: absent fields stay; `Some(None)` clears a field.
#[derive(Debug, Clone, PartialEq, Eq)]
pub struct UpdateEnvironmentInput {
    pub name: Option<String>,
    pub hosts_source_url: Option<Option<String>>,
    pub icon: Option<Option<String>>,
    pub startup_args: Option<Option<String>>,
    pub keep_alive: Option<bool>,
}

impl Default for UpdateEnvironmentInput {
    fn default() -> (r: Self)
        ensures
            r.name is None && r.hosts_source_url is None && r.icon is None && r.startup_args
                is None && r.keep_alive is None,
    {
        UpdateEnvironmentInput {
            name: None,
            hosts_source_url: None,
            icon: None,
            startup_args: None,
            keep_alive: None,
        }
    }
}

/// A submitted nullable string field: `null` clears it, and so does a
/// value that is blank once trimmed; other values are kept trimmed.
pub open spec fn nullable_field(v: Option<Seq<char>>) -> Option<Seq<char>> {
    match v {
        Some(s) => if trim(s).len() == 0 {
            None
        } else {
            Some(trim(s))
        },
        None => None,
    }
}

/// The value a submitted nullable field (`"x"` or `null`) sets: trimmed,
/// with blank meaning cleared.
pub fn nullable_field_value(v: Option<&str>) -> (r: Option<String>)
    ensures
        match r {
            Some(s) => nullable_field(
                match v {
                    Some(x) => Some(x@),
                    None => None,
                },
            ) == Some(s@),
            None => nullable_field(
                match v {
                    Some(x) => Some(x@),
                    None => None,
                },
            ) is None,
        },
{
    match v {
        Some(x) => {
            let c = chars_of(x);
            let t = trim_chars(&c);
            if t.len() == 0 {
                None
            } else {
                Some(string_from_chars(&t))
            }
        },
        None => None,
    }
}

} // verus!
