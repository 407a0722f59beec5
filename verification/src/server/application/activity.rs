//! The activity log's own rules: what an event holds, how many are kept,
//! how many a query may return, and which environment an event belongs to.
use vstd::prelude::*;

verus! {

/// Rows kept by the start-up clean-up; older events are dropped.
pub const MAX_EVENTS: i64 = 5000;

/// Fewest events a query returns.
pub const MIN_QUERY_LIMIT: i64 = 1;

/// Most events a query returns.
pub const MAX_QUERY_LIMIT: i64 = 200;

/// A recorded event.
#[derive(Debug, Clone, PartialEq, Eq)]
pub struct AppEvent {
    /// Epoch milliseconds.
    pub ts: i64,
    pub level: String,
    pub event: String,
    pub environment_id: Option<String>,
    pub target_id: Option<String>,
    pub message: String,
}

/// `limit` brought into `1..=200`.
pub open spec fn clamped(limit: i64) -> i64 {
    if limit < MIN_QUERY_LIMIT {
        MIN_QUERY_LIMIT
    } else if limit > MAX_QUERY_LIMIT {
        MAX_QUERY_LIMIT
    } else {
        limit
    }
}

/// The number of events a query with `limit` asks the database for.
pub fn query_limit(limit: i64) -> (n: i64)
    ensures
        n == clamped(limit),
        MIN_QUERY_LIMIT <= n <= MAX_QUERY_LIMIT,
{
    if limit < MIN_QUERY_LIMIT {
        MIN_QUERY_LIMIT
    } else if limit > MAX_QUERY_LIMIT {
        MAX_QUERY_LIMIT
    } else {
        limit
    }
}

/// The environment an event is filed under: the one given, else the
/// environment of its target instance as looked up (`looked_up`, `None`
/// when there is no target or it is unknown).
pub fn event_environment(given: Option<&str>, looked_up: Option<String>) -> (r: Option<String>)
    ensures
        (match given {
            Some(g) => r matches Some(e) && e@ == g@,
            None => r == looked_up,
        }),
{
    match given {
        Some(g) => Some(crate::text::str_to_string(g)),
        None => looked_up,
    }
}

} // verus!
