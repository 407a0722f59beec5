//! The current time and fresh identifiers, from `chrono` and `uuid`.
use vstd::prelude::*;

verus! {

/// `chrono::Utc::now().timestamp_millis()`: milliseconds since the Unix
/// epoch.  `Utc::now` takes the system clock's duration since the epoch
/// (it panics on a clock set before 1970, which is not stated here), so the
/// value is not negative; chrono's date range ends in year 262143, below
/// 10^16 ms.
#[verifier::external_body]
pub(crate) fn now_ms() -> (t: i64)
    ensures
        0 <= t < 10_000_000_000_000_000,
{
    chrono::Utc::now().timestamp_millis()
}

/// `uuid::Uuid::new_v4().to_string()`: a random UUID in its hyphenated
/// 36-character form.
#[verifier::external_body]
pub(crate) fn new_uuid() -> (s: String)
    ensures
        s@.len() == 36,
{
    uuid::Uuid::new_v4().to_string()
}

} // verus!
