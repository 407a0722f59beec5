//! The environment endpoints' own computations: the instance counts of
//! `GET /api/v1/environments/{id}/status` and the default activity limit.
use vstd::prelude::*;
use crate::server::domain::instance::InstanceStatus;

verus! {

/// Events returned by the activity endpoint when no `limit` is given.
pub const DEFAULT_ACTIVITY_LIMIT: i64 = 50;

/// Instance counts of an environment by state; `error` counts error and
/// crashed instances together.
#[derive(Debug, Clone, Copy, PartialEq, Eq, Structural)]
pub struct InstanceCounts {
    pub total: i64,
    pub running: i64,
    pub starting: i64,
    pub stopped: i64,
    pub error: i64,
}

/// How many of `s` satisfy `f`.
pub open spec fn count_where(s: Seq<InstanceStatus>, f: spec_fn(InstanceStatus) -> bool) -> nat
    decreases s.len(),
{
    if s.len() == 0 {
        0
    } else {
        count_where(s.drop_last(), f) + if f(s.last()) {
            1nat
        } else {
            0nat
        }
    }
}

/// A state counted under `error`.
pub open spec fn is_failed(s: InstanceStatus) -> bool {
    s == InstanceStatus::Error || s == InstanceStatus::Crashed
}

proof fn lemma_count_le(s: Seq<InstanceStatus>, f: spec_fn(InstanceStatus) -> bool)
    ensures
        count_where(s, f) <= s.len(),
    decreases s.len(),
{
    if s.len() > 0 {
        lemma_count_le(s.drop_last(), f);
    }
}

/// The counts of the instances whose states are `statuses`.
pub fn status_counts(statuses: &[InstanceStatus]) -> (c: InstanceCounts)
    requires
        statuses@.len() <= i64::MAX,
    ensures
        c.total == statuses@.len(),
        c.running == count_where(statuses@, |s: InstanceStatus| s == InstanceStatus::Running),
        c.starting == count_where(statuses@, |s: InstanceStatus| s == InstanceStatus::Starting),
        c.stopped == count_where(statuses@, |s: InstanceStatus| s == InstanceStatus::Stopped),
        c.error == count_where(statuses@, |s: InstanceStatus| is_failed(s)),
{
    let ghost fr = |s: InstanceStatus| s == InstanceStatus::Running;
    let ghost fs = |s: InstanceStatus| s == InstanceStatus::Starting;
    let ghost ft = |s: InstanceStatus| s == InstanceStatus::Stopped;
    let ghost fe = |s: InstanceStatus| is_failed(s);
    let mut c = InstanceCounts { total: 0, running: 0, starting: 0, stopped: 0, error: 0 };
    let mut i: usize = 0;
    while i < statuses.len()
        invariant
            0 <= i <= statuses@.len() <= i64::MAX,
            c.total == i,
            c.running == count_where(statuses@.take(i as int), fr),
            c.starting == count_where(statuses@.take(i as int), fs),
            c.stopped == count_where(statuses@.take(i as int), ft),
            c.error == count_where(statuses@.take(i as int), fe),
            fr == (|s: InstanceStatus| s == InstanceStatus::Running),
            fs == (|s: InstanceStatus| s == InstanceStatus::Starting),
            ft == (|s: InstanceStatus| s == InstanceStatus::Stopped),
            fe == (|s: InstanceStatus| is_failed(s)),
        decreases statuses.len() - i,
    {
        let ghost prefix = statuses@.take(i as int);
        let ghost next = statuses@.take(i + 1);
        assert(next.drop_last() =~= prefix);
        assert(next.last() == statuses@[i as int]);
        proof {
            lemma_count_le(prefix, fr);
            lemma_count_le(prefix, fs);
            lemma_count_le(prefix, ft);
            lemma_count_le(prefix, fe);
        }
        c.total = c.total + 1;
        match statuses[i] {
            InstanceStatus::Running => {
                c.running = c.running + 1;
            },
            InstanceStatus::Starting => {
                c.starting = c.starting + 1;
            },
            InstanceStatus::Stopped => {
                c.stopped = c.stopped + 1;
            },
            InstanceStatus::Error | InstanceStatus::Crashed => {
                c.error = c.error + 1;
            },
            _ => {},
        }
        i = i + 1;
    }
    assert(statuses@.take(statuses@.len() as int) =~= statuses@);
    c
}

/// The four state counts never add up to more than the total: each
/// instance is counted under at most one of them.
pub proof fn lemma_counts_within_total(s: Seq<InstanceStatus>)
    ensures
        count_where(s, |x: InstanceStatus| x == InstanceStatus::Running) + count_where(
            s,
            |x: InstanceStatus| x == InstanceStatus::Starting,
        ) + count_where(s, |x: InstanceStatus| x == InstanceStatus::Stopped) + count_where(
            s,
            |x: InstanceStatus| is_failed(x),
        ) <= s.len(),
    decreases s.len(),
{
    if s.len() > 0 {
        lemma_counts_within_total(s.drop_last());
    }
}

/// The limit asked of the activity log: the query's `limit`, else 50.
pub fn requested_limit(limit: Option<i64>) -> (n: i64)
    ensures
        n == (match limit {
            Some(l) => l,
            None => DEFAULT_ACTIVITY_LIMIT,
        }),
{
    match limit {
        Some(l) => l,
        None => DEFAULT_ACTIVITY_LIMIT,
    }
}

} // verus!
