//! Reconciliation: the stored state of an instance is corrected from the
//! real process.  A failed liveness probe is not a death: the DevTools port
//! is asked first; a running browser with no page left (all windows closed)
//! counts as closed by the user, after a confirmation delay.
use vstd::prelude::*;
use crate::maps::{
    distinct_keys, kv_map, lemma_distinct_lookup, lemma_kv_map_facts, lemma_kv_map_push,
    lemma_kv_map_remove,
};
use crate::server::domain::instance::{is_alive, Instance, InstanceStatus, RuntimeUpdate};
use crate::text::{chars_eq, chars_of, str_to_string};

verus! {

/// A starting instance without pid is left alone this long (kernel
/// download in progress).
pub const STARTING_NO_PID_TIMEOUT_MS: i64 = 300_000;

/// A starting instance with a pid is left alone this long after its last
/// update (hosts fetch plus DevTools wait plus margin).
pub const STARTING_PID_IN_FLIGHT_MS: i64 = 20_000;

/// No window check in the first ten seconds after start.
pub const TAB_CHECK_GRACE_MS: i64 = 10_000;

/// Pages must be seen missing for this long before the browser is closed.
pub const TAB_EMPTY_CONFIRM_MS: i64 = 2_500;

/// Whether a starting instance whose process is not alive is declared
/// failed at `now`: not within the grace of its last update (300 s without
/// pid, 20 s with one).
pub open spec fn starting_failed(ins: Instance, alive: bool, now: i64) -> bool {
    !alive && !(ins.pid is None && now - ins.updated_at < STARTING_NO_PID_TIMEOUT_MS) && !(ins.pid
        is Some && now - ins.updated_at < STARTING_PID_IN_FLIGHT_MS)
}

/// What reconciliation does with a running instance after the probe.
#[derive(Debug, Clone, Copy, PartialEq, Eq, Structural)]
pub enum RunningStep {
    /// The process lives: check whether its windows were all closed.
    CheckTabs,
    /// Ask the DevTools port before believing the death.
    AskCdp(u16),
    /// Dead (no port to ask).
    MarkDead,
}

/// What follows the DevTools answer for a running instance whose probe
/// failed.
#[derive(Debug, Clone, Copy, PartialEq, Eq, Structural)]
pub enum AfterCdp {
    /// Alive under another pid (the browser relaunched): record it.
    Reassociate(u32),
    /// Alive, nothing to change.
    Keep,
    /// Dead.
    MarkDead,
}

/// Reconciliation rules.
#[derive(Debug, Clone, Copy, PartialEq, Eq, Structural)]
pub struct Reconciler {}

impl Reconciler {
    /// The rules.
    pub fn new() -> (s: Self) {
        Reconciler {  }
    }

    /// Only running and starting instances are reconciled.
    pub fn needs_reconcile(&self, ins: &Instance) -> (b: bool)
        ensures
            b == is_alive(ins.status),
    {
        ins.status.is_alive_status()
    }

    /// Whether a starting instance is declared failed (see
    /// [`starting_failed`]); its update is then `status = error`.
    pub fn reconcile_starting(&self, ins: &Instance, alive: bool, now: i64) -> (failed: bool)
        ensures
            failed == starting_failed(*ins, alive, now),
    {
        if alive {
            return false;
        }
        let age: i128 = (now as i128) - (ins.updated_at as i128);
        if ins.pid.is_none() && age < STARTING_NO_PID_TIMEOUT_MS as i128 {
            return false;
        }
        if ins.pid.is_some() && age < STARTING_PID_IN_FLIGHT_MS as i128 {
            return false;
        }
        true
    }

    /// The step for a running instance given its probe.
    pub fn running_step(&self, ins: &Instance, alive: bool) -> (s: RunningStep)
        ensures
            alive ==> s == RunningStep::CheckTabs,
            !alive && ins.cdp_port is None ==> s == RunningStep::MarkDead,
            !alive && ins.cdp_port is Some ==> s == RunningStep::AskCdp(ins.cdp_port->0),
    {
        if alive {
            return RunningStep::CheckTabs;
        }
        match ins.cdp_port {
            Some(p) => RunningStep::AskCdp(p),
            None => RunningStep::MarkDead,
        }
    }

    /// After the DevTools answer: alive means keep, recording a new pid when
    /// the profile scan finds one different from the stored one; silence
    /// means dead.
    pub fn after_cdp(&self, ins: &Instance, cdp_answered: bool, scanned_pid: Option<u32>) -> (a: AfterCdp)
        ensures
            !cdp_answered ==> a == AfterCdp::MarkDead,
            cdp_answered && scanned_pid is Some && scanned_pid != ins.pid ==> a
                == AfterCdp::Reassociate(scanned_pid->0),
            cdp_answered && !(scanned_pid is Some && scanned_pid != ins.pid) ==> a == AfterCdp::Keep,
    {
        if !cdp_answered {
            return AfterCdp::MarkDead;
        }
        match scanned_pid {
            Some(p) => {
                let differs = match ins.pid {
                    Some(q) => q != p,
                    None => true,
                };
                if differs {
                    AfterCdp::Reassociate(p)
                } else {
                    AfterCdp::Keep
                }
            },
            None => AfterCdp::Keep,
        }
    }

    /// The update and the event of a confirmed death at `now`: a starting
    /// instance failed (`error`, `instance-error`); a running one stopped
    /// (`stopped` with its stop time, `instance-stopped`).
    pub fn dead_update(&self, ins: &Instance, now: i64) -> (r: (RuntimeUpdate, &'static str))
        ensures
            ins.status == InstanceStatus::Starting ==> r.0.status == Some(InstanceStatus::Error)
                && r.0.stopped_at is None && r.1@ == "instance-error"@,
            ins.status != InstanceStatus::Starting ==> r.0.status == Some(InstanceStatus::Stopped)
                && r.0.stopped_at == Some(now) && r.1@ == "instance-stopped"@,
            r.0.pid is None && r.0.started_at is None && r.0.browser_version is None
                && r.0.host_rules is None,
    {
        if ins.status == InstanceStatus::Starting {
            (
                RuntimeUpdate {
                    pid: None,
                    status: Some(InstanceStatus::Error),
                    started_at: None,
                    stopped_at: None,
                    browser_version: None,
                    host_rules: None,
                },
                "instance-error",
            )
        } else {
            (
                RuntimeUpdate {
                    pid: None,
                    status: Some(InstanceStatus::Stopped),
                    started_at: None,
                    stopped_at: Some(now),
                    browser_version: None,
                    host_rules: None,
                },
                "instance-stopped",
            )
        }
    }
}

/// Since when each instance has been seen without pages.
pub open spec fn tracker_view(v: Seq<(String, i64)>) -> Seq<(Seq<char>, i64)> {
    v.map_values(|e: (String, i64)| (e.0@, e.1))
}

/// Instances seen without any page, with the time first seen so.
#[derive(Debug)]
pub struct EmptyTabTracker {
    since: Vec<(String, i64)>,
}

impl EmptyTabTracker {
    #[verifier::type_invariant]
    spec fn inv(self) -> bool {
        distinct_keys(tracker_view(self.since@))
    }

    /// `instance id -> first time seen without pages`.
    pub closed spec fn empty_since(self) -> Map<Seq<char>, i64> {
        kv_map(tracker_view(self.since@))
    }

    /// Nothing seen.
    pub fn new() -> (t: Self)
        ensures
            t.empty_since() == Map::<Seq<char>, i64>::empty(),
    {
        let t = EmptyTabTracker { since: Vec::new() };
        assert(tracker_view(t.since@) =~= Seq::<(Seq<char>, i64)>::empty());
        t
    }

    fn find(&self, id: &str) -> (i: usize)
        ensures
            i <= self.since@.len(),
            i < self.since@.len() ==> tracker_view(self.since@)[i as int].0 == id@,
            i == self.since@.len() ==> !self.empty_since().contains_key(id@),
    {
        let k = chars_of(id);
        let mut i: usize = 0;
        while i < self.since.len() && !chars_eq(&chars_of(self.since[i].0.as_str()), &k)
            invariant
                0 <= i <= self.since.len(),
                k@ == id@,
                forall|j: int| 0 <= j < i ==> tracker_view(self.since@)[j].0 != id@,
            decreases self.since.len() - i,
        {
            i = i + 1;
        }
        proof {
            lemma_kv_map_facts(tracker_view(self.since@));
            if i == self.since.len() && self.empty_since().contains_key(id@) {
                let j = choose|j: int|
                    0 <= j < tracker_view(self.since@).len() && tracker_view(self.since@)[j].0
                        == id@;
                assert(tracker_view(self.since@)[j].0 != id@);
            }
        }
        i
    }

    fn forget(&mut self, id: &str)
        ensures
            final(self).empty_since() == old(self).empty_since().remove(id@),
    {
        proof {
            use_type_invariant(&*self);
        }
        let i = self.find(id);
        if i == self.since.len() {
            assert(self.empty_since() =~= self.empty_since().remove(id@));
            return;
        }
        let mut rows: Vec<(String, i64)> = Vec::new();
        std::mem::swap(&mut rows, &mut self.since);
        let ghost p = tracker_view(rows@);
        rows.remove(i);
        proof {
            lemma_kv_map_remove(p, i as int);
            assert(tracker_view(rows@) =~= p.remove(i as int));
        }
        self.since = rows;
    }

    /// Feeds one window check of instance `id` at `now`: `pages` is the
    /// number of open pages, `None` when DevTools could not be asked (no
    /// decision then).  Answers whether the browser is now deemed closed by
    /// the user: no check within ten seconds of the start, and pages must
    /// have been seen missing for 2.5 s.
    pub fn observe(&mut self, id: &str, started_at: Option<i64>, now: i64, pages: Option<usize>) -> (close: bool)
        ensures
            started_at is None || now - started_at->0 < TAB_CHECK_GRACE_MS || pages is None ==> !close
                && final(self).empty_since() == old(self).empty_since(),
            started_at is Some && now - started_at->0 >= TAB_CHECK_GRACE_MS && pages is Some && pages->0 > 0
                ==> !close && final(self).empty_since() == old(self).empty_since().remove(id@),
            started_at is Some && now - started_at->0 >= TAB_CHECK_GRACE_MS && pages == Some(0usize)
                ==> {
                &&& !old(self).empty_since().contains_key(id@) ==> !close && final(self).empty_since()
                    == old(self).empty_since().insert(id@, now)
                &&& old(self).empty_since().contains_key(id@) && now - old(self).empty_since()[id@]
                    < TAB_EMPTY_CONFIRM_MS ==> !close && final(self).empty_since()
                    == old(self).empty_since()
                &&& old(self).empty_since().contains_key(id@) && now - old(self).empty_since()[id@]
                    >= TAB_EMPTY_CONFIRM_MS ==> close && final(self).empty_since()
                    == old(self).empty_since().remove(id@)
            },
    {
        proof {
            use_type_invariant(&*self);
        }
        let started = match started_at {
            Some(s) => s,
            None => {
                return false;
            },
        };
        if (now as i128) - (started as i128) < TAB_CHECK_GRACE_MS as i128 {
            return false;
        }
        let n = match pages {
            Some(n) => n,
            None => {
                return false;
            },
        };
        if n > 0 {
            self.forget(id);
            return false;
        }
        let i = self.find(id);
        if i == self.since.len() {
            let mut rows: Vec<(String, i64)> = Vec::new();
            std::mem::swap(&mut rows, &mut self.since);
            let ghost p = tracker_view(rows@);
            rows.push((str_to_string(id), now));
            proof {
                lemma_kv_map_push(p, id@, now);
                assert(tracker_view(rows@) =~= p.push((id@, now)));
            }
            self.since = rows;
            return false;
        }
        proof {
            lemma_distinct_lookup(tracker_view(self.since@), i as int);
        }
        let first = self.since[i].1;
        if (now as i128) - (first as i128) < TAB_EMPTY_CONFIRM_MS as i128 {
            return false;
        }
        self.forget(id);
        true
    }
}

/// A browser is never closed on the first empty observation: a second
/// one at least 2.5 s later is needed.
pub proof fn lemma_close_needs_two_observations(m: Map<Seq<char>, i64>, id: Seq<char>, now: i64)
    requires
        !m.contains_key(id),
    ensures
        m.insert(id, now).contains_key(id) && now - m.insert(id, now)[id] < TAB_EMPTY_CONFIRM_MS,
{
}

/// A start in progress is judged from the last start, never from the
/// instance's creation: a live process never fails; without a pid the
/// start has five minutes from `updated_at`, with a pid twenty seconds;
/// past that, a dead process fails.  The creation time plays no part.
pub proof fn lemma_starting_grace_from_last_start(ins: Instance, alive: bool, now: i64, created: i64)
    ensures
        alive ==> !starting_failed(ins, alive, now),
        ins.pid is None && now - ins.updated_at < 300_000 ==> !starting_failed(ins, alive, now),
        ins.pid is Some && now - ins.updated_at < 20_000 ==> !starting_failed(ins, alive, now),
        !alive && ins.pid is None && now - ins.updated_at >= 300_000 ==> starting_failed(
            ins,
            alive,
            now,
        ),
        !alive && ins.pid is Some && now - ins.updated_at >= 20_000 ==> starting_failed(
            ins,
            alive,
            now,
        ),
        starting_failed(Instance { created_at: created, ..ins }, alive, now) == starting_failed(
            ins,
            alive,
            now,
        ),
{
}

} // verus!
