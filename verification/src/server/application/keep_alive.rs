//! Keep-alive: an instance of a keep-alive environment that dies is
//! restarted, unless it crashed three times within sixty seconds.
//!
//! A failed liveness probe is not a death: the DevTools port is asked
//! before the instance is declared crashed.
use vstd::prelude::*;
use crate::maps::{
    distinct_keys, kv_map, lemma_distinct_lookup, lemma_kv_map_facts, lemma_kv_map_push,
    lemma_kv_map_remove, lemma_kv_map_update,
};
use crate::server::domain::instance::InstanceStatus;
use crate::text::{chars_eq, chars_of, dec, push_str, push_u64, str_to_string, string_from_chars};

verus! {

/// Seconds between two probes of a watched instance.
pub const POLL_INTERVAL_SECS: u64 = 3;

/// Length of the crash window.
pub const RESTART_WINDOW_MS: i64 = 60_000;

/// Crashes within the window that stop the restarts.
pub const MAX_RESTARTS_PER_WINDOW: usize = 3;

/// Upper bound of the clock values handled (epoch milliseconds).
pub const MAX_TIME_MS: i64 = 10_000_000_000_000_000;

/// The crash times of `s` still inside the window at `now`.
pub open spec fn recent(s: Seq<i64>, now: i64) -> Seq<i64>
    decreases s.len(),
{
    if s.len() == 0 {
        Seq::empty()
    } else if now - s.last() < RESTART_WINDOW_MS {
        recent(s.drop_last(), now).push(s.last())
    } else {
        recent(s.drop_last(), now)
    }
}

/// Times within the handled clock range.
pub open spec fn times_in_range(s: Seq<i64>) -> bool {
    forall|i: int| 0 <= i < s.len() ==> 0 <= #[trigger] s[i] < MAX_TIME_MS
}

proof fn lemma_recent_in_range(s: Seq<i64>, now: i64)
    requires
        times_in_range(s),
    ensures
        times_in_range(recent(s, now)),
        recent(s, now).len() <= s.len(),
    decreases s.len(),
{
    if s.len() > 0 {
        assert(times_in_range(s.drop_last())) by {
            assert forall|i: int| 0 <= i < s.drop_last().len() implies 0 <= #[trigger] s.drop_last()[i]
                < MAX_TIME_MS by {
                assert(s.drop_last()[i] == s[i]);
            }
        }
        lemma_recent_in_range(s.drop_last(), now);
    }
}

/// Crash times of one watched instance.
#[derive(Debug, Clone)]
pub struct CrashWindow {
    times: Vec<i64>,
}

impl CrashWindow {
    /// The recorded crash times, oldest first.
    pub closed spec fn times(self) -> Seq<i64> {
        self.times@
    }

    /// No crash recorded.
    pub fn new() -> (w: Self)
        ensures
            w.times() == Seq::<i64>::empty(),
    {
        CrashWindow { times: Vec::new() }
    }

    /// Records a crash at `now`: crashes older than the window are
    /// forgotten, and the answer is whether this crash makes three within
    /// it (then restarts stop).
    pub fn record_crash(&mut self, now: i64) -> (over_limit: bool)
        requires
            0 <= now < MAX_TIME_MS,
            times_in_range(old(self).times()),
        ensures
            final(self).times() == recent(old(self).times(), now).push(now),
            over_limit == (recent(old(self).times(), now).len() + 1 >= 3),
            times_in_range(final(self).times()),
    {
        let ghost s = self.times@;
        let mut kept: Vec<i64> = Vec::new();
        let mut i: usize = 0;
        assert(s.take(0) =~= Seq::<i64>::empty());
        while i < self.times.len()
            invariant
                0 <= i <= self.times.len(),
                s == self.times@,
                times_in_range(s),
                0 <= now < MAX_TIME_MS,
                kept@ == recent(s.take(i as int), now),
            decreases self.times.len() - i,
        {
            let t = self.times[i];
            proof {
                assert(s.take(i + 1).drop_last() =~= s.take(i as int));
                assert(s.take(i + 1).last() == t);
                assert(0 <= s[i as int] < MAX_TIME_MS);
            }
            if now - t < RESTART_WINDOW_MS {
                kept.push(t);
            }
            i = i + 1;
        }
        assert(s.take(s.len() as int) =~= s);
        proof {
            lemma_recent_in_range(s, now);
        }
        let over_limit = kept.len() >= MAX_RESTARTS_PER_WINDOW - 1;
        kept.push(now);
        self.times = kept;
        proof {
            assert forall|j: int| 0 <= j < self.times@.len() implies 0 <= #[trigger] self.times@[j]
                < MAX_TIME_MS by {
                if j < self.times@.len() - 1 {
                    assert(self.times@[j] == recent(s, now)[j]);
                }
            }
        }
        over_limit
    }
}

/// Three crashes within sixty seconds stop the restarts: on a fresh
/// window, crashes at `t1 <= t2 <= t3` with `t3 - t1 < 60 s` make the third
/// one over the limit, while the first two are not.
pub proof fn lemma_three_crashes_in_window_trip(t1: i64, t2: i64, t3: i64)
    requires
        0 <= t1 <= t2 <= t3 < MAX_TIME_MS,
        t3 - t1 < RESTART_WINDOW_MS,
    ensures
        recent(Seq::<i64>::empty(), t1).len() + 1 < 3,
        recent(recent(Seq::<i64>::empty(), t1).push(t1), t2).len() + 1 < 3,
        recent(recent(recent(Seq::<i64>::empty(), t1).push(t1), t2).push(t2), t3).len() + 1 >= 3,
{
    let e = Seq::<i64>::empty();
    assert(recent(e, t1) == e);
    assert(recent(e, t2) == e);
    assert(recent(e, t3) == e);
    let w1 = recent(e, t1).push(t1);
    assert(w1 =~= seq![t1]);
    assert(w1.drop_last() =~= e);
    assert(w1.last() == t1);
    let r2 = recent(w1, t2);
    assert(r2 == recent(w1.drop_last(), t2).push(t1));
    assert(r2 =~= seq![t1]);
    let w2 = r2.push(t2);
    assert(w2 =~= seq![t1, t2]);
    assert(w2.drop_last() =~= seq![t1]);
    assert(w2.last() == t2);
    assert(recent(w1, t3) == recent(w1.drop_last(), t3).push(t1));
    assert(recent(w2, t3) == recent(w2.drop_last(), t3).push(t2));
    assert(recent(w2, t3) =~= seq![t1, t2]);
}

/// Crashes further apart than the window never stop the restarts.
pub proof fn lemma_spaced_crashes_never_trip(s: Seq<i64>, now: i64)
    requires
        forall|i: int| 0 <= i < s.len() ==> now - #[trigger] s[i] >= RESTART_WINDOW_MS,
    ensures
        recent(s, now).len() + 1 < 3,
    decreases s.len(),
{
    if s.len() > 0 {
        assert(now - s[s.len() - 1] >= RESTART_WINDOW_MS);
        assert forall|i: int| 0 <= i < s.drop_last().len() implies now - #[trigger] s.drop_last()[i]
            >= RESTART_WINDOW_MS by {
            assert(s.drop_last()[i] == s[i]);
        }
        lemma_spaced_crashes_never_trip(s.drop_last(), now);
    }
}

/// What a watcher does after a poll.
#[derive(Debug, Clone, Copy, PartialEq, Eq, Structural)]
pub enum ProbeStep {
    /// Stop watching: cancelled, the instance is gone, or it is neither
    /// running nor starting.
    Exit,
    /// Nothing to do this round.
    Wait,
    /// Probe the browser process `pid`.
    ProbeProcess(u32),
}

/// The first decision of a poll round.
pub open spec fn probe_step_spec(
    cancelled: bool,
    status: Option<InstanceStatus>,
    pid: Option<u32>,
) -> ProbeStep {
    if cancelled {
        ProbeStep::Exit
    } else {
        match status {
            None => ProbeStep::Exit,
            Some(InstanceStatus::Starting) => ProbeStep::Wait,
            Some(InstanceStatus::Running) => match pid {
                Some(p) => ProbeStep::ProbeProcess(p),
                None => ProbeStep::Wait,
            },
            Some(_) => ProbeStep::Exit,
        }
    }
}

/// A poll round: exit when cancelled or the instance is gone or settled,
/// wait while it starts or has no pid, else probe its process.
pub fn probe_step(cancelled: bool, status: Option<InstanceStatus>, pid: Option<u32>) -> (s:
    ProbeStep)
    ensures
        s == probe_step_spec(cancelled, status, pid),
{
    if cancelled {
        return ProbeStep::Exit;
    }
    match status {
        None => ProbeStep::Exit,
        Some(InstanceStatus::Starting) => ProbeStep::Wait,
        Some(InstanceStatus::Running) => match pid {
            Some(p) => ProbeStep::ProbeProcess(p),
            None => ProbeStep::Wait,
        },
        Some(_) => ProbeStep::Exit,
    }
}

/// Verdict on an instance whose process probe failed.
#[derive(Debug, Clone, Copy, PartialEq, Eq, Structural)]
pub enum CrashVerdict {
    /// The process (or its DevTools port) answers: a false alarm.
    Alive,
    /// Watching was cancelled meanwhile.
    Exit,
    /// Confirmed crash: mark it stopped, then restart or give up.
    Crashed,
}

/// The verdict after the probes: alive if the process or the DevTools port
/// answered; otherwise exit when cancelled, else crashed.
pub open spec fn crash_verdict_spec(process_alive: bool, cdp_answered: bool, cancelled: bool) -> CrashVerdict {
    if process_alive || cdp_answered {
        CrashVerdict::Alive
    } else if cancelled {
        CrashVerdict::Exit
    } else {
        CrashVerdict::Crashed
    }
}

/// Two checks before a death is believed: the process probe, then the
/// DevTools port (asked only when there is one and the probe failed).
pub fn crash_verdict(process_alive: bool, cdp_answered: bool, cancelled: bool) -> (v: CrashVerdict)
    ensures
        v == crash_verdict_spec(process_alive, cdp_answered, cancelled),
{
    if process_alive || cdp_answered {
        CrashVerdict::Alive
    } else if cancelled {
        CrashVerdict::Exit
    } else {
        CrashVerdict::Crashed
    }
}

/// Watched instances: `instance id -> (watch generation, crash times)`.
pub open spec fn watch_view(v: Seq<(String, (u64, CrashWindow))>) -> Seq<(Seq<char>, (u64, Seq<i64>))> {
    v.map_values(|e: (String, (u64, CrashWindow))| (e.0@, (e.1.0, e.1.1.times())))
}

/// The set of watched instances.  A watch is identified by its generation:
/// cancelling and registering again starts a new watch, and the old
/// watcher sees that it is no longer current.
#[derive(Debug)]
pub struct KeepAliveWatcher {
    entries: Vec<(String, (u64, CrashWindow))>,
    next_generation: u64,
}

impl KeepAliveWatcher {
    #[verifier::type_invariant]
    spec fn inv(self) -> bool {
        &&& distinct_keys(watch_view(self.entries@))
        &&& forall|i: int|
            0 <= i < self.entries@.len() ==> #[trigger] self.entries@[i].1.0 < self.next_generation
        &&& forall|i: int|
            0 <= i < self.entries@.len() ==> times_in_range(#[trigger] self.entries@[i].1.1.times())
    }

    /// `instance id -> (generation, crash times)`.
    pub closed spec fn watches(self) -> Map<Seq<char>, (u64, Seq<i64>)> {
        kv_map(watch_view(self.entries@))
    }

    /// Generations are not exhausted (2^64 registrations).
    pub closed spec fn can_register(self) -> bool {
        self.next_generation < u64::MAX
    }

    /// Nothing watched.
    pub fn new() -> (w: Self)
        ensures
            w.watches() == Map::<Seq<char>, (u64, Seq<i64>)>::empty(),
            w.can_register(),
    {
        let w = KeepAliveWatcher { entries: Vec::new(), next_generation: 0 };
        assert(watch_view(w.entries@) =~= Seq::<(Seq<char>, (u64, Seq<i64>))>::empty());
        w
    }

    fn find(&self, id: &str) -> (i: usize)
        ensures
            i <= self.entries@.len(),
            i < self.entries@.len() ==> watch_view(self.entries@)[i as int].0 == id@,
            i == self.entries@.len() ==> !self.watches().contains_key(id@),
    {
        let k = chars_of(id);
        let mut i: usize = 0;
        while i < self.entries.len() && !chars_eq(&chars_of(self.entries[i].0.as_str()), &k)
            invariant
                0 <= i <= self.entries.len(),
                k@ == id@,
                forall|j: int| 0 <= j < i ==> watch_view(self.entries@)[j].0 != id@,
            decreases self.entries.len() - i,
        {
            i = i + 1;
        }
        proof {
            lemma_kv_map_facts(watch_view(self.entries@));
            if i == self.entries.len() && self.watches().contains_key(id@) {
                let j = choose|j: int|
                    0 <= j < watch_view(self.entries@).len() && watch_view(self.entries@)[j].0
                        == id@;
                assert(watch_view(self.entries@)[j].0 != id@);
            }
        }
        i
    }

    /// Starts watching `id` unless it is already watched; the generation of
    /// a new watch is returned (the caller then starts its watcher).
    pub fn register(&mut self, id: &str) -> (g: Option<u64>)
        ensures
            old(self).watches().contains_key(id@) ==> g is None && final(self).watches()
                == old(self).watches(),
            !old(self).watches().contains_key(id@) && old(self).can_register() ==> (g matches Some(n)
                && final(self).watches() == old(self).watches().insert(
                id@,
                (n, Seq::<i64>::empty()),
            )),
    {
        proof {
            use_type_invariant(&*self);
        }
        let i = self.find(id);
        if i < self.entries.len() {
            proof {
                lemma_distinct_lookup(watch_view(self.entries@), i as int);
            }
            return None;
        }
        if self.next_generation == u64::MAX {
            return None;
        }
        let gen = self.next_generation;
        let mut rows: Vec<(String, (u64, CrashWindow))> = Vec::new();
        std::mem::swap(&mut rows, &mut self.entries);
        let ghost p = watch_view(rows@);
        rows.push((str_to_string(id), (gen, CrashWindow::new())));
        proof {
            lemma_kv_map_push(p, id@, (gen, Seq::<i64>::empty()));
            assert(watch_view(rows@) =~= p.push((id@, (gen, Seq::<i64>::empty()))));
        }
        self.next_generation = gen + 1;
        self.entries = rows;
        Some(gen)
    }

    /// Stops watching `id` (user stop, deletion, keep-alive switched off);
    /// answers whether it was watched.
    pub fn cancel(&mut self, id: &str) -> (was: bool)
        ensures
            was == old(self).watches().contains_key(id@),
            final(self).watches() == old(self).watches().remove(id@),
    {
        proof {
            use_type_invariant(&*self);
        }
        let i = self.find(id);
        if i == self.entries.len() {
            assert(self.watches() =~= self.watches().remove(id@));
            return false;
        }
        proof {
            lemma_distinct_lookup(watch_view(self.entries@), i as int);
        }
        let mut rows: Vec<(String, (u64, CrashWindow))> = Vec::new();
        std::mem::swap(&mut rows, &mut self.entries);
        let ghost p = watch_view(rows@);
        rows.remove(i);
        proof {
            lemma_kv_map_remove(p, i as int);
            assert(watch_view(rows@) =~= p.remove(i as int));
        }
        self.entries = rows;
        true
    }

    /// Stops watching each of `ids`.
    pub fn cancel_all(&mut self, ids: &[String])
        ensures
            forall|k: Seq<char>| #[trigger]
                final(self).watches().contains_key(k) <==> old(self).watches().contains_key(k)
                    && !ids@.map_values(|s: String| s@).contains(k),
    {
        let mut i: usize = 0;
        while i < ids.len()
            invariant
                0 <= i <= ids.len(),
                forall|k: Seq<char>| #[trigger]
                    self.watches().contains_key(k) <==> old(self).watches().contains_key(k)
                        && !ids@.map_values(|s: String| s@).take(i as int).contains(k),
            decreases ids.len() - i,
        {
            let ghost before = self.watches();
            self.cancel(ids[i].as_str());
            proof {
                let names = ids@.map_values(|s: String| s@);
                assert(names.take(i + 1) =~= names.take(i as int).push(ids@[i as int]@));
                assert forall|k: Seq<char>| #[trigger]
                    self.watches().contains_key(k) <==> old(self).watches().contains_key(k)
                        && !names.take(i + 1).contains(k) by {
                    if names.take(i + 1).contains(k) && !names.take(i as int).contains(k) {
                        let t1 = names.take(i + 1);
                        let j = choose|j: int| 0 <= j < t1.len() && #[trigger] t1[j] == k;
                        if j < i {
                            assert(names.take(i as int)[j] == k);
                        }
                        assert(k == ids@[i as int]@);
                    }
                    if names.take(i as int).contains(k) {
                        let t0 = names.take(i as int);
                        let j = choose|j: int| 0 <= j < t0.len() && #[trigger] t0[j] == k;
                        assert(names.take(i + 1)[j] == k);
                    }
                    if k == ids@[i as int]@ {
                        assert(names.take(i + 1)[i as int] == k);
                    }
                }
            }
            i = i + 1;
        }
        assert(ids@.map_values(|s: String| s@).take(ids.len() as int) =~= ids@.map_values(
            |s: String| s@,
        ));
    }

    /// Whether the watch `generation` of `id` is still the current one.
    pub fn is_current(&self, id: &str, generation: u64) -> (b: bool)
        ensures
            b == (self.watches().contains_key(id@) && self.watches()[id@].0 == generation),
    {
        proof {
            use_type_invariant(self);
        }
        let i = self.find(id);
        if i == self.entries.len() {
            return false;
        }
        proof {
            lemma_distinct_lookup(watch_view(self.entries@), i as int);
        }
        self.entries[i].1.0 == generation
    }

    /// Records a confirmed crash of the current watch of `id` at `now`;
    /// `Some(over_limit)` when the watch is current, `None` when it is not
    /// (the watcher then stops).
    pub fn record_crash(&mut self, id: &str, generation: u64, now: i64) -> (r: Option<bool>)
        requires
            0 <= now < MAX_TIME_MS,
        ensures
            !(old(self).watches().contains_key(id@) && old(self).watches()[id@].0 == generation)
                ==> r is None && final(self).watches() == old(self).watches(),
            old(self).watches().contains_key(id@) && old(self).watches()[id@].0 == generation ==> {
                let before = old(self).watches()[id@].1;
                &&& r == Some(recent(before, now).len() + 1 >= 3)
                &&& final(self).watches() == old(self).watches().insert(
                    id@,
                    (generation, recent(before, now).push(now)),
                )
            },
    {
        proof {
            use_type_invariant(&*self);
        }
        let i = self.find(id);
        if i == self.entries.len() {
            return None;
        }
        proof {
            lemma_distinct_lookup(watch_view(self.entries@), i as int);
        }
        if self.entries[i].1.0 != generation {
            return None;
        }
        let mut rows: Vec<(String, (u64, CrashWindow))> = Vec::new();
        std::mem::swap(&mut rows, &mut self.entries);
        let ghost p = watch_view(rows@);
        let (name, (g, mut window)) = rows.remove(i);
        let over = window.record_crash(now);
        rows.insert(i, (name, (g, window)));
        proof {
            lemma_kv_map_update(p, i as int, (generation, recent(p[i as int].1.1, now).push(now)));
            assert(watch_view(rows@) =~= p.update(
                i as int,
                (p[i as int].0, (generation, recent(p[i as int].1.1, now).push(now))),
            ));
        }
        self.entries = rows;
        Some(over)
    }
}

/// An activity entry the watcher records for its instance (filed under the
/// instance's environment, with the instance as target).
#[derive(Debug, Clone, PartialEq, Eq)]
pub struct WatchEvent {
    pub level: String,
    pub event: String,
    pub message: String,
}

/// What follows a confirmed crash.
#[derive(Debug, Clone, PartialEq, Eq)]
pub struct CrashResponse {
    /// Recorded first: the crash itself (the instance is marked `stopped`).
    pub crashed: WatchEvent,
    /// Stored after `stopped` when restarts stop: `error`.
    pub final_status: InstanceStatus,
    /// Recorded when restarts stop.
    pub gave_up: Option<WatchEvent>,
    /// Whether the instance is started again (and watching goes on).
    pub restart: bool,
}

/// The message of a confirmed crash.
pub open spec fn crashed_message(pid: u32) -> Seq<char> {
    "进程异常退出（pid "@ + dec(pid as nat) + "），keepAlive 自动恢复"@
}

/// The message when restarts stop.
pub open spec fn gave_up_message() -> Seq<char> {
    "keepAlive：60s 内连续崩溃 3 次，停止自动重启"@
}

/// Whether `e` holds these fields.
pub open spec fn event_is(e: WatchEvent, level: Seq<char>, event: Seq<char>, message: Seq<char>) -> bool {
    e.level@ == level && e.event@ == event && e.message@ == message
}

fn watch_event(level: &str, event: &str, message: String) -> (e: WatchEvent)
    ensures
        event_is(e, level@, event@, message@),
{
    WatchEvent { level: str_to_string(level), event: str_to_string(event), message }
}

/// The response to a confirmed crash of process `pid`, `over_limit` being
/// the answer of the crash window: the instance is always marked `stopped`
/// and an `error`/`instance-crashed` entry recorded; under the limit it is
/// started again; at the limit it is set to `error`, an
/// `error`/`instance-error` entry is recorded and watching ends.
pub fn after_crash(pid: u32, over_limit: bool) -> (r: CrashResponse)
    ensures
        event_is(r.crashed, "error"@, "instance-crashed"@, crashed_message(pid)),
        over_limit ==> r.final_status == InstanceStatus::Error && !r.restart && (r.gave_up matches Some(
            e,
        ) && event_is(e, "error"@, "instance-error"@, gave_up_message())),
        !over_limit ==> r.final_status == InstanceStatus::Stopped && r.restart && r.gave_up is None,
{
    let mut buf: Vec<char> = Vec::new();
    push_str(&mut buf, "进程异常退出（pid ");
    push_u64(&mut buf, pid as u64);
    push_str(&mut buf, "），keepAlive 自动恢复");
    let crashed = watch_event("error", "instance-crashed", string_from_chars(&buf));
    if over_limit {
        let e = watch_event(
            "error",
            "instance-error",
            str_to_string("keepAlive：60s 内连续崩溃 3 次，停止自动重启"),
        );
        CrashResponse { crashed, final_status: InstanceStatus::Error, gave_up: Some(e), restart: false }
    } else {
        CrashResponse { crashed, final_status: InstanceStatus::Stopped, gave_up: None, restart: true }
    }
}

/// The entry after an automatic restart, and whether watching goes on:
/// success records `info`/`instance-started` and keeps watching; a failure
/// (`Some(error text)`) records `error`/`instance-error` and ends it.
pub fn after_restart(error: Option<&str>) -> (r: (WatchEvent, bool))
    ensures
        (match error {
            None => event_is(r.0, "info"@, "instance-started"@, "keepAlive 自动重启成功"@) && r.1,
            Some(e) => event_is(r.0, "error"@, "instance-error"@, "keepAlive 自动重启失败: "@ + e@)
                && !r.1,
        }),
{
    match error {
        None => (watch_event("info", "instance-started", str_to_string("keepAlive 自动重启成功")), true),
        Some(e) => {
            let mut buf: Vec<char> = Vec::new();
            push_str(&mut buf, "keepAlive 自动重启失败: ");
            push_str(&mut buf, e);
            (watch_event("error", "instance-error", string_from_chars(&buf)), false)
        },
    }
}

/// A process or DevTools port that answers is never a crash, cancelled or
/// not; a crash is declared exactly when both probes failed and watching
/// goes on; a cancelled watch with both probes failed just exits.
pub proof fn lemma_answering_instance_is_never_crashed(
    process_alive: bool,
    cdp_answered: bool,
    cancelled: bool,
)
    ensures
        process_alive ==> crash_verdict_spec(process_alive, cdp_answered, cancelled)
            == CrashVerdict::Alive,
        cdp_answered ==> crash_verdict_spec(process_alive, cdp_answered, cancelled)
            == CrashVerdict::Alive,
        (crash_verdict_spec(process_alive, cdp_answered, cancelled) == CrashVerdict::Crashed) <==> (
        !process_alive && !cdp_answered && !cancelled),
        (crash_verdict_spec(process_alive, cdp_answered, cancelled) == CrashVerdict::Exit) <==> (
        !process_alive && !cdp_answered && cancelled),
{
}

} // verus!
