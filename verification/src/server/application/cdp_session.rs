//! DevTools sessions: credentials below the API token, scoped to one
//! instance and valid for thirty minutes.
use vstd::prelude::*;
use vstd::string::StringExecFns;
use crate::maps::{
    distinct_keys, kv_map, lemma_distinct_len, lemma_distinct_lookup, lemma_kv_map_facts,
    lemma_kv_map_push, lemma_kv_map_remove, lemma_kv_map_update,
};
use crate::server::clock::{new_uuid, now_ms};
use crate::text::{chars_eq, chars_of, push_str, str_to_string, string_from_chars};

verus! {

/// Lifetime of a session: thirty minutes.
pub const SESSION_TTL_MS: i64 = 30 * 60 * 1000;

/// An event for the activity log.
#[derive(Debug, Clone, PartialEq, Eq)]
pub struct AuditEvent {
    pub level: String,
    pub event: String,
    pub target_id: Option<String>,
    pub message: String,
}

/// A granted session.
#[derive(Debug, Clone, PartialEq, Eq)]
pub struct CdpSessionView {
    pub session_id: String,
    /// Proxy path prefix; the client puts its own `scheme://host:port` in
    /// front.
    pub base_url: String,
    /// Expiry, epoch milliseconds.
    pub expires_at: i64,
}

/// The sessions as `session id -> (instance id, expiry)`.
pub open spec fn entries_view(v: Seq<(String, (String, i64))>) -> Seq<(Seq<char>, (Seq<char>, int))> {
    v.map_values(|e: (String, (String, i64))| (e.0@, (e.1.0@, e.1.1 as int)))
}

/// A session accepted for `instance` at time `now`: known, bound to that
/// instance, and not expired.
pub open spec fn session_valid(
    m: Map<Seq<char>, (Seq<char>, int)>,
    instance: Seq<char>,
    session: Seq<char>,
    now: int,
) -> bool {
    m.contains_key(session) && m[session].0 == instance && m[session].1 > now
}

/// A known session of `instance` that has expired at `now`.
pub open spec fn session_expired(
    m: Map<Seq<char>, (Seq<char>, int)>,
    instance: Seq<char>,
    session: Seq<char>,
    now: int,
) -> bool {
    m.contains_key(session) && m[session].0 == instance && m[session].1 <= now
}

/// The sessions still valid at `now`.
pub open spec fn unexpired(m: Map<Seq<char>, (Seq<char>, int)>, now: int) -> Map<
    Seq<char>,
    (Seq<char>, int),
> {
    Map::new(|k: Seq<char>| m.contains_key(k) && m[k].1 > now, |k: Seq<char>| m[k])
}

/// Proxy path prefix of a session.
pub open spec fn base_url_of(instance: Seq<char>, session: Seq<char>) -> Seq<char> {
    "/cdp/"@ + instance + "/"@ + session
}

/// Session table plus the audit events not yet written to the activity log.
#[derive(Debug)]
pub struct CdpSessionService {
    sessions: Vec<(String, (String, i64))>,
    audit: Vec<AuditEvent>,
}

/// Whether `e` is an `info` event `event` on `target` with `message`.
pub open spec fn audit_is(e: AuditEvent, event: Seq<char>, target: Seq<char>, message: Seq<char>) -> bool {
    &&& e.level@ == "info"@
    &&& e.event@ == event
    &&& e.target_id matches Some(t) && t@ == target
    &&& e.message@ == message
}

fn audit_event(event: &str, target: &str, message: &str) -> (e: AuditEvent)
    ensures
        e.level@ == "info"@,
        e.event@ == event@,
        e.target_id matches Some(t) && t@ == target@,
        e.message@ == message@,
{
    AuditEvent {
        level: str_to_string("info"),
        event: str_to_string(event),
        target_id: Some(str_to_string(target)),
        message: str_to_string(message),
    }
}

impl CdpSessionService {
    #[verifier::type_invariant]
    spec fn inv(self) -> bool {
        distinct_keys(entries_view(self.sessions@))
    }

    /// `session id -> (instance id, expiry)`.
    pub closed spec fn sessions(self) -> Map<Seq<char>, (Seq<char>, int)> {
        kv_map(entries_view(self.sessions@))
    }

    /// Audit events waiting to be recorded, oldest first.
    pub closed spec fn pending_audit(self) -> Seq<AuditEvent> {
        self.audit@
    }

    /// No sessions, no pending events.
    pub fn new() -> (s: Self)
        ensures
            s.sessions() == Map::<Seq<char>, (Seq<char>, int)>::empty(),
            s.pending_audit() == Seq::<AuditEvent>::empty(),
    {
        let s = CdpSessionService { sessions: Vec::new(), audit: Vec::new() };
        assert(entries_view(s.sessions@) =~= Seq::<(Seq<char>, (Seq<char>, int))>::empty());
        s
    }

    /// Hands the pending audit events over for recording.
    pub fn take_audit(&mut self) -> (events: Vec<AuditEvent>)
        ensures
            events@ == old(self).pending_audit(),
            final(self).pending_audit() == Seq::<AuditEvent>::empty(),
            final(self).sessions() == old(self).sessions(),
    {
        proof {
            use_type_invariant(&*self);
        }
        let mut events: Vec<AuditEvent> = Vec::new();
        std::mem::swap(&mut events, &mut self.audit);
        events
    }

    fn push_audit(&mut self, e: AuditEvent)
        ensures
            final(self).pending_audit() == old(self).pending_audit().push(e),
            final(self).sessions() == old(self).sessions(),
    {
        proof {
            use_type_invariant(&*self);
        }
        let mut events: Vec<AuditEvent> = Vec::new();
        std::mem::swap(&mut events, &mut self.audit);
        events.push(e);
        self.audit = events;
    }

    fn find(&self, session_id: &str) -> (i: usize)
        ensures
            i <= self.sessions@.len(),
            i < self.sessions@.len() ==> entries_view(self.sessions@)[i as int].0 == session_id@,
            i == self.sessions@.len() ==> !self.sessions().contains_key(session_id@),
    {
        let k = chars_of(session_id);
        let mut i: usize = 0;
        while i < self.sessions.len() && !chars_eq(&chars_of(self.sessions[i].0.as_str()), &k)
            invariant
                0 <= i <= self.sessions.len(),
                k@ == session_id@,
                forall|j: int| 0 <= j < i ==> entries_view(self.sessions@)[j].0 != session_id@,
            decreases self.sessions.len() - i,
        {
            i = i + 1;
        }
        proof {
            lemma_kv_map_facts(entries_view(self.sessions@));
            if i == self.sessions.len() && self.sessions().contains_key(session_id@) {
                let j = choose|j: int|
                    0 <= j < entries_view(self.sessions@).len() && entries_view(
                        self.sessions@,
                    )[j].0 == session_id@;
                assert(entries_view(self.sessions@)[j].0 != session_id@);
            }
        }
        i
    }

    /// Grants a session `session_id` on `instance_id` at time `now`,
    /// valid until `now + SESSION_TTL_MS`, and records
    /// `cdp_session_created`.
    pub fn create_at(&mut self, instance_id: &str, session_id: String, now: i64) -> (v:
        CdpSessionView)
        requires
            now <= i64::MAX - SESSION_TTL_MS,
        ensures
            v.session_id@ == session_id@,
            v.expires_at == now + SESSION_TTL_MS,
            v.base_url@ == base_url_of(instance_id@, session_id@),
            final(self).sessions() == old(self).sessions().insert(
                session_id@,
                (instance_id@, now + SESSION_TTL_MS),
            ),
            final(self).pending_audit() == old(self).pending_audit().push(
                final(self).pending_audit().last(),
            ),
            audit_is(
                final(self).pending_audit().last(),
                "cdp_session_created"@,
                instance_id@,
                "CDP 会话发放（30 分钟有效）"@,
            ),
    {
        proof {
            use_type_invariant(&*self);
        }
        let expires_at = now + SESSION_TTL_MS;
        let mut url: Vec<char> = Vec::new();
        push_str(&mut url, "/cdp/");
        push_str(&mut url, instance_id);
        push_str(&mut url, "/");
        push_str(&mut url, session_id.as_str());
        let view = CdpSessionView {
            session_id: session_id.clone(),
            base_url: string_from_chars(&url),
            expires_at,
        };
        let i = self.find(session_id.as_str());
        let mut rows: Vec<(String, (String, i64))> = Vec::new();
        std::mem::swap(&mut rows, &mut self.sessions);
        let ghost p = entries_view(rows@);
        let entry = (session_id.clone(), (str_to_string(instance_id), expires_at));
        if i < rows.len() {
            rows.set(i, entry);
            proof {
                lemma_kv_map_update(p, i as int, (instance_id@, expires_at as int));
                assert(entries_view(rows@) =~= p.update(
                    i as int,
                    (p[i as int].0, (instance_id@, expires_at as int)),
                ));
            }
        } else {
            rows.push(entry);
            proof {
                lemma_kv_map_push(p, session_id@, (instance_id@, expires_at as int));
                assert(entries_view(rows@) =~= p.push(
                    (session_id@, (instance_id@, expires_at as int)),
                ));
            }
        }
        self.sessions = rows;
        self.push_audit(
            audit_event(instance_id_event_created(), instance_id, "CDP 会话发放（30 分钟有效）"),
        );
        view
    }

    /// Grants a session on `instance_id` (the caller has checked that the
    /// instance runs): a fresh UUID as session id, valid for thirty minutes
    /// from the clock reading taken (`expires_at - SESSION_TTL_MS` is that
    /// reading), and records `cdp_session_created`.
    pub fn create(&mut self, instance_id: &str) -> (v: CdpSessionView)
        ensures
            v.session_id@.len() == 36,
            v.base_url@ == base_url_of(instance_id@, v.session_id@),
            final(self).sessions() == old(self).sessions().insert(
                v.session_id@,
                (instance_id@, v.expires_at as int),
            ),
            0 <= v.expires_at - SESSION_TTL_MS < 10_000_000_000_000_000,
            final(self).pending_audit() == old(self).pending_audit().push(
                final(self).pending_audit().last(),
            ),
            audit_is(
                final(self).pending_audit().last(),
                "cdp_session_created"@,
                instance_id@,
                "CDP 会话发放（30 分钟有效）"@,
            ),
    {
        let session_id = new_uuid();
        let now = now_ms();
        self.create_at(instance_id, session_id, now)
    }

    /// Whether `session_id` is a live session of `instance_id` at `now`.  A
    /// session of that instance found expired is removed and
    /// `cdp_session_expired` recorded.  Any mismatch answers `false` alike,
    /// so a key's existence is not revealed.
    pub fn validate_at(&mut self, instance_id: &str, session_id: &str, now: i64) -> (ok: bool)
        ensures
            ok == session_valid(old(self).sessions(), instance_id@, session_id@, now as int),
            session_expired(old(self).sessions(), instance_id@, session_id@, now as int) ==> {
                &&& final(self).sessions() == old(self).sessions().remove(session_id@)
                &&& final(self).pending_audit() == old(self).pending_audit().push(
                    final(self).pending_audit().last(),
                )
                &&& audit_is(
                    final(self).pending_audit().last(),
                    "cdp_session_expired"@,
                    instance_id@,
                    "CDP 会话过期（访问时惰性清理）"@,
                )
            },
            !session_expired(old(self).sessions(), instance_id@, session_id@, now as int) ==> {
                &&& final(self).sessions() == old(self).sessions()
                &&& final(self).pending_audit() == old(self).pending_audit()
            },
    {
        proof {
            use_type_invariant(&*self);
        }
        let i = self.find(session_id);
        if i == self.sessions.len() {
            return false;
        }
        proof {
            lemma_distinct_lookup(entries_view(self.sessions@), i as int);
        }
        let ins = chars_of(self.sessions[i].1.0.as_str());
        let want = chars_of(instance_id);
        if !chars_eq(&ins, &want) {
            return false;
        }
        if self.sessions[i].1.1 > now {
            return true;
        }
        let mut rows: Vec<(String, (String, i64))> = Vec::new();
        std::mem::swap(&mut rows, &mut self.sessions);
        let ghost p = entries_view(rows@);
        rows.remove(i);
        proof {
            lemma_kv_map_remove(p, i as int);
            assert(entries_view(rows@) =~= p.remove(i as int));
        }
        self.sessions = rows;
        self.push_audit(audit_event("cdp_session_expired", instance_id, "CDP 会话过期（访问时惰性清理）"));
        false
    }

    /// Whether `session_id` is a live session of `instance_id` now: the
    /// check of [`Self::validate_at`] at the current time, whatever it is.
    pub fn validate(&mut self, instance_id: &str, session_id: &str) -> (ok: bool)
        ensures
            ok ==> old(self).sessions().contains_key(session_id@) && old(self).sessions()[session_id@].0
                == instance_id@,
            !old(self).sessions().contains_key(session_id@) ==> !ok,
            exists|now: int|
                {
                    &&& ok == session_valid(old(self).sessions(), instance_id@, session_id@, now)
                    &&& session_expired(old(self).sessions(), instance_id@, session_id@, now)
                        ==> final(self).sessions() == old(self).sessions().remove(session_id@)
                        && final(self).pending_audit() == old(self).pending_audit().push(
                        final(self).pending_audit().last(),
                    ) && audit_is(
                        final(self).pending_audit().last(),
                        "cdp_session_expired"@,
                        instance_id@,
                        "CDP 会话过期（访问时惰性清理）"@,
                    )
                    &&& !session_expired(old(self).sessions(), instance_id@, session_id@, now)
                        ==> final(self).sessions() == old(self).sessions()
                        && final(self).pending_audit() == old(self).pending_audit()
                },
    {
        let now = now_ms();
        let ok = self.validate_at(instance_id, session_id, now);
        assert(ok == session_valid(old(self).sessions(), instance_id@, session_id@, now as int));
        ok
    }

    /// Drops every session (the API token was rotated); returns how many
    /// there were.
    pub fn clear_all(&mut self) -> (n: usize)
        ensures
            n == old(self).sessions().dom().len(),
            final(self).sessions() == Map::<Seq<char>, (Seq<char>, int)>::empty(),
            final(self).pending_audit() == old(self).pending_audit(),
    {
        proof {
            use_type_invariant(&*self);
            lemma_distinct_len(entries_view(self.sessions@));
        }
        let n = self.sessions.len();
        self.sessions = Vec::new();
        assert(entries_view(self.sessions@) =~= Seq::<(Seq<char>, (Seq<char>, int))>::empty());
        n
    }

    /// Removes every session expired at `now` and records
    /// `cdp_session_expired` for each; returns how many were removed.
    pub fn sweep_at(&mut self, now: i64) -> (n: usize)
        ensures
            final(self).sessions() == unexpired(old(self).sessions(), now as int),
            n == old(self).sessions().dom().len() - final(self).sessions().dom().len(),
            final(self).pending_audit().len() == old(self).pending_audit().len() + n,
            forall|j: int|
                old(self).pending_audit().len() <= j < final(self).pending_audit().len()
                    ==> (#[trigger] final(self).pending_audit()[j]).event@ == "cdp_session_expired"@,
            forall|j: int|
                0 <= j < old(self).pending_audit().len() ==> #[trigger] final(self).pending_audit()[j]
                    == old(self).pending_audit()[j],
    {
        proof {
            use_type_invariant(&*self);
        }
        let mut rows: Vec<(String, (String, i64))> = Vec::new();
        std::mem::swap(&mut rows, &mut self.sessions);
        let ghost p = entries_view(rows@);
        let ghost audit0 = self.pending_audit();
        let mut kept: Vec<(String, (String, i64))> = Vec::new();
        let mut removed: usize = 0;
        let mut i: usize = 0;
        assert(p.take(0) =~= Seq::<(Seq<char>, (Seq<char>, int))>::empty());
        assert(kv_map(entries_view(kept@)) =~= unexpired(kv_map(p.take(0)), now as int));
        while i < rows.len()
            invariant
                0 <= i <= rows.len(),
                p == entries_view(rows@),
                distinct_keys(p),
                distinct_keys(entries_view(kept@)),
                forall|a: int|
                    0 <= a < kept@.len() ==> exists|b: int|
                        0 <= b < i && #[trigger] entries_view(kept@)[a].0 == p[b].0,
                kv_map(entries_view(kept@)) == unexpired(kv_map(p.take(i as int)), now as int),
                kept@.len() + removed == i,
                self.pending_audit().len() == audit0.len() + removed,
                forall|j: int|
                    audit0.len() <= j < self.pending_audit().len() ==> (#[trigger] self.pending_audit()[j]).event@
                        == "cdp_session_expired"@,
                forall|j: int| 0 <= j < audit0.len() ==> #[trigger] self.pending_audit()[j] == audit0[j],
            decreases rows.len() - i,
        {
            let ghost before = kv_map(entries_view(kept@));
            let ghost t = p.take(i + 1);
            proof {
                assert(t.drop_last() =~= p.take(i as int));
                assert(t.last() == p[i as int]);
                lemma_kv_map_facts(p.take(i as int));
                assert(!kv_map(p.take(i as int)).contains_key(p[i as int].0)) by {
                    if kv_map(p.take(i as int)).contains_key(p[i as int].0) {
                        let b = choose|b: int|
                            0 <= b < p.take(i as int).len() && p.take(i as int)[b].0 == p[i as int].0;
                        assert(p[b].0 == p[i as int].0);
                    }
                }
            }
            if rows[i].1.1 > now {
                let e = (rows[i].0.clone(), (rows[i].1.0.clone(), rows[i].1.1));
                let ghost kp = entries_view(kept@);
                proof {
                    lemma_kv_map_facts(kp);
                    assert(!kv_map(kp).contains_key(p[i as int].0)) by {
                        if kv_map(kp).contains_key(p[i as int].0) {
                            let a = choose|a: int| 0 <= a < kp.len() && kp[a].0 == p[i as int].0;
                            let b = choose|b: int|
                                0 <= b < i && #[trigger] entries_view(kept@)[a].0 == p[b].0;
                            assert(p[b].0 == p[i as int].0);
                        }
                    }
                    lemma_kv_map_push(kp, p[i as int].0, p[i as int].1);
                }
                kept.push(e);
                proof {
                    assert(entries_view(kept@) =~= kp.push(p[i as int]));
                    assert(kv_map(entries_view(kept@)) =~= unexpired(kv_map(t), now as int));
                    assert forall|a: int| 0 <= a < kept@.len() implies exists|b: int|
                        0 <= b < i + 1 && #[trigger] entries_view(kept@)[a].0 == p[b].0 by {
                        if a < kp.len() {
                            assert(entries_view(kept@)[a] == kp[a]);
                            let b = choose|b: int| 0 <= b < i && #[trigger] kp[a].0 == p[b].0;
                            assert(entries_view(kept@)[a].0 == p[b].0);
                        } else {
                            assert(entries_view(kept@)[a].0 == p[i as int].0);
                        }
                    }
                }
            } else {
                let ev = audit_event(
                    "cdp_session_expired",
                    rows[i].1.0.as_str(),
                    "CDP 会话过期（sweeper 清扫）",
                );
                self.push_audit(ev);
                removed = removed + 1;
                proof {
                    assert(kv_map(entries_view(kept@)) =~= unexpired(kv_map(t), now as int));
                    assert forall|a: int| 0 <= a < kept@.len() implies exists|b: int|
                        0 <= b < i + 1 && #[trigger] entries_view(kept@)[a].0 == p[b].0 by {
                        let b = choose|b: int|
                            0 <= b < i && #[trigger] entries_view(kept@)[a].0 == p[b].0;
                    }
                }
            }
            i = i + 1;
        }
        assert(p.take(rows.len() as int) =~= p);
        proof {
            lemma_distinct_len(p);
            lemma_distinct_len(entries_view(kept@));
        }
        self.sessions = kept;
        removed
    }

    /// Removes every session expired now (the periodic sweep).
    pub fn sweep_once(&mut self) -> (n: usize)
        ensures
            n == old(self).sessions().dom().len() - final(self).sessions().dom().len(),
            forall|k: Seq<char>| #[trigger]
                final(self).sessions().contains_key(k) ==> old(self).sessions().contains_key(k)
                    && final(self).sessions()[k] == old(self).sessions()[k],
            exists|now: int| final(self).sessions() == #[trigger] unexpired(old(self).sessions(), now),
    {
        let now = now_ms();
        let n = self.sweep_at(now);
        assert(final(self).sessions() == unexpired(old(self).sessions(), now as int));
        n
    }
}

fn instance_id_event_created() -> (s: &'static str)
    ensures
        s@ == "cdp_session_created"@,
{
    "cdp_session_created"
}

/// A session granted at `now` is accepted for its instance until its
/// expiry and refused from then on, and never for another instance.
pub proof fn lemma_created_session_validity(
    m: Map<Seq<char>, (Seq<char>, int)>,
    instance: Seq<char>,
    other: Seq<char>,
    session: Seq<char>,
    now: int,
    later: int,
)
    requires
        other != instance,
    ensures
        session_valid(
            m.insert(session, (instance, now + SESSION_TTL_MS)),
            instance,
            session,
            later,
        ) <==> later < now + SESSION_TTL_MS,
        !session_valid(m.insert(session, (instance, now + SESSION_TTL_MS)), other, session, later),
{
}

/// A sweep keeps exactly the sessions still valid at its time.
pub proof fn lemma_sweep_keeps_valid(
    m: Map<Seq<char>, (Seq<char>, int)>,
    instance: Seq<char>,
    session: Seq<char>,
    now: int,
    later: int,
)
    requires
        later >= now,
    ensures
        session_valid(m, instance, session, later) ==> session_valid(
            unexpired(m, now),
            instance,
            session,
            later,
        ),
        unexpired(m, now).contains_key(session) ==> m.contains_key(session) && m[session].1 > now,
{
}

} // verus!
