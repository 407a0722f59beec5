//! Remote-access tunnel: one SSH reverse forward (remote 17890 → local
//! 17891), its command line, the cleaning of the user's SSH config, and the
//! decisions of its supervisor (states disabled / connecting / connected /
//! reconnecting; back-off 3/6/12/30 s, retried without end).
use vstd::prelude::*;
use vstd::string::StringExecFns;
use crate::server::domain::hosts::{all_digits, digit_value_of, digits_value};
use crate::text::{
    char_width, chars_eq, chars_of, eq_ignore_ascii_case, eq_ignore_case, join, join_chars,
    lemma_utf8_len_split, lemma_utf8_suffix_decreasing, push_str, split_chars, split_on,
    split_whitespace, str_to_string, string_from_chars, string_views, trim, trim_chars, utf8_len,
    utf8_longer_than, utf8_width, views, words,
};

verus! {

/// Forwarded port on the remote machine (same as the local API).
pub const REMOTE_PORT: u16 = 17890;

/// Local landing port of the tunnel (the authenticating listener).
pub const LOCAL_LANDING_PORT: u16 = 17891;

/// The `-R` forward; also the pattern that finds orphaned tunnels.
pub const FORWARD_SPEC: &'static str = "17890:127.0.0.1:17891";

/// A child alive this long counts as established (twice the connect
/// timeout).
pub const CONNECTED_GRACE_MS: i64 = 20_000;

/// Bytes of stderr kept for diagnosis.
pub const STDERR_RING_CAP: usize = 4096;

/// The stderr text of a remote bind failure (a stale remote sshd).
pub const STALE_SIGNATURE: &'static str = "remote port forwarding failed for listen port";

/// The fixed SSH options, in order.
pub open spec fn ssh_options() -> Seq<Seq<char>> {
    seq![
        "-N"@,
        "-o"@,
        "ExitOnForwardFailure=yes"@,
        "-o"@,
        "BatchMode=yes"@,
        "-o"@,
        "ConnectTimeout=10"@,
        "-o"@,
        "ServerAliveInterval=30"@,
        "-o"@,
        "ServerAliveCountMax=3"@,
        "-o"@,
        "StrictHostKeyChecking=accept-new"@,
    ]
}

/// The SSH arguments: `-F config` first when a cleaned config exists, the
/// fixed options, the one forward, and the target last.
pub open spec fn ssh_args(target: Seq<char>, config: Option<Seq<char>>) -> Seq<Seq<char>> {
    (match config {
        Some(c) => seq!["-F"@, c],
        None => Seq::empty(),
    }) + ssh_options() + seq!["-R"@, "17890:127.0.0.1:17891"@, target]
}

fn push_lit(v: &mut Vec<String>, s: &str)
    ensures
        string_views(final(v)@) == string_views(old(v)@).push(s@),
{
    v.push(str_to_string(s));
    assert(string_views(v@) =~= string_views(old(v)@).push(s@));
}

/// The SSH command line, without the program name; `config` is the path
/// of the cleaned SSH config, when there is one.
pub fn build_ssh_args(target: &str, config: Option<&str>) -> (args: Vec<String>)
    ensures
        string_views(args@) == ssh_args(
            target@,
            match config {
                Some(c) => Some(c@),
                None => None,
            },
        ),
{
    let mut args: Vec<String> = Vec::new();
    if let Some(path) = config {
        push_lit(&mut args, "-F");
        push_lit(&mut args, path);
    }
    let ghost head = string_views(args@);
    push_lit(&mut args, "-N");
    push_lit(&mut args, "-o");
    push_lit(&mut args, "ExitOnForwardFailure=yes");
    push_lit(&mut args, "-o");
    push_lit(&mut args, "BatchMode=yes");
    push_lit(&mut args, "-o");
    push_lit(&mut args, "ConnectTimeout=10");
    push_lit(&mut args, "-o");
    push_lit(&mut args, "ServerAliveInterval=30");
    push_lit(&mut args, "-o");
    push_lit(&mut args, "ServerAliveCountMax=3");
    push_lit(&mut args, "-o");
    push_lit(&mut args, "StrictHostKeyChecking=accept-new");
    push_lit(&mut args, "-R");
    push_lit(&mut args, FORWARD_SPEC);
    push_lit(&mut args, target);
    proof {
        reveal_strlit("17890:127.0.0.1:17891");
        assert(head =~= (match config {
            Some(c) => seq!["-F"@, c@],
            None => Seq::<Seq<char>>::empty(),
        }));
        assert(string_views(args@) =~= ssh_args(
            target@,
            match config {
                Some(c) => Some(c@),
                None => None,
            },
        ));
    }
    args
}

/// The lines of `text` as `str::lines` gives them: split at `\n`, a `\r`
/// before the `\n` dropped, and no empty last line after a final `\n`.
pub open spec fn text_lines(text: Seq<char>) -> Seq<Seq<char>> {
    let parts = split_on(text, '\n');
    let n = parts.len();
    let body = Seq::new(
        (n - 1) as nat,
        |i: int|
            if parts[i].len() > 0 && parts[i].last() == '\r' {
                parts[i].drop_last()
            } else {
                parts[i]
            },
    );
    if parts[n - 1].len() == 0 {
        body
    } else {
        body.push(parts[n - 1])
    }
}

/// A forwarding directive, whatever the case and indentation.
pub open spec fn is_forward_line(line: Seq<char>) -> bool {
    let w = words(line);
    w.len() > 0 && (eq_ignore_ascii_case(w[0], "RemoteForward"@) || eq_ignore_ascii_case(
        w[0],
        "LocalForward"@,
    ) || eq_ignore_ascii_case(w[0], "DynamicForward"@))
}

/// The lines that are not forwarding directives, in order.
pub open spec fn keep_lines(lines: Seq<Seq<char>>) -> Seq<Seq<char>>
    decreases lines.len(),
{
    if lines.len() == 0 {
        Seq::empty()
    } else if is_forward_line(lines.last()) {
        keep_lines(lines.drop_last())
    } else {
        keep_lines(lines.drop_last()).push(lines.last())
    }
}

fn forward_line(line: &[char]) -> (b: bool)
    ensures
        b == is_forward_line(line@),
{
    let w = split_whitespace(line);
    if w.len() == 0 {
        return false;
    }
    assert(views(w@)[0] == w@[0]@);
    eq_ignore_case(&w[0], "RemoteForward") || eq_ignore_case(&w[0], "LocalForward")
        || eq_ignore_case(&w[0], "DynamicForward")
}

/// The user's SSH config without its forwarding directives (`RemoteForward`,
/// `LocalForward`, `DynamicForward`, any case, any indentation); every other
/// line is kept as it is.
pub fn strip_forward_lines(text: &str) -> (r: String)
    ensures
        r@ == join(keep_lines(text_lines(text@)), "\n"@),
{
    let chars = chars_of(text);
    let parts = split_chars(&chars, '\n');
    let ghost ps = views(parts@);
    let ghost lines = text_lines(text@);
    proof {
        crate::text::lemma_split_on_nonempty(text@, '\n');
    }
    let n = parts.len();
    let count: usize = if parts[n - 1].len() == 0 {
        n - 1
    } else {
        n
    };
    assert(parts@[n - 1]@ == ps[n - 1]);
    assert(lines.len() == count);
    let mut kept: Vec<Vec<char>> = Vec::new();
    let mut i: usize = 0;
    assert(lines.take(0) =~= Seq::<Seq<char>>::empty());
    while i < count
        invariant
            0 <= i <= count,
            n == parts.len(),
            n >= 1,
            count <= n,
            ps == views(parts@),
            ps == split_on(text@, '\n'),
            lines == text_lines(text@),
            lines.len() == count,
            views(kept@) == keep_lines(lines.take(i as int)),
        decreases count - i,
    {
        let last = i + 1 == n;
        let part = &parts[i];
        assert(part@ == ps[i as int]);
        let line: Vec<char> = if !last && part.len() > 0 && part[part.len() - 1] == '\r' {
            crate::text::sub_chars(part, 0, part.len() - 1)
        } else {
            crate::text::copy_chars(part)
        };
        proof {
            if !last {
                assert(lines[i as int] == (if ps[i as int].len() > 0 && ps[i as int].last() == '\r' {
                    ps[i as int].drop_last()
                } else {
                    ps[i as int]
                }));
                if ps[i as int].len() > 0 && ps[i as int].last() == '\r' {
                    assert(line@ =~= ps[i as int].drop_last());
                }
            } else {
                assert(lines[i as int] == ps[i as int]);
            }
            assert(line@ == lines[i as int]);
            let t = lines.take(i + 1);
            assert(t.drop_last() =~= lines.take(i as int));
            assert(t.last() == lines[i as int]);
        }
        if !forward_line(&line) {
            let ghost prev = views(kept@);
            kept.push(line);
            assert(views(kept@) =~= prev.push(lines[i as int]));
        }
        i = i + 1;
    }
    assert(lines.take(lines.len() as int) =~= lines);
    let out = join_chars(&kept, "\n");
    string_from_chars(&out)
}

/// Back-off delays in seconds, capped at the last.
pub open spec fn backoff_secs_spec(idx: nat) -> u64 {
    if idx == 0 {
        3
    } else if idx == 1 {
        6
    } else if idx == 2 {
        12
    } else {
        30
    }
}

/// The back-off delay at step `idx` (3, 6, 12, then 30 s).
pub fn backoff_secs(idx: usize) -> (s: u64)
    ensures
        s == backoff_secs_spec(idx as nat),
{
    if idx == 0 {
        3
    } else if idx == 1 {
        6
    } else if idx == 2 {
        12
    } else {
        30
    }
}

/// The next back-off step, capped at the last delay.
pub fn next_backoff_index(idx: usize) -> (n: usize)
    ensures
        n == (if idx < 3 {
            idx + 1
        } else {
            3
        }),
{
    if idx < 3 {
        idx + 1
    } else {
        3
    }
}

/// Back-off never waits less than 3 s nor more than 30 s, and grows with
/// each step.
pub proof fn lemma_backoff_bounded(idx: nat, jdx: nat)
    ensures
        3 <= backoff_secs_spec(idx) <= 30,
        idx <= jdx ==> backoff_secs_spec(idx) <= backoff_secs_spec(jdx),
{
}

/// Configuration the supervisor converges to.
#[derive(Debug, Clone, PartialEq, Eq)]
pub struct Desired {
    pub enabled: bool,
    pub target: String,
    /// Bumped on each change; a new generation restarts the child.
    pub generation: u64,
}

impl Desired {
    /// Tunnel off, no target.
    pub fn new() -> (d: Desired)
        ensures
            !d.enabled,
            d.target@ == Seq::<char>::empty(),
            d.generation == 0,
    {
        Desired { enabled: false, target: String::new(), generation: 0 }
    }

    /// Applies a configuration: the same values change nothing; different
    /// ones are taken and the generation bumped.  Answers whether anything
    /// changed (the supervisor is then woken).
    pub fn apply(&mut self, enabled: bool, target: &str) -> (changed: bool)
        requires
            old(self).generation < u64::MAX,
        ensures
            changed == !(old(self).enabled == enabled && old(self).target@ == target@),
            final(self).enabled == enabled,
            final(self).target@ == target@,
            final(self).generation == (if changed {
                old(self).generation + 1
            } else {
                old(self).generation as int
            }),
    {
        let cur = chars_of(self.target.as_str());
        let new = chars_of(target);
        if self.enabled == enabled && chars_eq(&cur, &new) {
            return false;
        }
        self.enabled = enabled;
        self.target = str_to_string(target);
        self.generation = self.generation + 1;
        true
    }
}

/// Tunnel state as reported.
#[derive(Debug, Clone, PartialEq, Eq)]
pub struct TunnelStatus {
    pub enabled: bool,
    pub target: String,
    /// `disabled`, `connecting`, `connected` or `reconnecting`.
    pub state: String,
    pub last_error: Option<String>,
    /// When the current state was entered (epoch ms).
    pub since: i64,
    pub pid: Option<u32>,
    /// Reconnections in this enabled session.
    pub restarts: u32,
}

/// What the supervisor does next.
#[derive(Debug, Clone, Copy, PartialEq, Eq, Structural)]
pub enum SupervisorPlan {
    /// Shutting down: kill the child and stop.
    Exit,
    /// Disabled: kill the child, report `disabled`, wait for a change.
    Disable,
    /// New configuration (or restart after back-off): kill the old child,
    /// clean orphans, spawn a new one.
    Respawn,
    /// Watch the running child.
    Monitor,
}

/// The supervisor's memory between rounds.
#[derive(Debug, Clone, Copy, PartialEq, Eq, Structural)]
pub struct Supervisor {
    /// Generation the running child was started for (0: none).
    pub last_gen: u64,
    /// Last configuration generation applied; a change resets the back-off.
    pub config_seen: u64,
    /// Current back-off step.
    pub backoff_idx: usize,
}

impl Supervisor {
    /// Nothing started yet.
    pub fn new() -> (s: Supervisor)
        ensures
            s.last_gen == 0 && s.config_seen == 0 && s.backoff_idx == 0,
    {
        Supervisor { last_gen: 0, config_seen: 0, backoff_idx: 0 }
    }

    /// The next step: exit on shutdown, disable when off, respawn on a new
    /// generation, else monitor.
    pub fn plan(&self, shutdown: bool, desired: &Desired) -> (p: SupervisorPlan)
        ensures
            p == (if shutdown {
                SupervisorPlan::Exit
            } else if !desired.enabled {
                SupervisorPlan::Disable
            } else if desired.generation != self.last_gen {
                SupervisorPlan::Respawn
            } else {
                SupervisorPlan::Monitor
            }),
    {
        if shutdown {
            SupervisorPlan::Exit
        } else if !desired.enabled {
            SupervisorPlan::Disable
        } else if desired.generation != self.last_gen {
            SupervisorPlan::Respawn
        } else {
            SupervisorPlan::Monitor
        }
    }

    /// A child was spawned for `generation`: a restart driven by a new
    /// configuration starts the back-off afresh; a respawn after a crash
    /// keeps it growing.
    pub fn spawned(&mut self, generation: u64)
        ensures
            final(self).last_gen == generation,
            final(self).config_seen == generation,
            final(self).backoff_idx == (if generation != old(self).config_seen {
                0
            } else {
                old(self).backoff_idx as int
            }),
    {
        self.last_gen = generation;
        if generation != self.config_seen {
            self.config_seen = generation;
            self.backoff_idx = 0;
        }
    }

    /// The child could not be spawned, or died, or could not be probed:
    /// returns the delay to wait, advances the back-off and forces a
    /// respawn afterwards.
    pub fn failed(&mut self) -> (delay_secs: u64)
        ensures
            delay_secs == backoff_secs_spec(old(self).backoff_idx as nat),
            final(self).backoff_idx == (if old(self).backoff_idx < 3 {
                old(self).backoff_idx + 1
            } else {
                3
            }),
            final(self).last_gen == 0,
            final(self).config_seen == old(self).config_seen,
    {
        let delay = backoff_secs(self.backoff_idx);
        self.backoff_idx = next_backoff_index(self.backoff_idx);
        self.last_gen = 0;
        delay
    }
}

/// After enough failures in a row the wait settles at 30 s.
pub proof fn lemma_backoff_reaches_cap(idx: nat)
    requires
        idx >= 3,
    ensures
        backoff_secs_spec(idx) == 30,
        backoff_secs_spec(if idx < 3 {
            idx + 1
        } else {
            3
        }) == 30,
{
}

/// Whether a connecting child has lived long enough to count as connected.
pub fn should_mark_connected(state: &str, since: i64, now: i64) -> (b: bool)
    ensures
        b == (state@ == "connecting"@ && now - since >= CONNECTED_GRACE_MS),
{
    let s = chars_of(state);
    crate::text::eq_str(&s, "connecting") && (now as i128) - (since as i128) >= CONNECTED_GRACE_MS as i128
}

/// `sub` occurs in `s`.
pub open spec fn contains_seq(s: Seq<char>, sub: Seq<char>) -> bool {
    exists|i: int| 0 <= i && i + sub.len() <= s.len() && #[trigger] s.subrange(i, i + sub.len()) == sub
}

fn occurs_at(s: &[char], sub: &[char], at: usize) -> (b: bool)
    requires
        at + sub.len() <= s.len(),
    ensures
        b == (s@.subrange(at as int, at + sub.len()) == sub@),
{
    let mut j: usize = 0;
    while j < sub.len()
        invariant
            at + sub.len() <= s.len(),
            0 <= j <= sub.len(),
            forall|k: int| 0 <= k < j ==> s@[at + k] == sub@[k],
        decreases sub.len() - j,
    {
        if s[at + j] != sub[j] {
            assert(s@.subrange(at as int, at + sub.len())[j as int] != sub@[j as int]);
            return false;
        }
        j = j + 1;
    }
    assert(s@.subrange(at as int, at + sub.len()) =~= sub@);
    true
}

/// Whether `sub` occurs in `s`.
pub fn contains_chars(s: &[char], sub: &[char]) -> (b: bool)
    ensures
        b == contains_seq(s@, sub@),
{
    if sub.len() > s.len() {
        return false;
    }
    if sub.len() == 0 {
        assert(s@.subrange(0int, 0int + sub@.len()) =~= sub@);
        return true;
    }
    let mut i: usize = 0;
    while i <= s.len() - sub.len()
        invariant
            0 < sub.len() <= s.len(),
            0 <= i <= s.len() - sub.len() + 1,
            forall|k: int|
                0 <= k < i ==> #[trigger] s@.subrange(k, k + sub.len()) != sub@,
        decreases s.len() - i,
    {
        if occurs_at(s, sub, i) {
            return true;
        }
        i = i + 1;
    }
    false
}

/// The error shown after the child exited: its stderr tail, or a generic
/// line naming the target when stderr was empty.
pub fn exit_error(tail: &str, target: &str) -> (e: String)
    ensures
        tail@.len() == 0 ==> e@ == "ssh 进程退出（目标 "@ + target@ + "）"@,
        tail@.len() > 0 ==> e@ == tail@,
{
    let t = chars_of(tail);
    if t.len() == 0 {
        let mut buf: Vec<char> = Vec::new();
        push_str(&mut buf, "ssh 进程退出（目标 ");
        push_str(&mut buf, target);
        push_str(&mut buf, "）");
        string_from_chars(&buf)
    } else {
        str_to_string(tail)
    }
}

/// Most UTF-8 bytes of the stderr tail kept as the last error.
pub const STDERR_TAIL_MAX: usize = 500;

/// `b` without its oldest bytes beyond `cap`.
pub open spec fn keep_last(b: Seq<u8>, cap: nat) -> Seq<u8> {
    if b.len() > cap {
        b.skip(b.len() - cap)
    } else {
        b
    }
}

/// The text `String::from_utf8_lossy` makes of these bytes.
pub uninterp spec fn utf8_lossy(bytes: Seq<u8>) -> Seq<char>;

/// `String::from_utf8_lossy`: the bytes as text, each invalid sequence
/// replaced by U+FFFD; a function of the bytes alone.
#[verifier::external_body]
fn lossy_text(bytes: &[u8]) -> (s: String)
    ensures
        s@ == utf8_lossy(bytes@),
{
    String::from_utf8_lossy(bytes).into_owned()
}

/// Whether the last `max` UTF-8 bytes of `text` begin on a character
/// boundary (or `text` is no longer than that).
pub open spec fn cut_ok(text: Seq<char>, max: nat) -> bool {
    utf8_len(text) <= max || exists|k: int| 0 <= k <= text.len() && #[trigger] utf8_len(text.skip(k)) == max
}

/// The last `max` UTF-8 bytes of `text`, all of it when no longer; meant
/// where [`cut_ok`] holds.
pub open spec fn byte_tail(text: Seq<char>, max: nat) -> Seq<char> {
    if utf8_len(text) <= max {
        text
    } else {
        text.skip(choose|k: int| 0 <= k <= text.len() && #[trigger] utf8_len(text.skip(k)) == max)
    }
}

/// Where the last `max` bytes of `v` begin, or `None` when that is inside a
/// character.
fn find_cut(v: &[char], max: usize) -> (r: Option<usize>)
    requires
        utf8_len(v@) > max,
        max <= STDERR_TAIL_MAX,
    ensures
        r matches Some(k) ==> k <= v@.len() && utf8_len(v@.skip(k as int)) == max,
        r is None ==> !cut_ok(v@, max as nat),
{
    let mut i: usize = v.len();
    let mut acc: usize = 0;
    assert(v@.skip(i as int) =~= Seq::<char>::empty());
    while i > 0 && acc < max
        invariant
            0 <= i <= v@.len(),
            acc == utf8_len(v@.skip(i as int)),
            acc <= max + 4,
            max <= STDERR_TAIL_MAX,
            utf8_len(v@) > max,
            i < v@.len() ==> utf8_len(v@.skip(i + 1)) < max,
        decreases i,
    {
        let w = char_width(v[i - 1]);
        proof {
            let t = v@.skip(i - 1);
            lemma_utf8_len_split(t, 1);
            assert(t.skip(1) =~= v@.skip(i as int));
            let c = seq![v@[i - 1]];
            assert(t.take(1) =~= c);
            assert(c.drop_last() =~= Seq::<char>::empty());
            assert(utf8_len(Seq::<char>::empty()) == 0);
            assert(c.last() == v@[i - 1]);
            assert(utf8_len(c) == utf8_len(c.drop_last()) + utf8_width(c.last()));
            assert(utf8_len(c) == utf8_width(v@[i - 1]));
        }
        acc = acc + w;
        i = i - 1;
    }
    if acc == max {
        return Some(i);
    }
    proof {
        if i == 0 {
            assert(v@.skip(0) =~= v@);
        }
        assert(acc > max);
        assert forall|k: int| 0 <= k <= v@.len() implies #[trigger] utf8_len(v@.skip(k)) != max by {
            if k < i {
                lemma_utf8_suffix_decreasing(v@, k, i as int);
            } else if k > i + 1 {
                lemma_utf8_suffix_decreasing(v@, i + 1, k);
            }
        }
    }
    None
}

/// The last 500 UTF-8 bytes of `text` (all of it when shorter), which must
/// begin on a character boundary.
pub fn stderr_tail(text: &str) -> (r: String)
    requires
        cut_ok(text@, STDERR_TAIL_MAX as nat),
    ensures
        r@ == byte_tail(text@, STDERR_TAIL_MAX as nat),
{
    let v = chars_of(text);
    if !utf8_longer_than(&v, STDERR_TAIL_MAX) {
        return str_to_string(text);
    }
    match find_cut(&v, STDERR_TAIL_MAX) {
        Some(k) => {
            proof {
                let k0 = choose|k: int| 0 <= k <= v@.len() && #[trigger] utf8_len(v@.skip(k)) == 500;
                if k0 < k {
                    lemma_utf8_suffix_decreasing(v@, k0, k as int);
                } else if k0 > k {
                    lemma_utf8_suffix_decreasing(v@, k as int, k0);
                }
            }
            let mut out: Vec<char> = Vec::new();
            let mut j: usize = k;
            while j < v.len()
                invariant
                    k <= j <= v@.len(),
                    out@ == v@.subrange(k as int, j as int),
                decreases v.len() - j,
            {
                out.push(v[j]);
                assert(v@.subrange(k as int, j + 1) =~= v@.subrange(k as int, j as int).push(v@[j as int]));
                j = j + 1;
            }
            assert(v@.subrange(k as int, v@.len() as int) =~= v@.skip(k as int));
            string_from_chars(&out)
        },
        None => {
            proof {
                assert(false);
            }
            String::new()
        },
    }
}

/// The tail of the child's stderr, kept for diagnosis: at most
/// `STDERR_RING_CAP` bytes, the newest.
#[derive(Debug)]
pub struct StderrRing {
    bytes: Vec<u8>,
}

impl StderrRing {
    #[verifier::type_invariant]
    spec fn inv(self) -> bool {
        self.bytes@.len() <= STDERR_RING_CAP
    }

    /// The kept bytes, oldest first.
    pub closed spec fn contents(self) -> Seq<u8> {
        self.bytes@
    }

    /// Nothing kept.
    pub fn new() -> (r: Self)
        ensures
            r.contents() == Seq::<u8>::empty(),
    {
        StderrRing { bytes: Vec::new() }
    }

    /// Number of bytes kept.
    pub fn len(&self) -> (n: usize)
        ensures
            n == self.contents().len(),
    {
        self.bytes.len()
    }

    /// Forgets everything (a new child starts).
    pub fn clear(&mut self)
        ensures
            final(self).contents() == Seq::<u8>::empty(),
    {
        self.bytes = Vec::new();
    }

    /// Appends one read of at most `STDERR_RING_CAP` bytes, dropping the
    /// oldest bytes beyond the capacity.
    pub fn push(&mut self, chunk: &[u8])
        requires
            chunk@.len() <= STDERR_RING_CAP,
        ensures
            final(self).contents() == keep_last(old(self).contents() + chunk@, STDERR_RING_CAP as nat),
    {
        proof {
            use_type_invariant(&*self);
        }
        let n = self.bytes.len();
        let m = chunk.len();
        let start: usize = if n + m > STDERR_RING_CAP {
            n + m - STDERR_RING_CAP
        } else {
            0
        };
        let mut out: Vec<u8> = Vec::new();
        let mut i: usize = start;
        while i < n
            invariant
                start <= i <= n,
                n == self.bytes@.len(),
                out@ == self.bytes@.subrange(start as int, i as int),
            decreases n - i,
        {
            out.push(self.bytes[i]);
            assert(self.bytes@.subrange(start as int, i + 1) =~= self.bytes@.subrange(
                start as int,
                i as int,
            ).push(self.bytes@[i as int]));
            i = i + 1;
        }
        let mut j: usize = 0;
        while j < m
            invariant
                0 <= j <= m,
                m == chunk@.len(),
                start <= n,
                n == self.bytes@.len(),
                out@ == self.bytes@.subrange(start as int, n as int) + chunk@.take(j as int),
            decreases m - j,
        {
            out.push(chunk[j]);
            assert(chunk@.take(j + 1) =~= chunk@.take(j as int).push(chunk@[j as int]));
            j = j + 1;
        }
        proof {
            let all = self.bytes@ + chunk@;
            assert(chunk@.take(m as int) =~= chunk@);
            if n + m > STDERR_RING_CAP {
                assert(all.skip(all.len() - STDERR_RING_CAP) =~= out@);
            } else {
                assert(self.bytes@.subrange(0, n as int) =~= self.bytes@);
                assert(all =~= out@);
            }
        }
        self.bytes = out;
    }

    /// The text of the kept bytes, blanks trimmed.
    pub open spec fn text(self) -> Seq<char> {
        trim(utf8_lossy(self.contents()))
    }

    /// Takes the tail for the last error: the kept bytes as text, trimmed,
    /// cut to their last 500 bytes (which must begin on a character
    /// boundary); nothing is kept afterwards.
    pub fn take_tail(&mut self) -> (r: String)
        requires
            cut_ok(old(self).text(), STDERR_TAIL_MAX as nat),
        ensures
            r@ == byte_tail(old(self).text(), STDERR_TAIL_MAX as nat),
            final(self).contents() == Seq::<u8>::empty(),
    {
        let raw = lossy_text(self.bytes.as_slice());
        let c = chars_of(raw.as_str());
        let t = trim_chars(&c);
        let text = string_from_chars(&t);
        let tail = stderr_tail(text.as_str());
        self.bytes = Vec::new();
        tail
    }

    /// [`Self::take_tail`] where the cut falls on a character boundary;
    /// `None` (nothing kept either way) where it would split a character.
    pub fn take_tail_checked(&mut self) -> (r: Option<String>)
        ensures
            r is Some <==> cut_ok(old(self).text(), STDERR_TAIL_MAX as nat),
            r matches Some(s) ==> s@ == byte_tail(old(self).text(), STDERR_TAIL_MAX as nat),
            final(self).contents() == Seq::<u8>::empty(),
    {
        let raw = lossy_text(self.bytes.as_slice());
        let c = chars_of(raw.as_str());
        let t = trim_chars(&c);
        if utf8_longer_than(&t, STDERR_TAIL_MAX) {
            match find_cut(&t, STDERR_TAIL_MAX) {
                Some(_) => {},
                None => {
                    self.bytes = Vec::new();
                    return None;
                },
            }
        }
        Some(self.take_tail())
    }
}

/// `str::parse::<u32>`: an optional `+`, then one or more ASCII digits
/// whose value fits in 32 bits.
pub open spec fn parsed_u32(p: Seq<char>) -> Option<u32> {
    let d = if p.len() > 0 && p[0] == '+' {
        p.drop_first()
    } else {
        p
    };
    if d.len() > 0 && all_digits(d) && digits_value(d) <= u32::MAX {
        Some(digits_value(d) as u32)
    } else {
        None
    }
}

/// `p` parsed as a `u32`, as `str::parse::<u32>` does.
pub fn parse_u32(p: &[char]) -> (r: Option<u32>)
    ensures
        r == parsed_u32(p@),
{
    let start: usize = if p.len() > 0 && p[0] == '+' {
        1
    } else {
        0
    };
    let ghost d = if p@.len() > 0 && p@[0] == '+' {
        p@.drop_first()
    } else {
        p@
    };
    assert(d =~= p@.skip(start as int));
    if start == p.len() {
        return None;
    }
    let mut acc: u64 = 0;
    let mut i: usize = start;
    assert(d.take(0) =~= Seq::<char>::empty());
    while i < p.len()
        invariant
            start <= i <= p.len(),
            d == p@.skip(start as int),
            d == (if p@.len() > 0 && p@[0] == '+' {
                p@.drop_first()
            } else {
                p@
            }),
            all_digits(d.take(i - start)),
            acc == (if digits_value(d.take(i - start)) <= u32::MAX {
                digits_value(d.take(i - start)) as int
            } else {
                u32::MAX + 1
            }),
        decreases p.len() - i,
    {
        let c = p[i];
        if !('0' <= c && c <= '9') {
            assert(d[i - start] == c);
            assert(!all_digits(d));
            return None;
        }
        let dv = digit_value_of(c) as u64;
        proof {
            let t = d.take(i - start + 1);
            assert(t.drop_last() =~= d.take(i - start));
            assert(t.last() == c);
            assert(digits_value(t) == digits_value(d.take(i - start)) * 10 + dv);
            assert forall|j: int| 0 <= j < t.len() implies '0' <= #[trigger] t[j] && t[j] <= '9' by {
                if j < t.len() - 1 {
                    assert(t[j] == d.take(i - start)[j]);
                }
            }
        }
        acc = if acc * 10 + dv > 0xFFFF_FFFFu64 {
            0x1_0000_0000u64
        } else {
            acc * 10 + dv
        };
        i = i + 1;
    }
    assert(d.take(p.len() - start) =~= d);
    if acc <= 0xFFFF_FFFFu64 {
        Some(acc as u32)
    } else {
        None
    }
}

/// The pids among the words printed by `pgrep -f`: each word that parses
/// as a `u32`, in order.
pub open spec fn pids_of(ws: Seq<Seq<char>>) -> Seq<u32>
    decreases ws.len(),
{
    if ws.len() == 0 {
        Seq::empty()
    } else {
        match parsed_u32(ws.last()) {
            Some(n) => pids_of(ws.drop_last()).push(n),
            None => pids_of(ws.drop_last()),
        }
    }
}

/// The candidate orphans of a `pgrep -f` run over the forward spec: the
/// whitespace-separated words of its output that parse as pids.
pub fn orphan_pids(pgrep_out: &str) -> (r: Vec<u32>)
    ensures
        r@ == pids_of(words(pgrep_out@)),
{
    let c = chars_of(pgrep_out);
    let ws = split_whitespace(&c);
    let mut out: Vec<u32> = Vec::new();
    let mut i: usize = 0;
    assert(views(ws@).take(0) =~= Seq::<Seq<char>>::empty());
    while i < ws.len()
        invariant
            0 <= i <= ws@.len(),
            views(ws@) == words(pgrep_out@),
            out@ == pids_of(views(ws@).take(i as int)),
        decreases ws.len() - i,
    {
        let ghost t = views(ws@).take(i + 1);
        assert(t.drop_last() =~= views(ws@).take(i as int));
        assert(t.last() == ws@[i as int]@);
        match parse_u32(&ws[i]) {
            Some(n) => {
                out.push(n);
            },
            None => {},
        }
        i = i + 1;
    }
    assert(views(ws@).take(ws@.len() as int) =~= views(ws@));
    out
}

/// Whether `ps -o comm=` named an `ssh` process (blanks around ignored):
/// only those are terminated as orphans.
pub fn is_ssh_comm(comm_out: &str) -> (b: bool)
    ensures
        b == (trim(comm_out@) == "ssh"@),
{
    let c = chars_of(comm_out);
    let t = trim_chars(&c);
    crate::text::eq_str(&t, "ssh")
}

/// Whether the stderr tail shows a remote bind failure (a stale sshd to
/// clean up on the remote side).
pub fn needs_stale_cleanup(tail: &str) -> (b: bool)
    ensures
        b == contains_seq(tail@, STALE_SIGNATURE@),
{
    let t = chars_of(tail);
    let sig = chars_of(STALE_SIGNATURE);
    contains_chars(&t, &sig)
}

/// The reported state of the tunnel.
#[derive(Debug, Clone, PartialEq, Eq)]
pub struct Current {
    pub state: String,
    pub last_error: Option<String>,
    pub since: i64,
    pub pid: Option<u32>,
    pub restarts: u32,
}

impl Current {
    /// Enters `state` at `now`; a failure counts one more restart (the
    /// counter stops at its maximum).  Returns the change message when the
    /// state differs from the previous one.
    pub fn set_state(
        &mut self,
        state: &str,
        now: i64,
        pid: Option<u32>,
        error: Option<String>,
        inc_restarts: bool,
    ) -> (msg: Option<String>)
        ensures
            final(self).state@ == state@,
            final(self).since == now,
            final(self).pid == pid,
            final(self).last_error == error,
            final(self).restarts == (if inc_restarts && old(self).restarts < u32::MAX {
                old(self).restarts + 1
            } else {
                old(self).restarts as int
            }),
            (old(self).state@ == state@) <==> msg is None,
            msg matches Some(m) ==> m@ == "隧道状态: "@ + old(self).state@ + " → "@ + state@,
    {
        let prev = self.state.clone();
        self.state = str_to_string(state);
        self.since = now;
        self.pid = pid;
        self.last_error = error;
        if inc_restarts && self.restarts < u32::MAX {
            self.restarts = self.restarts + 1;
        }
        let p = chars_of(prev.as_str());
        let n = chars_of(state);
        if chars_eq(&p, &n) {
            None
        } else {
            let mut buf: Vec<char> = Vec::new();
            push_str(&mut buf, "隧道状态: ");
            push_str(&mut buf, prev.as_str());
            push_str(&mut buf, " → ");
            push_str(&mut buf, state);
            Some(string_from_chars(&buf))
        }
    }
}

/// Why the tunnel's child was lost.
#[derive(Debug, Clone, PartialEq, Eq)]
pub enum TunnelFailure {
    /// `ssh` could not be started (the spawn error's text).
    SpawnFailed(String),
    /// The child exited; its stderr tail (possibly empty).
    Exited(String),
    /// The child's state could not be queried (the error's text).
    ProbeFailed(String),
}

/// The last error reported for a failure.
pub open spec fn failure_message(f: TunnelFailure, target: Seq<char>) -> Seq<char> {
    match f {
        TunnelFailure::SpawnFailed(e) => "ssh 启动失败: "@ + e@,
        TunnelFailure::Exited(tail) => if tail@.len() == 0 {
            "ssh 进程退出（目标 "@ + target + "）"@
        } else {
            tail@
        },
        TunnelFailure::ProbeFailed(e) => "ssh 状态探测失败: "@ + e@,
    }
}

/// The error text of a failure (see [`failure_message`]).
pub fn failure_text(f: &TunnelFailure, target: &str) -> (e: String)
    ensures
        e@ == failure_message(*f, target@),
{
    match f {
        TunnelFailure::SpawnFailed(err) => {
            let mut buf: Vec<char> = Vec::new();
            push_str(&mut buf, "ssh 启动失败: ");
            push_str(&mut buf, err.as_str());
            string_from_chars(&buf)
        },
        TunnelFailure::Exited(tail) => exit_error(tail.as_str(), target),
        TunnelFailure::ProbeFailed(err) => {
            let mut buf: Vec<char> = Vec::new();
            push_str(&mut buf, "ssh 状态探测失败: ");
            push_str(&mut buf, err.as_str());
            string_from_chars(&buf)
        },
    }
}

impl Current {
    /// A lost child, whatever the cause: the tunnel reports `reconnecting`
    /// from `now`, with no pid, the failure's text as last error, and one
    /// more restart counted (the counter stops at its maximum).  Returns
    /// the change message when the state was not already `reconnecting`.
    pub fn failure(&mut self, f: &TunnelFailure, target: &str, now: i64) -> (msg: Option<String>)
        ensures
            final(self).state@ == "reconnecting"@,
            final(self).since == now,
            final(self).pid is None,
            final(self).last_error matches Some(e) && e@ == failure_message(*f, target@),
            final(self).restarts == (if old(self).restarts < u32::MAX {
                old(self).restarts + 1
            } else {
                old(self).restarts as int
            }),
            (old(self).state@ == "reconnecting"@) <==> msg is None,
            msg matches Some(m) ==> m@ == "隧道状态: "@ + old(self).state@ + " → "@
                + "reconnecting"@,
    {
        let err = failure_text(f, target);
        self.set_state("reconnecting", now, None, Some(err), true)
    }
}

/// One failure round of the supervisor: the status reports it and the
/// back-off advances.  Returns the delay before the next spawn and the
/// state-change message, if any.
pub fn on_failure(
    sup: &mut Supervisor,
    cur: &mut Current,
    f: &TunnelFailure,
    target: &str,
    now: i64,
) -> (r: (u64, Option<String>))
    ensures
        r.0 == backoff_secs_spec(old(sup).backoff_idx as nat),
        final(sup).backoff_idx == (if old(sup).backoff_idx < 3 {
            old(sup).backoff_idx + 1
        } else {
            3
        }),
        final(sup).last_gen == 0,
        final(sup).config_seen == old(sup).config_seen,
        final(cur).state@ == "reconnecting"@,
        final(cur).since == now,
        final(cur).pid is None,
        final(cur).last_error matches Some(e) && e@ == failure_message(*f, target@),
        final(cur).restarts == (if old(cur).restarts < u32::MAX {
            old(cur).restarts + 1
        } else {
            old(cur).restarts as int
        }),
        (old(cur).state@ == "reconnecting"@) <==> r.1 is None,
{
    let msg = cur.failure(f, target, now);
    let delay = sup.failed();
    (delay, msg)
}

} // verus!
