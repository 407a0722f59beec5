//! Host resolution rules parsed from hosts-format text.
//!
//! Parsing rules:
//! - everything after `#` on a line is a comment;
//! - each line is `IP host1 host2 ...`; lines with fewer than two fields are skipped;
//! - an IP is valid when it holds `:` (taken as IPv6) or is dotted IPv4;
//! - loopback/system addresses and system host names are dropped;
//! - host names are lower-cased, and a later line overrides an earlier one.
use vstd::prelude::*;
use crate::text::{
    before, chars_eq, chars_of, contains_char, copy_chars, eq_str, join, join_chars,
    push_chars, push_str, split_chars, split_whitespace, starts_with, starts_with_str,
    string_from_chars, to_lowercase, views, before_char, chars_less, chars_lt, lemma_chars_lt_irreflexive,
    lemma_chars_lt_total, lemma_chars_lt_transitive, lemma_split_on_join, lowercase, split_on, words,
};

verus! {

/// Key/value pairs as plain character sequences.
pub open spec fn pairs_view(v: Seq<(Vec<char>, Vec<char>)>) -> Seq<(Seq<char>, Seq<char>)> {
    v.map_values(|e: (Vec<char>, Vec<char>)| (e.0@, e.1@))
}

/// The map a sequence of pairs denotes when inserted in order.
pub open spec fn pairs_map(p: Seq<(Seq<char>, Seq<char>)>) -> Map<Seq<char>, Seq<char>>
    decreases p.len(),
{
    if p.len() == 0 {
        Map::empty()
    } else {
        pairs_map(p.drop_last()).insert(p.last().0, p.last().1)
    }
}

/// Keys strictly increasing in code-point order.
pub open spec fn keys_sorted(p: Seq<(Seq<char>, Seq<char>)>) -> bool {
    forall|i: int, j: int| 0 <= i < j < p.len() ==> chars_lt(#[trigger] p[i].0, #[trigger] p[j].0)
}

pub proof fn lemma_pairs_map_facts(p: Seq<(Seq<char>, Seq<char>)>)
    ensures
        forall|k: Seq<char>|
            #![trigger pairs_map(p).contains_key(k)]
            pairs_map(p).contains_key(k) <==> exists|i: int| 0 <= i < p.len() && p[i].0 == k,
        forall|i: int|
            0 <= i < p.len() && (forall|j: int| i < j < p.len() ==> p[j].0 != p[i].0)
                ==> #[trigger] pairs_map(p)[p[i].0] == p[i].1,
    decreases p.len(),
{
    if p.len() > 0 {
        let q = p.drop_last();
        let last = p.last();
        lemma_pairs_map_facts(q);
        assert forall|k: Seq<char>|
            #![trigger pairs_map(p).contains_key(k)]
            pairs_map(p).contains_key(k) <==> exists|i: int| 0 <= i < p.len() && p[i].0 == k by {
            if pairs_map(p).contains_key(k) {
                if k == last.0 {
                    assert(p[p.len() - 1].0 == k);
                } else {
                    assert(pairs_map(q).contains_key(k));
                    let i = choose|i: int| 0 <= i < q.len() && q[i].0 == k;
                    assert(q[i] == p[i]);
                    assert(p[i].0 == k);
                }
            }
            if exists|i: int| 0 <= i < p.len() && p[i].0 == k {
                let i = choose|i: int| 0 <= i < p.len() && p[i].0 == k;
                if i < p.len() - 1 {
                    assert(q[i] == p[i]);
                    assert(q[i].0 == k);
                    assert(pairs_map(q).contains_key(k));
                } else {
                    assert(k == last.0);
                }
            }
        }
        assert forall|i: int|
            0 <= i < p.len() && (forall|j: int| i < j < p.len() ==> p[j].0 != p[i].0)
                implies #[trigger] pairs_map(p)[p[i].0] == p[i].1 by {
            if i < p.len() - 1 {
                assert(p[p.len() - 1].0 != p[i].0);
                assert(q[i] == p[i]);
                assert forall|j: int| i < j < q.len() implies q[j].0 != q[i].0 by {
                    assert(q[j] == p[j]);
                    assert(p[j].0 != p[i].0);
                }
                assert(pairs_map(q)[q[i].0] == q[i].1);
            }
        }
    }
}

/// With strictly sorted keys, every pair is the last one with its key.
pub proof fn lemma_sorted_lookup(p: Seq<(Seq<char>, Seq<char>)>, i: int)
    requires
        keys_sorted(p),
        0 <= i < p.len(),
    ensures
        pairs_map(p).contains_key(p[i].0),
        pairs_map(p)[p[i].0] == p[i].1,
{
    lemma_pairs_map_facts(p);
    assert forall|j: int| i < j < p.len() implies p[j].0 != p[i].0 by {
        assert(chars_lt(p[i].0, p[j].0));
        lemma_chars_lt_irreflexive(p[i].0);
    }
}

/// Host names that are never redirected.
pub open spec fn is_system_hostname(h: Seq<char>) -> bool {
    h == "localhost"@ || h == "broadcasthost"@ || h == "ip6-localhost"@ || h == "ip6-loopback"@
}

/// `d` is a non-empty run of ASCII digits.
pub open spec fn all_digits(d: Seq<char>) -> bool {
    forall|i: int| 0 <= i < d.len() ==> '0' <= #[trigger] d[i] && d[i] <= '9'
}

/// The value of a run of ASCII digits.
pub open spec fn digits_value(d: Seq<char>) -> nat
    decreases d.len(),
{
    if d.len() == 0 {
        0
    } else {
        digits_value(d.drop_last()) * 10 + ((d.last() as int - '0' as int) as nat)
    }
}

/// Whether `p` parses as a `u16` (`str::parse::<u16>`): an optional `+`,
/// then one or more ASCII digits whose value is at most 65535.
pub open spec fn parses_as_u16(p: Seq<char>) -> bool {
    let d = if p.len() > 0 && p[0] == '+' {
        p.drop_first()
    } else {
        p
    };
    d.len() > 0 && all_digits(d) && digits_value(d) <= 65535
}

/// IP validity: anything holding `:` (IPv6, not checked further), or four
/// dot-separated non-empty fields that each parse as `u16`.
pub open spec fn valid_ip(v: Seq<char>) -> bool {
    if v.contains(':') {
        true
    } else {
        let parts = split_on(v, '.');
        parts.len() == 4 && forall|i: int|
            0 <= i < 4 ==> (#[trigger] parts[i]).len() > 0 && parses_as_u16(parts[i])
    }
}

/// Loopback, unspecified, broadcast and link-local addresses.
pub open spec fn system_ip(ip: Seq<char>) -> bool {
    ||| ip == "::1"@
    ||| ip == "0.0.0.0"@
    ||| ip == "255.255.255.255"@
    ||| starts_with(ip, "127."@)
    ||| starts_with(ip, "fe80:"@)
}

/// Adds the hosts of one line, each lower-cased, all mapped to `ip`.
pub open spec fn add_hosts(
    m: Map<Seq<char>, Seq<char>>,
    ip: Seq<char>,
    hosts: Seq<Seq<char>>,
) -> Map<Seq<char>, Seq<char>>
    decreases hosts.len(),
{
    if hosts.len() == 0 {
        m
    } else {
        let prev = add_hosts(m, ip, hosts.drop_last());
        let h = lowercase(hosts.last());
        if h.len() > 0 && !is_system_hostname(h) {
            prev.insert(h, ip)
        } else {
            prev
        }
    }
}

/// The effect of one line of hosts text.
pub open spec fn add_line(m: Map<Seq<char>, Seq<char>>, line: Seq<char>) -> Map<
    Seq<char>,
    Seq<char>,
> {
    let parts = words(before(line, '#'));
    if parts.len() >= 2 && valid_ip(parts[0]) && !system_ip(parts[0]) {
        add_hosts(m, parts[0], parts.drop_first())
    } else {
        m
    }
}

/// The effect of a sequence of lines, in order.
pub open spec fn add_lines(lines: Seq<Seq<char>>) -> Map<Seq<char>, Seq<char>>
    decreases lines.len(),
{
    if lines.len() == 0 {
        Map::empty()
    } else {
        add_line(add_lines(lines.drop_last()), lines.last())
    }
}

/// The rules that hosts-format `text` describes.
pub open spec fn parsed_rules(text: Seq<char>) -> Map<Seq<char>, Seq<char>> {
    add_lines(split_on(text, '\n'))
}

/// `MAP host ip`, one resolver rule.
pub open spec fn resolver_rule(e: (Seq<char>, Seq<char>)) -> Seq<char> {
    "MAP "@ + e.0 + " "@ + e.1
}

/// The rules in order, joined by `, `.
pub open spec fn resolver_rules_text(p: Seq<(Seq<char>, Seq<char>)>) -> Seq<char> {
    join(p.map_values(|e: (Seq<char>, Seq<char>)| resolver_rule(e)), ", "@)
}

/// JSON text of a string-to-string object with these entries in this order,
/// as `serde_json::to_string` writes a `BTreeMap<String, String>`.
pub uninterp spec fn json_string_map(entries: Seq<(Seq<char>, Seq<char>)>) -> Seq<char>;

/// `serde_json::to_string` on the string map with these entries; the text it
/// returns is a function of the entries alone.  Its documentation names two
/// causes of failure, a `Serialize` impl that decides to fail and a map with
/// non-string keys; a map of strings to strings has neither, so the call
/// succeeds.
#[verifier::external_body]
fn string_map_json(entries: &Vec<(Vec<char>, Vec<char>)>) -> (r: Option<String>)
    ensures
        r is Some,
        r->0@ == json_string_map(pairs_view(entries@)),
{
    let map: std::collections::BTreeMap<String, String> = entries.iter().map(
        |e| (e.0.iter().collect(), e.1.iter().collect()),
    ).collect();
    serde_json::to_string(&map).ok()
}

/// Host rules: a map from lower-case host name to IP, kept sorted by host.
#[derive(Debug)]
pub struct HostRules {
    entries: Vec<(Vec<char>, Vec<char>)>,
}

impl HostRules {
    #[verifier::type_invariant]
    spec fn inv(self) -> bool {
        keys_sorted(pairs_view(self.entries@))
    }

    /// The entries in ascending host order.
    pub closed spec fn pairs(self) -> Seq<(Seq<char>, Seq<char>)> {
        pairs_view(self.entries@)
    }

    /// Host name to IP.
    pub open spec fn rules(self) -> Map<Seq<char>, Seq<char>> {
        pairs_map(self.pairs())
    }

    /// No rules.
    pub fn new() -> (r: Self)
        ensures
            r.rules() == Map::<Seq<char>, Seq<char>>::empty(),
            r.pairs().len() == 0,
            keys_sorted(r.pairs()),
    {
        let r = HostRules { entries: Vec::new() };
        assert(pairs_view(r.entries@) =~= Seq::<(Seq<char>, Seq<char>)>::empty());
        r
    }

    /// Number of rules.
    pub fn len(&self) -> (n: usize)
        ensures
            n == self.rules().dom().len(),
            n == self.pairs().len(),
    {
        proof {
            use_type_invariant(self);
            lemma_sorted_len(self.pairs());
        }
        self.entries.len()
    }

    /// Whether there are no rules.
    pub fn is_empty(&self) -> (b: bool)
        ensures
            b == (self.rules().dom().len() == 0),
            b == (self.rules() == Map::<Seq<char>, Seq<char>>::empty()),
    {
        proof {
            use_type_invariant(self);
            lemma_sorted_len(self.pairs());
            if self.pairs().len() > 0 {
                lemma_sorted_lookup(self.pairs(), 0);
                assert(self.rules().contains_key(self.pairs()[0].0));
                assert(!Map::<Seq<char>, Seq<char>>::empty().contains_key(self.pairs()[0].0));
            } else {
                assert(self.rules() =~= Map::<Seq<char>, Seq<char>>::empty());
            }
        }
        self.entries.len() == 0
    }

    /// Sets `host` to `ip`, replacing an earlier rule for `host`.
    #[verifier::spinoff_prover]
    #[verifier::rlimit(60)]
    pub fn insert(&mut self, host: Vec<char>, ip: Vec<char>)
        ensures
            final(self).rules() == old(self).rules().insert(host@, ip@),
            keys_sorted(final(self).pairs()),
    {
        proof {
            use_type_invariant(&*self);
        }
        let mut es: Vec<(Vec<char>, Vec<char>)> = Vec::new();
        std::mem::swap(&mut es, &mut self.entries);
        let ghost p = pairs_view(es@);
        let mut i: usize = 0;
        while i < es.len() && chars_less(&es[i].0, &host)
            invariant
                0 <= i <= es.len(),
                p == pairs_view(es@),
                keys_sorted(p),
                forall|j: int| 0 <= j < i ==> chars_lt(#[trigger] p[j].0, host@),
            decreases es.len() - i,
        {
            i = i + 1;
        }
        proof {
            lemma_pairs_map_facts(p);
        }
        if i < es.len() && chars_eq(&es[i].0, &host) {
            assert(p[i as int].0 == host@);
            es.set(i, (host, ip));
            proof {
                let q = pairs_view(es@);
                assert(q[i as int].0 == host@);
                assert(q =~= p.update(i as int, (host@, ip@)));
                assert(keys_sorted(q)) by {
                    assert forall|a: int, b: int| 0 <= a < b < q.len() implies chars_lt(
                        #[trigger] q[a].0,
                        #[trigger] q[b].0,
                    ) by {
                        assert(q[a].0 == p[a].0);
                        assert(q[b].0 == p[b].0);
                    }
                }
                lemma_pairs_map_facts(q);
                assert(pairs_map(q) =~= pairs_map(p).insert(host@, ip@)) by {
                    assert forall|k: Seq<char>| #[trigger]
                        pairs_map(q).contains_key(k) == pairs_map(p).insert(
                            host@,
                            ip@,
                        ).contains_key(k) by {
                        if pairs_map(p).contains_key(k) {
                            let j = choose|j: int| 0 <= j < p.len() && p[j].0 == k;
                            assert(q[j].0 == k);
                        }
                        if pairs_map(q).contains_key(k) {
                            let j = choose|j: int| 0 <= j < q.len() && q[j].0 == k;
                            assert(p[j].0 == k);
                            assert(pairs_map(p).contains_key(k));
                        }
                    }
                    assert forall|k: Seq<char>| #[trigger] pairs_map(q).contains_key(k) implies
                        pairs_map(q)[k] == pairs_map(p).insert(host@, ip@)[k] by {
                        let j = choose|j: int| 0 <= j < q.len() && q[j].0 == k;
                        lemma_sorted_lookup(q, j);
                        if j != i {
                            lemma_sorted_lookup(p, j);
                            assert(q[j] == p[j]);
                            lemma_chars_lt_irreflexive(host@);
                            if j < i {
                                assert(chars_lt(p[j].0, p[i as int].0));
                            } else {
                                assert(chars_lt(p[i as int].0, p[j].0));
                            }
                            assert(k != host@);
                        }
                    }
                }
            }
        } else {
            proof {
                if i < es.len() {
                    lemma_chars_lt_total(p[i as int].0, host@);
                }
            }
            es.insert(i, (host, ip));
            proof {
                let q = pairs_view(es@);
                assert(q =~= p.insert(i as int, (host@, ip@)));
                assert(keys_sorted(q)) by {
                    assert forall|a: int, b: int| 0 <= a < b < q.len() implies chars_lt(
                        #[trigger] q[a].0,
                        #[trigger] q[b].0,
                    ) by {
                        if b == i {
                            assert(q[a] == p[a]);
                        } else if a == i {
                            assert(q[b] == p[b - 1]);
                            if b - 1 > i {
                                assert(chars_lt(p[i as int].0, p[b - 1].0));
                                lemma_chars_lt_transitive(host@, p[i as int].0, p[b - 1].0);
                            }
                        } else if a < i && b < i {
                            assert(q[a] == p[a] && q[b] == p[b]);
                        } else if a < i {
                            assert(q[a] == p[a] && q[b] == p[b - 1]);
                        } else {
                            assert(q[a] == p[a - 1] && q[b] == p[b - 1]);
                        }
                    }
                }
                assert(!pairs_map(p).contains_key(host@)) by {
                    if pairs_map(p).contains_key(host@) {
                        let j = choose|j: int| 0 <= j < p.len() && p[j].0 == host@;
                        lemma_chars_lt_irreflexive(host@);
                        if j < i {
                            assert(chars_lt(p[j].0, host@));
                        } else if j > i {
                            assert(chars_lt(p[i as int].0, p[j].0));
                            lemma_chars_lt_total(p[i as int].0, host@);
                        }
                    }
                }
                lemma_pairs_map_facts(q);
                assert(pairs_map(q) =~= pairs_map(p).insert(host@, ip@)) by {
                    assert forall|k: Seq<char>| #[trigger]
                        pairs_map(q).contains_key(k) == pairs_map(p).insert(
                            host@,
                            ip@,
                        ).contains_key(k) by {
                        if pairs_map(p).contains_key(k) {
                            let j = choose|j: int| 0 <= j < p.len() && p[j].0 == k;
                            if j < i {
                                assert(q[j].0 == k);
                            } else {
                                assert(q[j + 1].0 == k);
                            }
                        }
                        if k == host@ {
                            assert(q[i as int].0 == k);
                        }
                        if pairs_map(q).contains_key(k) {
                            let j = choose|j: int| 0 <= j < q.len() && q[j].0 == k;
                            if j < i {
                                assert(p[j].0 == k);
                            } else if j > i {
                                assert(p[j - 1].0 == k);
                            }
                        }
                    }
                    assert forall|k: Seq<char>| #[trigger] pairs_map(q).contains_key(k) implies
                        pairs_map(q)[k] == pairs_map(p).insert(host@, ip@)[k] by {
                        let j = choose|j: int| 0 <= j < q.len() && q[j].0 == k;
                        lemma_sorted_lookup(q, j);
                        if j < i {
                            lemma_sorted_lookup(p, j);
                        } else if j > i {
                            lemma_sorted_lookup(p, j - 1);
                        }
                    }
                }
            }
        }
        self.entries = es;
    }
}

/// A finite map from sorted pairs has as many keys as pairs.
pub proof fn lemma_sorted_len(p: Seq<(Seq<char>, Seq<char>)>)
    requires
        keys_sorted(p),
    ensures
        pairs_map(p).dom().finite(),
        pairs_map(p).dom().len() == p.len(),
    decreases p.len(),
{
    if p.len() > 0 {
        let q = p.drop_last();
        assert(keys_sorted(q)) by {
            assert forall|a: int, b: int| 0 <= a < b < q.len() implies chars_lt(
                #[trigger] q[a].0,
                #[trigger] q[b].0,
            ) by {
                assert(q[a] == p[a] && q[b] == p[b]);
            }
        }
        lemma_sorted_len(q);
        lemma_pairs_map_facts(q);
        assert(!pairs_map(q).contains_key(p.last().0)) by {
            if pairs_map(q).contains_key(p.last().0) {
                let j = choose|j: int| 0 <= j < q.len() && q[j].0 == p.last().0;
                assert(chars_lt(p[j].0, p[p.len() - 1].0));
                lemma_chars_lt_irreflexive(p.last().0);
            }
        }
    }
}

/// The value of an ASCII digit.
pub fn digit_value_of(c: char) -> (d: u32)
    requires
        '0' <= c <= '9',
    ensures
        d == c as int - '0' as int,
{
    if c == '0' {
        0
    } else if c == '1' {
        1
    } else if c == '2' {
        2
    } else if c == '3' {
        3
    } else if c == '4' {
        4
    } else if c == '5' {
        5
    } else if c == '6' {
        6
    } else if c == '7' {
        7
    } else if c == '8' {
        8
    } else {
        9
    }
}

/// Whether `p` parses as a `u16`.
fn parses_u16(p: &[char]) -> (r: bool)
    ensures
        r == parses_as_u16(p@),
{
    let start: usize = if p.len() > 0 && p[0] == '+' {
        1
    } else {
        0
    };
    let ghost d = if p@.len() > 0 && p@[0] == '+' {
        p@.drop_first()
    } else {
        p@
    };
    assert(d =~= p@.skip(start as int));
    if start == p.len() {
        return false;
    }
    let mut acc: u32 = 0;
    let mut i: usize = start;
    assert(d.take(0) =~= Seq::<char>::empty());
    while i < p.len()
        invariant
            start <= i <= p.len(),
            d == p@.skip(start as int),
            d == (if p@.len() > 0 && p@[0] == '+' {
                p@.drop_first()
            } else {
                p@
            }),
            all_digits(d.take(i - start)),
            acc == (if digits_value(d.take(i - start)) < 65536 {
                digits_value(d.take(i - start))
            } else {
                65536
            }),
        decreases p.len() - i,
    {
        let c = p[i];
        if !('0' <= c && c <= '9') {
            assert(d[i - start] == c);
            assert(!all_digits(d));
            return false;
        }
        let dv = digit_value_of(c);
        proof {
            let t = d.take(i - start + 1);
            assert(t.drop_last() =~= d.take(i - start));
            assert(t.last() == c);
            assert(digits_value(t) == digits_value(d.take(i - start)) * 10 + dv);
        }
        acc = if acc * 10 + dv >= 65536 {
            65536
        } else {
            acc * 10 + dv
        };
        i = i + 1;
    }
    assert(d.take(p.len() - start) =~= d);
    acc <= 65535
}

/// Whether `v` is a valid IP under [`valid_ip`].
fn valid_ip_chars(v: &[char]) -> (r: bool)
    ensures
        r == valid_ip(v@),
{
    if contains_char(v, ':') {
        return true;
    }
    let parts = split_chars(v, '.');
    if parts.len() != 4 {
        return false;
    }
    let mut i: usize = 0;
    while i < 4
        invariant
            0 <= i <= 4,
            parts.len() == 4,
            !v@.contains(':'),
            views(parts@) == split_on(v@, '.'),
            forall|j: int|
                0 <= j < i ==> (#[trigger] views(parts@)[j]).len() > 0 && parses_as_u16(
                    views(parts@)[j],
                ),
        decreases 4 - i,
    {
        assert(views(parts@)[i as int] == parts@[i as int]@);
        if parts[i].len() == 0 || !parses_u16(&parts[i]) {
            assert(split_on(v@, '.')[i as int] == parts@[i as int]@);
            return false;
        }
        i = i + 1;
    }
    true
}

/// Whether `value` is an acceptable IP: IPv6 (holds `:`) passes unchecked,
/// IPv4 needs four dotted fields that each parse as `u16`.
pub fn is_valid_ip(value: &str) -> (r: bool)
    ensures
        r == valid_ip(value@),
{
    let v = chars_of(value);
    valid_ip_chars(&v)
}

fn system_ip_chars(ip: &[char]) -> (r: bool)
    ensures
        r == system_ip(ip@),
{
    eq_str(ip, "::1") || eq_str(ip, "0.0.0.0") || eq_str(ip, "255.255.255.255")
        || starts_with_str(ip, "127.") || starts_with_str(ip, "fe80:")
}

/// Whether `ip` is a loopback, unspecified, broadcast or link-local address,
/// which must never be injected.
pub fn is_system_ip(ip: &str) -> (r: bool)
    ensures
        r == system_ip(ip@),
{
    let v = chars_of(ip);
    system_ip_chars(&v)
}

fn system_hostname_chars(h: &[char]) -> (r: bool)
    ensures
        r == is_system_hostname(h@),
{
    eq_str(h, "localhost") || eq_str(h, "broadcasthost") || eq_str(h, "ip6-localhost") || eq_str(
        h,
        "ip6-loopback",
    )
}

/// The scheme `url::Url::parse` finds in `raw`, or `None` when it rejects
/// `raw`.
pub uninterp spec fn url_scheme(raw: Seq<char>) -> Option<Seq<char>>;

/// `url::Url::parse` followed by `Url::scheme`: the parsed scheme, or `None`
/// when the text is not a URL; a function of the text alone.
#[verifier::external_body]
pub(crate) fn parse_url_scheme(raw: &str) -> (r: Option<String>)
    ensures
        (match r {
            Some(s) => Some(s@),
            None => None::<Seq<char>>,
        }) == url_scheme(raw@),
{
    match url::Url::parse(raw) {
        Ok(u) => Some(u.scheme().to_string()),
        Err(_) => None,
    }
}

/// A parsed scheme that is `http` or `https`.
pub open spec fn is_http_scheme_spec(scheme: Option<Seq<char>>) -> bool {
    scheme matches Some(s) && (s == "http"@ || s == "https"@)
}

/// Whether the result of parsing a URL names the `http` or `https` scheme.
pub fn is_http_scheme(scheme: &Option<String>) -> (r: bool)
    ensures
        r == is_http_scheme_spec(
            match scheme {
                Some(s) => Some(s@),
                None => None,
            },
        ),
{
    match scheme {
        Some(s) => {
            let v = chars_of(s.as_str());
            eq_str(&v, "http") || eq_str(&v, "https")
        },
        None => false,
    }
}

/// Whether `raw` is an `http(s)` URL that a hosts source may point to.
pub fn is_valid_source_url(raw: &str) -> (r: bool)
    ensures
        r == is_http_scheme_spec(url_scheme(raw@)),
{
    let scheme = parse_url_scheme(raw);
    is_http_scheme(&scheme)
}

impl HostRules {
    /// Sets a lower-cased `host` to `ip` unless it is empty or a system host
    /// name.
    pub fn add_host(&mut self, host: &[char], ip: &[char])
        ensures
            final(self).rules() == (if host@.len() > 0 && !is_system_hostname(host@) {
                old(self).rules().insert(host@, ip@)
            } else {
                old(self).rules()
            }),
    {
        if host.len() > 0 && !system_hostname_chars(host) {
            self.insert(copy_chars(host), copy_chars(ip));
        }
    }

    /// Applies one line of hosts text.
    fn add_line(&mut self, line: &[char])
        ensures
            final(self).rules() == add_line(old(self).rules(), line@),
    {
        let body = before_char(line, '#');
        let parts = split_whitespace(&body);
        if parts.len() >= 2 {
            assert(views(parts@)[0] == parts@[0]@);
        }
        if parts.len() >= 2 && valid_ip_chars(&parts[0]) && !system_ip_chars(&parts[0]) {
            let ghost m0 = self.rules();
            let ghost ip = parts@[0]@;
            let ghost hosts = views(parts@).drop_first();
            let mut j: usize = 1;
            assert(hosts.take(0) =~= Seq::<Seq<char>>::empty());
            while j < parts.len()
                invariant
                    1 <= j <= parts.len(),
                    ip == parts@[0]@,
                    hosts == views(parts@).drop_first(),
                    self.rules() == add_hosts(m0, ip, hosts.take(j - 1)),
                decreases parts.len() - j,
            {
                let s = string_from_chars(&parts[j]);
                let low = to_lowercase(s.as_str());
                let lc = chars_of(low.as_str());
                proof {
                    let t = hosts.take(j as int);
                    assert(t.drop_last() =~= hosts.take(j - 1));
                    assert(t.last() == parts@[j as int]@);
                }
                self.add_host(&lc, &parts[0]);
                j = j + 1;
            }
            assert(hosts.take(parts.len() - 1) =~= hosts);
        }
    }

    /// Parses hosts-format text (the local file and a remote source share
    /// the format).
    pub fn parse(text: &str) -> (r: Self)
        ensures
            r.rules() == parsed_rules(text@),
            keys_sorted(r.pairs()),
    {
        let chars = chars_of(text);
        let lines = split_chars(&chars, '\n');
        let mut rules = HostRules::new();
        let mut i: usize = 0;
        assert(views(lines@).take(0) =~= Seq::<Seq<char>>::empty());
        while i < lines.len()
            invariant
                0 <= i <= lines.len(),
                views(lines@) == split_on(text@, '\n'),
                rules.rules() == add_lines(views(lines@).take(i as int)),
            decreases lines.len() - i,
        {
            proof {
                let t = views(lines@).take(i + 1);
                assert(t.drop_last() =~= views(lines@).take(i as int));
                assert(t.last() == lines@[i as int]@);
            }
            rules.add_line(&lines[i]);
            i = i + 1;
        }
        assert(views(lines@).take(lines.len() as int) =~= views(lines@));
        proof {
            use_type_invariant(&rules);
        }
        rules
    }

    /// Local rules overridden by remote ones with the same host.
    pub fn merge(local: &HostRules, remote: &HostRules) -> (r: HostRules)
        ensures
            r.rules() == local.rules().union_prefer_right(remote.rules()),
            keys_sorted(r.pairs()),
    {
        let mut r = HostRules::new();
        let mut i: usize = 0;
        assert(local.pairs().take(0) =~= Seq::<(Seq<char>, Seq<char>)>::empty());
        while i < local.entries.len()
            invariant
                0 <= i <= local.entries.len(),
                r.rules() == pairs_map(local.pairs().take(i as int)),
            decreases local.entries.len() - i,
        {
            proof {
                let t = local.pairs().take(i + 1);
                assert(t.drop_last() =~= local.pairs().take(i as int));
                assert(t.last() == (local.entries@[i as int].0@, local.entries@[i as int].1@));
            }
            r.insert(copy_chars(&local.entries[i].0), copy_chars(&local.entries[i].1));
            i = i + 1;
        }
        assert(local.pairs().take(local.entries.len() as int) =~= local.pairs());
        let mut j: usize = 0;
        assert(remote.pairs().take(0) =~= Seq::<(Seq<char>, Seq<char>)>::empty());
        assert(local.rules().union_prefer_right(Map::empty()) =~= local.rules());
        while j < remote.entries.len()
            invariant
                0 <= j <= remote.entries.len(),
                r.rules() == local.rules().union_prefer_right(
                    pairs_map(remote.pairs().take(j as int)),
                ),
            decreases remote.entries.len() - j,
        {
            proof {
                let t = remote.pairs().take(j + 1);
                assert(t.drop_last() =~= remote.pairs().take(j as int));
                assert(t.last() == (remote.entries@[j as int].0@, remote.entries@[j as int].1@));
            }
            let ghost before_rules = r.rules();
            r.insert(copy_chars(&remote.entries[j].0), copy_chars(&remote.entries[j].1));
            proof {
                let t = remote.pairs().take(j + 1);
                assert(r.rules() =~= local.rules().union_prefer_right(pairs_map(t)));
            }
            j = j + 1;
        }
        assert(remote.pairs().take(remote.entries.len() as int) =~= remote.pairs());
        proof {
            use_type_invariant(&r);
        }
        r
    }

    /// The `--host-resolver-rules` value: `MAP host ip` for each rule in
    /// ascending host order, joined by `, `.
    pub fn to_resolver_rules(&self) -> (s: String)
        ensures
            s@ == resolver_rules_text(self.pairs()),
            keys_sorted(self.pairs()),
            pairs_map(self.pairs()) == self.rules(),
    {
        proof {
            use_type_invariant(self);
        }
        let ghost mapped = self.pairs().map_values(
            |e: (Seq<char>, Seq<char>)| resolver_rule(e),
        );
        let mut items: Vec<Vec<char>> = Vec::new();
        let mut i: usize = 0;
        assert(views(items@) =~= mapped.take(0));
        while i < self.entries.len()
            invariant
                0 <= i <= self.entries.len(),
                mapped == self.pairs().map_values(
                    |e: (Seq<char>, Seq<char>)| resolver_rule(e),
                ),
                views(items@) == mapped.take(i as int),
            decreases self.entries.len() - i,
        {
            let mut item: Vec<char> = Vec::new();
            push_str(&mut item, "MAP ");
            push_chars(&mut item, &self.entries[i].0);
            push_str(&mut item, " ");
            push_chars(&mut item, &self.entries[i].1);
            let ghost prev = items@;
            items.push(item);
            proof {
                assert(views(items@) =~= views(prev).push(mapped[i as int]));
                assert(mapped.take(i + 1) =~= mapped.take(i as int).push(mapped[i as int]));
            }
            i = i + 1;
        }
        assert(mapped.take(self.entries.len() as int) =~= mapped);
        let out = join_chars(&items, ", ");
        string_from_chars(&out)
    }

    /// JSON object of the rules (`{"host":"ip",...}`, hosts ascending), kept
    /// as a snapshot on each instance (`{}` were serialisation to fail).
    pub fn to_snapshot_json(&self) -> (s: String)
        ensures
            s@ == json_string_map(self.pairs()),
    {
        match string_map_json(&self.entries) {
            Some(s) => s,
            None => String::from_str("{}"),
        }
    }
}

impl Default for HostRules {
    fn default() -> (r: Self)
        ensures
            r.rules() == Map::<Seq<char>, Seq<char>>::empty(),
    {
        HostRules::new()
    }
}

/// Every rule maps a non-empty, non-system host name to a valid,
/// non-system IP.
pub open spec fn safe_rules(m: Map<Seq<char>, Seq<char>>) -> bool {
    forall|k: Seq<char>|
        #[trigger] m.contains_key(k) ==> k.len() > 0 && !is_system_hostname(k) && valid_ip(m[k])
            && !system_ip(m[k])
}

proof fn lemma_add_hosts_safe(m: Map<Seq<char>, Seq<char>>, ip: Seq<char>, hosts: Seq<Seq<char>>)
    requires
        safe_rules(m),
        valid_ip(ip),
        !system_ip(ip),
    ensures
        safe_rules(add_hosts(m, ip, hosts)),
    decreases hosts.len(),
{
    if hosts.len() > 0 {
        lemma_add_hosts_safe(m, ip, hosts.drop_last());
    }
}

proof fn lemma_add_lines_safe(lines: Seq<Seq<char>>)
    ensures
        safe_rules(add_lines(lines)),
    decreases lines.len(),
{
    if lines.len() > 0 {
        lemma_add_lines_safe(lines.drop_last());
        let parts = words(before(lines.last(), '#'));
        if parts.len() >= 2 && valid_ip(parts[0]) && !system_ip(parts[0]) {
            lemma_add_hosts_safe(add_lines(lines.drop_last()), parts[0], parts.drop_first());
        }
    }
}

/// Parsing never yields a rule for an empty or system host name, nor one
/// pointing at an invalid or system address, whatever the text.
pub proof fn lemma_parsed_rules_are_safe(text: Seq<char>)
    ensures
        safe_rules(parsed_rules(text)),
{
    lemma_add_lines_safe(split_on(text, '\n'));
}

/// Merging two safe rule sets gives a safe rule set.
pub proof fn lemma_merge_keeps_safe(local: Map<Seq<char>, Seq<char>>, remote: Map<Seq<char>, Seq<char>>)
    requires
        safe_rules(local),
        safe_rules(remote),
    ensures
        safe_rules(local.union_prefer_right(remote)),
{
}

/// Adding a line's hosts over `m1` overridden by `m2` is `m1` overridden
/// by the hosts added over `m2`.
proof fn lemma_add_hosts_over(
    m1: Map<Seq<char>, Seq<char>>,
    m2: Map<Seq<char>, Seq<char>>,
    ip: Seq<char>,
    hosts: Seq<Seq<char>>,
)
    ensures
        add_hosts(m1.union_prefer_right(m2), ip, hosts) == m1.union_prefer_right(
            add_hosts(m2, ip, hosts),
        ),
    decreases hosts.len(),
{
    if hosts.len() > 0 {
        lemma_add_hosts_over(m1, m2, ip, hosts.drop_last());
        let h = lowercase(hosts.last());
        let p2 = add_hosts(m2, ip, hosts.drop_last());
        assert(m1.union_prefer_right(p2).insert(h, ip) =~= m1.union_prefer_right(p2.insert(h, ip)));
    }
}

/// Lines read after others override what those gave, host by host.
proof fn lemma_add_lines_concat(l1: Seq<Seq<char>>, l2: Seq<Seq<char>>)
    ensures
        add_lines(l1 + l2) == add_lines(l1).union_prefer_right(add_lines(l2)),
    decreases l2.len(),
{
    if l2.len() == 0 {
        assert(l1 + l2 =~= l1);
        assert(add_lines(l1).union_prefer_right(Map::empty()) =~= add_lines(l1));
    } else {
        let l2p = l2.drop_last();
        lemma_add_lines_concat(l1, l2p);
        assert((l1 + l2).drop_last() =~= l1 + l2p);
        assert((l1 + l2).last() == l2.last());
        let line = l2.last();
        let parts = words(before(line, '#'));
        if parts.len() >= 2 && valid_ip(parts[0]) && !system_ip(parts[0]) {
            lemma_add_hosts_over(add_lines(l1), add_lines(l2p), parts[0], parts.drop_first());
        }
    }
}

/// Parsing two hosts texts joined by a line break gives the first text's
/// rules overridden, host by host, by the second's: what merging the two
/// parses gives, the second as the remote source.
pub proof fn lemma_parse_concat_is_merge(a: Seq<char>, b: Seq<char>)
    ensures
        parsed_rules(a + "\n"@ + b) == parsed_rules(a).union_prefer_right(parsed_rules(b)),
{
    reveal_strlit("\n");
    assert("\n"@ =~= seq!['\n']);
    lemma_split_on_join(a, b, '\n');
    lemma_add_lines_concat(split_on(a, '\n'), split_on(b, '\n'));
}

} // verus!
