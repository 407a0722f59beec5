//! Small keyed tables held as vectors of `(key, value)` entries with
//! distinct string keys, and the map such a table denotes.
use vstd::prelude::*;


verus! {

/// The map a sequence of entries denotes when inserted in order.
pub open spec fn kv_map<V>(p: Seq<(Seq<char>, V)>) -> Map<Seq<char>, V>
    decreases p.len(),
{
    if p.len() == 0 {
        Map::empty()
    } else {
        kv_map(p.drop_last()).insert(p.last().0, p.last().1)
    }
}

/// No key occurs twice.
pub open spec fn distinct_keys<V>(p: Seq<(Seq<char>, V)>) -> bool {
    forall|i: int, j: int| 0 <= i < j < p.len() ==> #[trigger] p[i].0 != #[trigger] p[j].0
}

/// Keys and values of the denoted map.
pub proof fn lemma_kv_map_facts<V>(p: Seq<(Seq<char>, V)>)
    ensures
        forall|k: Seq<char>|
            #![trigger kv_map(p).contains_key(k)]
            kv_map(p).contains_key(k) <==> exists|i: int| 0 <= i < p.len() && p[i].0 == k,
        forall|i: int|
            0 <= i < p.len() && (forall|j: int| i < j < p.len() ==> p[j].0 != p[i].0)
                ==> #[trigger] kv_map(p)[p[i].0] == p[i].1,
    decreases p.len(),
{
    if p.len() > 0 {
        let q = p.drop_last();
        let last = p.last();
        lemma_kv_map_facts(q);
        assert forall|k: Seq<char>|
            #![trigger kv_map(p).contains_key(k)]
            kv_map(p).contains_key(k) <==> exists|i: int| 0 <= i < p.len() && p[i].0 == k by {
            if kv_map(p).contains_key(k) {
                if k == last.0 {
                    assert(p[p.len() - 1].0 == k);
                } else {
                    assert(kv_map(q).contains_key(k));
                    let i = choose|i: int| 0 <= i < q.len() && q[i].0 == k;
                    assert(q[i] == p[i]);
                }
            }
            if exists|i: int| 0 <= i < p.len() && p[i].0 == k {
                let i = choose|i: int| 0 <= i < p.len() && p[i].0 == k;
                if i < p.len() - 1 {
                    assert(q[i] == p[i]);
                    assert(kv_map(q).contains_key(k));
                }
            }
        }
        assert forall|i: int|
            0 <= i < p.len() && (forall|j: int| i < j < p.len() ==> p[j].0 != p[i].0)
                implies #[trigger] kv_map(p)[p[i].0] == p[i].1 by {
            if i < p.len() - 1 {
                assert(p[p.len() - 1].0 != p[i].0);
                assert(q[i] == p[i]);
                assert forall|j: int| i < j < q.len() implies q[j].0 != q[i].0 by {
                    assert(q[j] == p[j]);
                }
                assert(kv_map(q)[q[i].0] == q[i].1);
            }
        }
    }
}

/// With distinct keys, each entry is what the map holds for its key.
pub proof fn lemma_distinct_lookup<V>(p: Seq<(Seq<char>, V)>, i: int)
    requires
        distinct_keys(p),
        0 <= i < p.len(),
    ensures
        kv_map(p).contains_key(p[i].0),
        kv_map(p)[p[i].0] == p[i].1,
{
    lemma_kv_map_facts(p);
    assert forall|j: int| i < j < p.len() implies p[j].0 != p[i].0 by {}
}

/// With distinct keys, the map has as many keys as there are entries.
pub proof fn lemma_distinct_len<V>(p: Seq<(Seq<char>, V)>)
    requires
        distinct_keys(p),
    ensures
        kv_map(p).dom().finite(),
        kv_map(p).dom().len() == p.len(),
    decreases p.len(),
{
    if p.len() > 0 {
        let q = p.drop_last();
        assert(distinct_keys(q)) by {
            assert forall|a: int, b: int| 0 <= a < b < q.len() implies #[trigger] q[a].0
                != #[trigger] q[b].0 by {
                assert(q[a] == p[a] && q[b] == p[b]);
            }
        }
        lemma_distinct_len(q);
        lemma_kv_map_facts(q);
        assert(!kv_map(q).contains_key(p.last().0)) by {
            if kv_map(q).contains_key(p.last().0) {
                let j = choose|j: int| 0 <= j < q.len() && q[j].0 == p.last().0;
                assert(p[j].0 == p[p.len() - 1].0);
            }
        }
    }
}

/// Replacing the value of the entry at `i` updates the map at its key.
pub proof fn lemma_kv_map_update<V>(p: Seq<(Seq<char>, V)>, i: int, v: V)
    requires
        distinct_keys(p),
        0 <= i < p.len(),
    ensures
        distinct_keys(p.update(i, (p[i].0, v))),
        kv_map(p.update(i, (p[i].0, v))) == kv_map(p).insert(p[i].0, v),
{
    let q = p.update(i, (p[i].0, v));
    let k = p[i].0;
    assert(distinct_keys(q)) by {
        assert forall|a: int, b: int| 0 <= a < b < q.len() implies #[trigger] q[a].0
            != #[trigger] q[b].0 by {
            assert(q[a].0 == p[a].0 && q[b].0 == p[b].0);
        }
    }
    lemma_kv_map_facts(p);
    lemma_kv_map_facts(q);
    assert forall|kk: Seq<char>| #[trigger] kv_map(q).contains_key(kk) == kv_map(p).insert(
        k,
        v,
    ).contains_key(kk) by {
        if kv_map(p).contains_key(kk) {
            let j = choose|j: int| 0 <= j < p.len() && p[j].0 == kk;
            assert(q[j].0 == kk);
        }
        if kk == k {
            assert(q[i].0 == kk);
        }
        if kv_map(q).contains_key(kk) {
            let j = choose|j: int| 0 <= j < q.len() && q[j].0 == kk;
            assert(p[j].0 == kk);
        }
    }
    assert forall|kk: Seq<char>| #[trigger] kv_map(q).contains_key(kk) implies kv_map(q)[kk]
        == kv_map(p).insert(k, v)[kk] by {
        let j = choose|j: int| 0 <= j < q.len() && q[j].0 == kk;
        lemma_distinct_lookup(q, j);
        if j != i {
            lemma_distinct_lookup(p, j);
            assert(q[j] == p[j]);
        }
    }
    assert(kv_map(q) =~= kv_map(p).insert(k, v));
}

/// Appending an entry with a new key inserts it.
pub proof fn lemma_kv_map_push<V>(p: Seq<(Seq<char>, V)>, k: Seq<char>, v: V)
    requires
        distinct_keys(p),
        !kv_map(p).contains_key(k),
    ensures
        distinct_keys(p.push((k, v))),
        kv_map(p.push((k, v))) == kv_map(p).insert(k, v),
{
    let q = p.push((k, v));
    assert(q.drop_last() =~= p);
    lemma_kv_map_facts(p);
    assert(distinct_keys(q)) by {
        assert forall|a: int, b: int| 0 <= a < b < q.len() implies #[trigger] q[a].0
            != #[trigger] q[b].0 by {
            if b == q.len() - 1 {
                assert(q[a] == p[a]);
                assert(p[a].0 != k);
            } else {
                assert(q[a] == p[a] && q[b] == p[b]);
            }
        }
    }
}

/// Removing the entry at `i` removes its key.
pub proof fn lemma_kv_map_remove<V>(p: Seq<(Seq<char>, V)>, i: int)
    requires
        distinct_keys(p),
        0 <= i < p.len(),
    ensures
        distinct_keys(p.remove(i)),
        kv_map(p.remove(i)) == kv_map(p).remove(p[i].0),
{
    let q = p.remove(i);
    let k = p[i].0;
    assert(distinct_keys(q)) by {
        assert forall|a: int, b: int| 0 <= a < b < q.len() implies #[trigger] q[a].0
            != #[trigger] q[b].0 by {
            if b < i {
                assert(q[a] == p[a] && q[b] == p[b]);
            } else if a < i {
                assert(q[a] == p[a] && q[b] == p[b + 1]);
            } else {
                assert(q[a] == p[a + 1] && q[b] == p[b + 1]);
            }
        }
    }
    lemma_kv_map_facts(p);
    lemma_kv_map_facts(q);
    assert forall|kk: Seq<char>| #[trigger] kv_map(q).contains_key(kk) == kv_map(p).remove(
        k,
    ).contains_key(kk) by {
        if kv_map(q).contains_key(kk) {
            let j = choose|j: int| 0 <= j < q.len() && q[j].0 == kk;
            if j < i {
                assert(q[j] == p[j]);
                assert(p[j].0 != p[i].0);
            } else {
                assert(q[j] == p[j + 1]);
                assert(p[i].0 != p[j + 1].0);
            }
        }
        if kv_map(p).contains_key(kk) && kk != k {
            let j = choose|j: int| 0 <= j < p.len() && p[j].0 == kk;
            if j < i {
                assert(q[j] == p[j]);
            } else {
                assert(j != i);
                assert(q[j - 1] == p[j]);
            }
        }
    }
    assert forall|kk: Seq<char>| #[trigger] kv_map(q).contains_key(kk) implies kv_map(q)[kk]
        == kv_map(p).remove(k)[kk] by {
        let j = choose|j: int| 0 <= j < q.len() && q[j].0 == kk;
        lemma_distinct_lookup(q, j);
        if j < i {
            assert(q[j] == p[j]);
            lemma_distinct_lookup(p, j);
        } else {
            assert(q[j] == p[j + 1]);
            lemma_distinct_lookup(p, j + 1);
        }
    }
    assert(kv_map(q) =~= kv_map(p).remove(k));
}

} // verus!
