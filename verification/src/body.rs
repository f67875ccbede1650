//! The transmitted request body.
//!
//! A write request (POST, PUT, PATCH) carries its `key=value` pairs as a
//! JSON object. The object is key-unique: a later pair with an already seen
//! key overwrites the earlier value, and the key keeps its first position.
//! `lemma_last_write_wins` states that policy: the deduplicated list binds
//! exactly the keys of the input list, each to its latest value.

use vstd::prelude::*;
use vstd::string::*;
use vstd::pervasive::VecAdditionalExecFns;

use crate::kv::KvPair;

verus! {

/// The views of a list of pairs.
pub open spec fn pairs_view(ps: Seq<KvPair>) -> Seq<(Seq<char>, Seq<char>)> {
    ps.map_values(|p: KvPair| p@)
}

/// The mapping that a list of pairs builds up, later entries overwriting
/// earlier ones.
pub open spec fn map_of(ps: Seq<(Seq<char>, Seq<char>)>) -> Map<Seq<char>, Seq<char>>
    decreases ps.len(),
{
    if ps.len() == 0 {
        Map::empty()
    } else {
        map_of(ps.drop_last()).insert(ps.last().0, ps.last().1)
    }
}

/// The first position of key `k` in `ps`, or `-1` when `k` is absent.
pub open spec fn find_key(ps: Seq<(Seq<char>, Seq<char>)>, k: Seq<char>) -> int
    decreases ps.len(),
{
    if ps.len() == 0 {
        -1
    } else if ps[0].0 == k {
        0
    } else {
        let r = find_key(ps.drop_first(), k);
        if r < 0 {
            -1
        } else {
            r + 1
        }
    }
}

/// The key-unique form of a pair list: each pair in turn overwrites the
/// value at its key's first position, or is appended when its key is new.
pub open spec fn dedup_pairs(ps: Seq<(Seq<char>, Seq<char>)>) -> Seq<(Seq<char>, Seq<char>)>
    decreases ps.len(),
{
    if ps.len() == 0 {
        Seq::empty()
    } else {
        let d = dedup_pairs(ps.drop_last());
        let i = find_key(d, ps.last().0);
        if i >= 0 {
            d.update(i, ps.last())
        } else {
            d.push(ps.last())
        }
    }
}

/// No two entries share a key.
pub open spec fn distinct_keys(ps: Seq<(Seq<char>, Seq<char>)>) -> bool {
    forall|i: int, j: int| 0 <= i < j < ps.len() ==> ps[i].0 != ps[j].0
}

proof fn lemma_find_key_spec(ps: Seq<(Seq<char>, Seq<char>)>, k: Seq<char>)
    ensures
        find_key(ps, k) == -1 || 0 <= find_key(ps, k) < ps.len(),
        find_key(ps, k) >= 0 ==> ps[find_key(ps, k)].0 == k,
        find_key(ps, k) == -1 ==> forall|j: int| 0 <= j < ps.len() ==> ps[j].0 != k,
    decreases ps.len(),
{
    if ps.len() > 0 && ps[0].0 != k {
        lemma_find_key_spec(ps.drop_first(), k);
        if find_key(ps, k) == -1 {
            assert forall|j: int| 0 <= j < ps.len() implies ps[j].0 != k by {
                if j > 0 {
                    assert(ps.drop_first()[j - 1] == ps[j]);
                }
            }
        }
    }
}

proof fn lemma_find_key_at(ps: Seq<(Seq<char>, Seq<char>)>, k: Seq<char>, i: int)
    requires
        0 <= i < ps.len(),
        ps[i].0 == k,
        forall|j: int| 0 <= j < i ==> ps[j].0 != k,
    ensures
        find_key(ps, k) == i,
    decreases i,
{
    if i > 0 {
        lemma_find_key_at(ps.drop_first(), k, i - 1);
    }
}

proof fn lemma_find_key_none(ps: Seq<(Seq<char>, Seq<char>)>, k: Seq<char>)
    requires
        forall|j: int| 0 <= j < ps.len() ==> ps[j].0 != k,
    ensures
        find_key(ps, k) == -1,
    decreases ps.len(),
{
    if ps.len() > 0 {
        assert forall|j: int| 0 <= j < ps.drop_first().len() implies ps.drop_first()[j].0 != k by {
            assert(ps.drop_first()[j] == ps[j + 1]);
        }
        lemma_find_key_none(ps.drop_first(), k);
    }
}

/// Updating the one entry that holds key `k` is, on the mapping, an insert
/// at `k`.
proof fn lemma_map_of_update(d: Seq<(Seq<char>, Seq<char>)>, i: int, k: Seq<char>, v: Seq<char>)
    requires
        distinct_keys(d),
        0 <= i < d.len(),
        d[i].0 == k,
    ensures
        map_of(d.update(i, (k, v))) =~= map_of(d).insert(k, v),
    decreases d.len(),
{
    let d2 = d.update(i, (k, v));
    if i == d.len() - 1 {
        assert(d2.drop_last() =~= d.drop_last());
        assert(d2.last() == (k, v));
        assert(map_of(d.drop_last()).insert(k, d.last().1).insert(k, v) =~= map_of(
            d.drop_last(),
        ).insert(k, v));
    } else {
        let pre = d.drop_last();
        lemma_map_of_update(pre, i, k, v);
        assert(d2.drop_last() =~= pre.update(i, (k, v)));
        assert(d2.last() == d.last());
        let lk = d.last().0;
        let lv = d.last().1;
        assert(lk != k);
        assert(map_of(pre).insert(k, v).insert(lk, lv) =~= map_of(pre).insert(lk, lv).insert(
            k,
            v,
        ));
    }
}

/// The deduplication policy: the key-unique list binds exactly the keys of
/// the input, each to the value its latest occurrence gave (last write
/// wins), and it holds no pair that the input did not hold.
pub proof fn lemma_last_write_wins(ps: Seq<(Seq<char>, Seq<char>)>)
    ensures
        distinct_keys(dedup_pairs(ps)),
        map_of(dedup_pairs(ps)) =~= map_of(ps),
        forall|x: (Seq<char>, Seq<char>)| #[trigger]
            dedup_pairs(ps).contains(x) ==> ps.contains(x),
    decreases ps.len(),
{
    if ps.len() > 0 {
        let pre = ps.drop_last();
        lemma_last_write_wins(pre);
        let d = dedup_pairs(pre);
        let last = ps.last();
        let i = find_key(d, last.0);
        lemma_find_key_spec(d, last.0);
        if i >= 0 {
            lemma_map_of_update(d, i, last.0, last.1);
            let d2 = d.update(i, last);
            assert forall|x: (Seq<char>, Seq<char>)| #[trigger]
                d2.contains(x) implies ps.contains(x) by {
                let j = choose|j: int| 0 <= j < d2.len() && d2[j] == x;
                if j == i {
                    assert(ps[ps.len() - 1] == x);
                } else {
                    assert(d.contains(x));
                    let m = choose|m: int| 0 <= m < pre.len() && pre[m] == x;
                    assert(ps[m] == x);
                }
            }
        } else {
            let d2 = d.push(last);
            assert(d2.drop_last() =~= d);
            assert forall|a: int, b: int| 0 <= a < b < d2.len() implies d2[a].0 != d2[b].0 by {
                if b == d2.len() - 1 {
                    assert(d[a].0 != last.0);
                }
            }
            assert forall|x: (Seq<char>, Seq<char>)| #[trigger]
                d2.contains(x) implies ps.contains(x) by {
                let j = choose|j: int| 0 <= j < d2.len() && d2[j] == x;
                if j == d2.len() - 1 {
                    assert(ps[ps.len() - 1] == x);
                } else {
                    assert(d.contains(x));
                    let m = choose|m: int| 0 <= m < pre.len() && pre[m] == x;
                    assert(ps[m] == x);
                }
            }
        }
    }
}

/// The first position of `k` among the keys of `out`, scanning forward.
fn find_key_index(out: &Vec<KvPair>, k: &String) -> (r: Option<usize>)
    ensures
        match r {
            Option::Some(i) => i < out@.len() && pairs_view(out@)[i as int].0 == k@ && forall|
                j: int,
            |
                0 <= j < i ==> pairs_view(out@)[j].0 != k@,
            Option::None => forall|j: int| 0 <= j < out@.len() ==> pairs_view(out@)[j].0 != k@,
        },
{
    let n = out.len();
    let mut t: usize = 0;
    while t < n
        invariant
            n == out@.len(),
            t <= n,
            forall|j: int| 0 <= j < t ==> pairs_view(out@)[j].0 != k@,
        decreases n - t,
    {
        if out[t].key == *k {
            return Some(t);
        }
        t += 1;
    }
    None
}

/// Builds the key-unique pair list that the request body transmits. The
/// result is exactly `dedup_pairs` of the input: same keys, the latest value
/// at each, first-seen key order.
pub fn build_body_pairs(pairs: &Vec<KvPair>) -> (r: Vec<KvPair>)
    ensures
        pairs_view(r@) == dedup_pairs(pairs_view(pairs@)),
        distinct_keys(pairs_view(r@)),
        map_of(pairs_view(r@)) == map_of(pairs_view(pairs@)),
{
    let ghost pv = pairs_view(pairs@);
    let mut out: Vec<KvPair> = Vec::new();
    let mut i: usize = 0;
    while i < pairs.len()
        invariant
            i <= pairs@.len(),
            pv == pairs_view(pairs@),
            pairs_view(out@) == dedup_pairs(pv.take(i as int)),
        decreases pairs@.len() - i,
    {
        let p = &pairs[i];
        let entry = KvPair { key: p.key.clone(), value: p.value.clone() };
        proof {
            assert(pv.take(i + 1).drop_last() =~= pv.take(i as int));
            assert(pv.take(i + 1).last() == pv[i as int]);
            assert(entry@ == pv[i as int]);
        }
        match find_key_index(&out, &p.key) {
            Some(t) => {
                proof {
                    lemma_find_key_at(pairs_view(out@), p.key@, t as int);
                }
                out.set(t, entry);
                proof {
                    assert(pairs_view(out@) =~= dedup_pairs(pv.take(i as int)).update(
                        t as int,
                        pv[i as int],
                    ));
                }
            },
            None => {
                proof {
                    lemma_find_key_none(pairs_view(out@), p.key@);
                }
                out.push(entry);
                proof {
                    assert(pairs_view(out@) =~= dedup_pairs(pv.take(i as int)).push(
                        pv[i as int],
                    ));
                }
            },
        }
        i += 1;
        proof {
            assert(pairs_view(out@) =~= dedup_pairs(pv.take(i as int)));
        }
    }
    proof {
        assert(pv.take(pairs@.len() as int) =~= pv);
        lemma_last_write_wins(pv);
    }
    out
}

} // verus!
