//! The mathematics of key-value pairs: an ordered list in which every key
//! occurs once, the mapping it stands for, and what it means to lay one list
//! of pairs over another.

use vstd::prelude::*;

verus! {

/// A key with its value, both as sequences of characters.
pub type Pair = (Seq<char>, Seq<char>);

/// The keys of a list of pairs, in the list's order.
pub open spec fn keys(s: Seq<Pair>) -> Seq<Seq<char>> {
    s.map_values(|p: Pair| p.0)
}

/// Some pair of the list has the key `k`.
pub open spec fn has_key(s: Seq<Pair>, k: Seq<char>) -> bool {
    exists|i: int| 0 <= i < s.len() && (#[trigger] s[i]).0 == k
}

/// A position at which the list holds the key `k`, where it holds it at all.
pub open spec fn key_index(s: Seq<Pair>, k: Seq<char>) -> int {
    choose|i: int| 0 <= i < s.len() && (#[trigger] s[i]).0 == k
}

/// No key occurs at two positions of the list.
pub open spec fn distinct(s: Seq<Pair>) -> bool {
    forall|i: int, j: int|
        0 <= i < s.len() && 0 <= j < s.len() && i != j ==> (#[trigger] s[i]).0 != (
        #[trigger] s[j]).0
}

/// The list after `k` has been given the value `v`: a key that is present
/// keeps its position and takes the new value, a new key goes to the end.
pub open spec fn put(s: Seq<Pair>, k: Seq<char>, v: Seq<char>) -> Seq<Pair> {
    if has_key(s, k) {
        s.update(key_index(s, k), (k, v))
    } else {
        s.push((k, v))
    }
}

/// The list after every pair of `more` has been put into it, first to last.
pub open spec fn put_all(s: Seq<Pair>, more: Seq<Pair>) -> Seq<Pair>
    decreases more.len(),
{
    if more.len() == 0 {
        s
    } else {
        put(put_all(s, more.drop_last()), more.last().0, more.last().1)
    }
}

/// The mapping that a list of pairs stands for.
pub open spec fn to_map(s: Seq<Pair>) -> Map<Seq<char>, Seq<char>> {
    Map::new(|k: Seq<char>| has_key(s, k), |k: Seq<char>| s[key_index(s, k)].1)
}

/// The mapping `m` with the pairs of `more` laid over it, first to last:
/// a later pair replaces what an earlier one, or `m`, had under its key.
pub open spec fn overlay(m: Map<Seq<char>, Seq<char>>, more: Seq<Pair>) -> Map<
    Seq<char>,
    Seq<char>,
>
    decreases more.len(),
{
    if more.len() == 0 {
        m
    } else {
        overlay(m, more.drop_last()).insert(more.last().0, more.last().1)
    }
}

/// The value of the last pair of the list that has the key `k`.
pub open spec fn last_value(s: Seq<Pair>, k: Seq<char>) -> Option<Seq<char>>
    decreases s.len(),
{
    if s.len() == 0 {
        None
    } else if s.last().0 == k {
        Some(s.last().1)
    } else {
        last_value(s.drop_last(), k)
    }
}

/// In a list without repeated keys, the position of a key is the one
/// position that holds it.
pub proof fn lemma_key_index(s: Seq<Pair>, i: int)
    requires
        distinct(s),
        0 <= i < s.len(),
    ensures
        has_key(s, s[i].0),
        key_index(s, s[i].0) == i,
{
    let k = s[i].0;
    assert(has_key(s, k));
    let j = key_index(s, k);
    assert(0 <= j < s.len() && s[j].0 == k);
}

/// The mapping of a list without repeated keys has the list's keys, each
/// with the value that stands beside it.
pub proof fn lemma_to_map_at(s: Seq<Pair>, i: int)
    requires
        distinct(s),
        0 <= i < s.len(),
    ensures
        to_map(s).contains_key(s[i].0),
        to_map(s)[s[i].0] == s[i].1,
{
    lemma_key_index(s, i);
}

/// The mapping of a list without repeated keys has as many keys as the list
/// has pairs.
pub proof fn lemma_to_map_len(s: Seq<Pair>)
    requires
        distinct(s),
    ensures
        to_map(s).dom().finite(),
        to_map(s).dom().len() == s.len(),
{
    let ks = keys(s);
    assert(ks.no_duplicates()) by {
        assert forall|i: int, j: int| 0 <= i < ks.len() && 0 <= j < ks.len() && i != j implies ks[i]
            != ks[j] by {
            assert(ks[i] == s[i].0 && ks[j] == s[j].0);
        }
    }
    assert(to_map(s).dom() =~= ks.to_set()) by {
        assert forall|k: Seq<char>| to_map(s).dom().contains(k) <==> ks.to_set().contains(
            k,
        ) by {
            if has_key(s, k) {
                let i = key_index(s, k);
                assert(ks[i] == k);
            }
            if ks.to_set().contains(k) {
                let i = choose|i: int| 0 <= i < ks.len() && ks[i] == k;
                assert(s[i].0 == k);
            }
        }
    }
    vstd::seq_lib::seq_to_set_is_finite(ks);
    ks.unique_seq_to_set();
}

/// Putting a pair into a list without repeated keys leaves it without
/// repeated keys, and gives the key its new value in the list's mapping.
pub proof fn lemma_put(s: Seq<Pair>, k: Seq<char>, v: Seq<char>)
    requires
        distinct(s),
    ensures
        distinct(put(s, k, v)),
        to_map(put(s, k, v)) == to_map(s).insert(k, v),
        has_key(s, k) ==> put(s, k, v).len() == s.len(),
        !has_key(s, k) ==> put(s, k, v).len() == s.len() + 1,
{
    let t = put(s, k, v);
    let at = if has_key(s, k) {
        key_index(s, k)
    } else {
        s.len() as int
    };
    assert(0 <= at < t.len() && t[at] == (k, v));
    assert forall|i: int| 0 <= i < t.len() && i != at implies 0 <= i < s.len() && t[i] == s[i]
        && s[i].0 != k by {
        if has_key(s, k) {
            assert(s[at].0 == k);
        }
    }
    assert(distinct(t)) by {
        assert forall|i: int, j: int| 0 <= i < t.len() && 0 <= j < t.len() && i != j implies t[i].0
            != t[j].0 by {
            if i != at && j != at {
                assert(s[i].0 != s[j].0);
            }
        }
    }
    assert(to_map(t) =~= to_map(s).insert(k, v)) by {
        assert forall|q: Seq<char>| has_key(t, q) <==> (q == k || has_key(s, q)) by {
            if has_key(t, q) {
                let i = key_index(t, q);
                if i != at {
                    assert(s[i].0 == q);
                }
            }
            if has_key(s, q) && q != k {
                let i = key_index(s, q);
                assert(t[i].0 == q);
            }
        }
        assert forall|q: Seq<char>| has_key(t, q) implies to_map(t)[q] == to_map(s).insert(
            k,
            v,
        )[q] by {
            let i = key_index(t, q);
            lemma_key_index(t, i);
            if q != k {
                lemma_key_index(s, i);
            } else {
                lemma_key_index(t, at);
            }
        }
    }
}

/// Putting a list of pairs into a list without repeated keys lays them over
/// its mapping, and leaves it without repeated keys.
pub proof fn lemma_put_all(s: Seq<Pair>, more: Seq<Pair>)
    requires
        distinct(s),
    ensures
        distinct(put_all(s, more)),
        to_map(put_all(s, more)) == overlay(to_map(s), more),
    decreases more.len(),
{
    if more.len() > 0 {
        lemma_put_all(s, more.drop_last());
        lemma_put(put_all(s, more.drop_last()), more.last().0, more.last().1);
    }
}

/// Some pair of the list has the key exactly when the key has a last value.
pub proof fn lemma_last_value(s: Seq<Pair>, k: Seq<char>)
    ensures
        last_value(s, k) is Some <==> has_key(s, k),
    decreases s.len(),
{
    if s.len() > 0 {
        let rest = s.drop_last();
        lemma_last_value(rest, k);
        if s.last().0 != k {
            if has_key(s, k) {
                let i = key_index(s, k);
                assert(rest[i].0 == k);
            }
            if has_key(rest, k) {
                let i = key_index(rest, k);
                assert(s[i].0 == k);
            }
        } else {
            assert(s[s.len() - 1].0 == k);
        }
    }
}

/// What a key has after pairs were laid over a mapping. The keys of both
/// sides are kept. A key of the pairs has the value of the last pair with
/// that key, whatever the mapping had; a key that no pair has keeps the
/// value that it had in the mapping.
pub proof fn lemma_overlay_lookup(m: Map<Seq<char>, Seq<char>>, more: Seq<Pair>, k: Seq<char>)
    ensures
        overlay(m, more).contains_key(k) <==> (m.contains_key(k) || has_key(more, k)),
        has_key(more, k) ==> last_value(more, k) is Some && overlay(m, more)[k] == last_value(
            more,
            k,
        )->0,
        !has_key(more, k) && m.contains_key(k) ==> overlay(m, more)[k] == m[k],
    decreases more.len(),
{
    lemma_last_value(more, k);
    if more.len() > 0 {
        lemma_last_value(more.drop_last(), k);
        lemma_overlay_lookup(m, more.drop_last(), k);
    }
}

} // verus!
