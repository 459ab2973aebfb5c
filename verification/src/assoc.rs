//! Association sequences viewed as maps.
//!
//! The in-memory record store keeps each table as a vector of rows with
//! pairwise-distinct keys; its contracts speak of the map the vector
//! denotes.  This module defines that map and the lemmas that carry vector
//! operations over to map operations.

use vstd::prelude::*;

verus! {

/// The map an association sequence denotes under a key projection; a later
/// row wins (irrelevant once keys are unique).
pub open spec fn map_of<K, V>(s: Seq<V>, key: spec_fn(V) -> K) -> Map<K, V>
    decreases s.len(),
{
    if s.len() == 0 {
        Map::empty()
    } else {
        map_of(s.drop_last(), key).insert(key(s.last()), s.last())
    }
}

/// Pairwise-distinct keys.
pub open spec fn keys_unique<K, V>(s: Seq<V>, key: spec_fn(V) -> K) -> bool {
    forall|i: int, j: int| 0 <= i < j < s.len() ==> key(s[i]) != key(s[j])
}

/// The denoted map holds a key exactly when some row carries it.
pub proof fn lemma_map_of_dom<K, V>(s: Seq<V>, key: spec_fn(V) -> K)
    ensures
        forall|k: K| #[trigger] map_of(s, key).dom().contains(k) <==> (exists|i: int|
            0 <= i < s.len() && key(#[trigger] s[i]) == k),
    decreases s.len(),
{
    if s.len() > 0 {
        let t = s.drop_last();
        lemma_map_of_dom(t, key);
        assert forall|k: K| #[trigger] map_of(s, key).dom().contains(k) implies (exists|i: int|
            0 <= i < s.len() && key(#[trigger] s[i]) == k) by {
            if k == key(s.last()) {
                assert(0 <= s.len() - 1 < s.len() && key(s[s.len() - 1]) == k);
            } else {
                assert(map_of(t, key).dom().contains(k));
                let i = choose|i: int| 0 <= i < t.len() && key(#[trigger] t[i]) == k;
                assert(s[i] == t[i]);
                assert(0 <= i < s.len() && key(s[i]) == k);
            }
        }
        assert forall|k: K|
            (exists|i: int| 0 <= i < s.len() && key(#[trigger] s[i]) == k) implies #[trigger] map_of(
            s,
            key,
        ).dom().contains(k) by {
            let i = choose|i: int| 0 <= i < s.len() && key(#[trigger] s[i]) == k;
            if i < s.len() - 1 {
                assert(t[i] == s[i]);
                assert(key(t[i]) == k);
                assert(map_of(t, key).dom().contains(k));
            } else {
                assert(k == key(s.last()));
            }
        }
    }
}

/// Under unique keys, the denoted map sends each row's key to that row.
pub proof fn lemma_map_of_index<K, V>(s: Seq<V>, key: spec_fn(V) -> K, i: int)
    requires
        keys_unique(s, key),
        0 <= i < s.len(),
    ensures
        map_of(s, key).dom().contains(key(s[i])),
        map_of(s, key)[key(s[i])] == s[i],
    decreases s.len(),
{
    lemma_map_of_dom(s, key);
    if i < s.len() - 1 {
        assert(keys_unique(s.drop_last(), key)) by {
            assert(forall|a: int, b: int|
                0 <= a < b < s.drop_last().len() ==> key(#[trigger] s.drop_last()[a]) != key(
                    #[trigger] s.drop_last()[b],
                ));
        }
        assert(s.drop_last()[i] == s[i]);
        lemma_map_of_index(s.drop_last(), key, i);
        assert(key(s[i]) != key(s[s.len() - 1]));
    }
}

/// The denoted map of a push is an insert.
pub proof fn lemma_map_of_push<K, V>(s: Seq<V>, key: spec_fn(V) -> K, v: V)
    ensures
        map_of(s.push(v), key) == map_of(s, key).insert(key(v), v),
{
    assert(s.push(v).drop_last() =~= s);
    assert(s.push(v).last() == v);
}

/// Replacing a row under its own key is an insert on the denoted map.
pub proof fn lemma_map_of_update<K, V>(s: Seq<V>, key: spec_fn(V) -> K, i: int, v: V)
    requires
        keys_unique(s, key),
        0 <= i < s.len(),
        key(v) == key(s[i]),
    ensures
        map_of(s.update(i, v), key) == map_of(s, key).insert(key(v), v),
        keys_unique(s.update(i, v), key),
    decreases s.len(),
{
    let t = s.update(i, v);
    if i == s.len() - 1 {
        assert(t.drop_last() =~= s.drop_last());
        assert(t.last() == v);
    } else {
        assert(keys_unique(s.drop_last(), key)) by {
            assert(forall|a: int, b: int|
                0 <= a < b < s.drop_last().len() ==> key(#[trigger] s.drop_last()[a]) != key(
                    #[trigger] s.drop_last()[b],
                ));
        }
        assert(t.drop_last() =~= s.drop_last().update(i, v));
        lemma_map_of_update(s.drop_last(), key, i, v);
        assert(t.last() == s.last());
        assert(key(s[i]) != key(s[s.len() - 1]));
        assert(map_of(t, key) =~= map_of(s, key).insert(key(v), v)) by {
            assert(map_of(t, key) == map_of(s.drop_last(), key).insert(key(v), v).insert(
                key(s.last()),
                s.last(),
            ));
        }
    }
}

/// Removing a row removes its key from the denoted map.
pub proof fn lemma_map_of_remove<K, V>(s: Seq<V>, key: spec_fn(V) -> K, i: int)
    requires
        keys_unique(s, key),
        0 <= i < s.len(),
    ensures
        map_of(s.remove(i), key) == map_of(s, key).remove(key(s[i])),
        keys_unique(s.remove(i), key),
    decreases s.len(),
{
    let t = s.remove(i);
    lemma_map_of_dom(s, key);
    lemma_map_of_dom(t, key);
    if i == s.len() - 1 {
        assert(t =~= s.drop_last());
        assert(map_of(t, key) =~= map_of(s, key).remove(key(s[i]))) by {
            assert(!map_of(t, key).dom().contains(key(s[i])));
            lemma_map_of_dom(s.drop_last(), key);
        }
    } else {
        assert(keys_unique(s.drop_last(), key)) by {
            assert(forall|a: int, b: int|
                0 <= a < b < s.drop_last().len() ==> key(#[trigger] s.drop_last()[a]) != key(
                    #[trigger] s.drop_last()[b],
                ));
        }
        assert(t.drop_last() =~= s.drop_last().remove(i));
        lemma_map_of_remove(s.drop_last(), key, i);
        assert(t.last() == s.last());
        assert(key(s[i]) != key(s[s.len() - 1]));
        assert(map_of(t, key) =~= map_of(s, key).remove(key(s[i])));
    }
}

/// The denoted map is finite.
pub proof fn lemma_map_of_finite<K, V>(s: Seq<V>, key: spec_fn(V) -> K)
    ensures
        map_of(s, key).dom().finite(),
    decreases s.len(),
{
    if s.len() > 0 {
        lemma_map_of_finite(s.drop_last(), key);
    }
}

/// Under unique keys, counting rows that satisfy a predicate equals the
/// size of the matching part of the denoted map's domain.
pub proof fn lemma_map_of_filter_card<K, V>(s: Seq<V>, key: spec_fn(V) -> K, pred: spec_fn(V) -> bool)
    requires
        keys_unique(s, key),
    ensures
        map_of(s, key).dom().filter(
            |k: K| pred(map_of(s, key)[k]),
        ).len() == s.filter(pred).len(),
    decreases s.len(),
{
    reveal(Seq::filter);
    lemma_map_of_finite(s, key);
    lemma_map_of_dom(s, key);
    if s.len() == 0 {
        assert(map_of(s, key).dom().filter(|k: K| pred(map_of(s, key)[k])) =~= Set::<K>::empty());
    } else {
        let t = s.drop_last();
        let v = s.last();
        assert(keys_unique(t, key)) by {
            assert(forall|a: int, b: int|
                0 <= a < b < t.len() ==> key(#[trigger] t[a]) != key(#[trigger] t[b]));
        }
        lemma_map_of_filter_card(t, key, pred);
        lemma_map_of_finite(t, key);
        lemma_map_of_dom(t, key);
        let big = map_of(s, key);
        let small = map_of(t, key);
        let a = big.dom().filter(|k: K| pred(big[k]));
        let b = small.dom().filter(|k: K| pred(small[k]));
        assert(!small.dom().contains(key(v))) by {
            if small.dom().contains(key(v)) {
                let i = choose|i: int| 0 <= i < t.len() && key(#[trigger] t[i]) == key(v);
                assert(key(s[i]) == key(s[s.len() - 1]));
            }
        }
        assert(big == small.insert(key(v), v));
        if pred(v) {
            assert(a =~= b.insert(key(v))) by {
                assert forall|k: K| #[trigger] a.contains(k) implies b.insert(key(v)).contains(
                    k,
                ) by {
                    if k != key(v) {
                        assert(small[k] == big[k]);
                    }
                }
                assert forall|k: K| #[trigger] b.insert(key(v)).contains(k) implies a.contains(
                    k,
                ) by {
                    if k != key(v) {
                        assert(small[k] == big[k]);
                    }
                }
            }
            assert(b.finite());
            assert(!b.contains(key(v)));
            assert(a.len() == b.len() + 1);
            assert(s.filter(pred) == t.filter(pred).push(v));
        } else {
            assert(a =~= b) by {
                assert forall|k: K| #[trigger] a.contains(k) implies b.contains(k) by {
                    assert(k != key(v));
                    assert(small[k] == big[k]);
                }
                assert forall|k: K| #[trigger] b.contains(k) implies a.contains(k) by {
                    assert(k != key(v));
                    assert(small[k] == big[k]);
                }
            }
            assert(s.filter(pred) == t.filter(pred));
        }
    }
}

} // verus!
