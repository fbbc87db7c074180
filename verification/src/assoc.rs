//! Lists of key and value pairs with distinct keys, read as maps.

use vstd::prelude::*;

verus! {

/// No key occurs twice.
pub open spec fn distinct_keys<K, V>(pairs: Seq<(K, V)>) -> bool {
    forall|i: int, j: int|
        0 <= i < pairs.len() && 0 <= j < pairs.len() && i != j ==> pairs[i].0 != pairs[j].0
}

/// The map from each key to its value.
pub open spec fn map_of<K, V>(pairs: Seq<(K, V)>) -> Map<K, V> {
    Map::new(
        |k: K| exists|i: int| 0 <= i < pairs.len() && pairs[i].0 == k,
        |k: K| pairs[choose|i: int| 0 <= i < pairs.len() && pairs[i].0 == k].1,
    )
}

/// The pairs after one is put: in the place of the pair with the
/// same key where there is one, else behind the last.
pub open spec fn with_pair<K, V>(pairs: Seq<(K, V)>, key: K, value: V) -> Seq<(K, V)> {
    if exists|i: int| 0 <= i < pairs.len() && pairs[i].0 == key {
        pairs.update(choose|i: int| 0 <= i < pairs.len() && pairs[i].0 == key, (key, value))
    } else {
        pairs.push((key, value))
    }
}

/// The pairs without the one of a key.
pub open spec fn without<K, V>(pairs: Seq<(K, V)>, key: K) -> Seq<(K, V)> {
    if exists|i: int| 0 <= i < pairs.len() && pairs[i].0 == key {
        pairs.remove(choose|i: int| 0 <= i < pairs.len() && pairs[i].0 == key)
    } else {
        pairs
    }
}

/// The pairs after each pair of `more` is put, in the order of `more`.
pub open spec fn with_pairs<K, V>(
    pairs: Seq<(K, V)>,
    more: Seq<(K, V)>,
) -> Seq<(K, V)>
    decreases more.len(),
{
    if more.len() == 0 {
        pairs
    } else {
        with_pair(with_pairs(pairs, more.drop_last()), more.last().0, more.last().1)
    }
}

/// Putting a pair keeps the keys distinct and is `Map::insert` on the map.
pub proof fn lemma_with_pair<K, V>(pairs: Seq<(K, V)>, key: K, value: V)
    requires
        distinct_keys(pairs),
    ensures
        distinct_keys(with_pair(pairs, key, value)),
        map_of(with_pair(pairs, key, value)) == map_of(pairs).insert(key, value),
{
    let after = with_pair(pairs, key, value);
    let target = map_of(pairs).insert(key, value);
    lemma_map_of(pairs);
    let found = exists|i: int| 0 <= i < pairs.len() && pairs[i].0 == key;
    let at = if found {
        choose|i: int| 0 <= i < pairs.len() && pairs[i].0 == key
    } else {
        pairs.len() as int
    };
    assert(after.len() == if found { pairs.len() } else { pairs.len() + 1 });
    assert(after[at] == (key, value));
    assert(forall|j: int| 0 <= j < pairs.len() && j != at ==> after[j] == pairs[j]);
    assert(distinct_keys(after));
    lemma_map_of(after);
    assert forall|k: K| #[trigger] map_of(after).dom().contains(k) == target.dom().contains(k) by {
        if map_of(after).dom().contains(k) {
            let j = choose|j: int| 0 <= j < after.len() && after[j].0 == k;
            if j != at {
                assert(pairs[j].0 == k);
            }
        }
        if target.dom().contains(k) {
            if k == key {
                assert(after[at].0 == k);
            } else {
                let j = choose|j: int| 0 <= j < pairs.len() && pairs[j].0 == k;
                assert(after[j].0 == k);
            }
        }
    }
    assert forall|k: K| #[trigger] target.dom().contains(k) implies map_of(after)[k] == target[k] by {
        if k == key {
            assert(after[at].0 == k);
        } else {
            let j = choose|j: int| 0 <= j < pairs.len() && pairs[j].0 == k;
            assert(after[j].0 == k);
            assert(pairs[j].0 == k);
        }
    }
    assert(map_of(after).dom() =~= target.dom());
    assert(map_of(after) =~= target);
}

/// Taking a pair out keeps the keys distinct and is `Map::remove` on the
/// map.
pub proof fn lemma_without<K, V>(pairs: Seq<(K, V)>, key: K)
    requires
        distinct_keys(pairs),
    ensures
        distinct_keys(without(pairs, key)),
        map_of(without(pairs, key)) == map_of(pairs).remove(key),
{
    let after = without(pairs, key);
    let target = map_of(pairs).remove(key);
    lemma_map_of(pairs);
    if exists|i: int| 0 <= i < pairs.len() && pairs[i].0 == key {
        let at = choose|i: int| 0 <= i < pairs.len() && pairs[i].0 == key;
        assert(forall|j: int| 0 <= j < at ==> after[j] == pairs[j]);
        assert(forall|j: int| at <= j < after.len() ==> after[j] == pairs[j + 1]);
        assert forall|a: int, b: int|
            0 <= a < after.len() && 0 <= b < after.len() && a != b implies after[a].0
            != after[b].0 by {
            let a0 = if a < at { a } else { a + 1 };
            let b0 = if b < at { b } else { b + 1 };
            assert(after[a] == pairs[a0]);
            assert(after[b] == pairs[b0]);
        }
        lemma_map_of(after);
        assert forall|k: K| #[trigger] map_of(after).dom().contains(k) == target.dom().contains(k) by {
            if map_of(after).dom().contains(k) {
                let j = choose|j: int| 0 <= j < after.len() && after[j].0 == k;
                let j0 = if j < at { j } else { j + 1 };
                assert(after[j] == pairs[j0]);
                assert(pairs[j0].0 == k);
            }
            if target.dom().contains(k) {
                let j = choose|j: int| 0 <= j < pairs.len() && pairs[j].0 == k;
                let j1 = if j < at { j } else { j - 1 };
                assert(after[j1] == pairs[j]);
                assert(after[j1].0 == k);
            }
        }
        assert forall|k: K| #[trigger] target.dom().contains(k) implies map_of(after)[k] == target[k] by {
            let j = choose|j: int| 0 <= j < pairs.len() && pairs[j].0 == k;
            let j1 = if j < at { j } else { j - 1 };
            assert(after[j1] == pairs[j]);
            assert(after[j1].0 == k);
            assert(pairs[j].0 == k);
        }
        assert(map_of(after).dom() =~= target.dom());
        assert(map_of(after) =~= target);
    } else {
        assert(!map_of(pairs).dom().contains(key));
        assert(map_of(after) =~= target);
    }
}

/// Putting pairs one after the other keeps the keys distinct; on the map
/// the later value wins.
pub proof fn lemma_with_pairs<K, V>(pairs: Seq<(K, V)>, more: Seq<(K, V)>)
    requires
        distinct_keys(pairs),
        distinct_keys(more),
    ensures
        distinct_keys(with_pairs(pairs, more)),
        map_of(with_pairs(pairs, more)) == map_of(pairs).union_prefer_right(
            map_of(more),
        ),
    decreases more.len(),
{
    if more.len() == 0 {
        assert(map_of(more) =~= Map::<K, V>::empty());
        assert(map_of(pairs).union_prefer_right(map_of(more)) =~= map_of(pairs));
    } else {
        let front = more.drop_last();
        lemma_with_pairs(pairs, front);
        lemma_with_pair(with_pairs(pairs, front), more.last().0, more.last().1);
        lemma_map_of(more);
        lemma_map_of(front);
        let key = more.last().0;
        assert(map_of(more) =~= map_of(front).insert(key, more.last().1)) by {
            assert forall|k: K| map_of(more).contains_key(k) implies map_of(
                front,
            ).insert(key, more.last().1).contains_key(k) by {
                let j = choose|j: int| 0 <= j < more.len() && more[j].0 == k;
                if j < front.len() {
                    assert(front[j].0 == k);
                }
            }
            assert forall|k: K| map_of(front).insert(key, more.last().1).contains_key(
                k,
            ) implies map_of(more).contains_key(k) && map_of(more)[k] == map_of(
                front,
            ).insert(key, more.last().1)[k] by {
                if k == key {
                    assert(more[more.len() - 1].0 == k);
                } else {
                    let j = choose|j: int| 0 <= j < front.len() && front[j].0 == k;
                    assert(more[j].0 == k);
                    assert(more[j] == front[j]);
                }
            }
        }
        assert(map_of(pairs).union_prefer_right(map_of(front)).insert(
            key,
            more.last().1,
        ) =~= map_of(pairs).union_prefer_right(map_of(more)));
    }
}

pub proof fn lemma_map_of<K, V>(pairs: Seq<(K, V)>)
    requires
        distinct_keys(pairs),
    ensures
        forall|i: int|
            0 <= i < pairs.len() ==> map_of(pairs).contains_key(#[trigger] pairs[i].0)
                && map_of(pairs)[pairs[i].0] == pairs[i].1,
        forall|k: K| #[trigger]
            map_of(pairs).contains_key(k) ==> exists|i: int|
                0 <= i < pairs.len() && pairs[i].0 == k,
        map_of(pairs).dom().finite(),
{
    assert forall|i: int| 0 <= i < pairs.len() implies map_of(pairs).contains_key(
        #[trigger] pairs[i].0,
    ) && map_of(pairs)[pairs[i].0] == pairs[i].1 by {
        let k = pairs[i].0;
        let j = choose|j: int| 0 <= j < pairs.len() && pairs[j].0 == k;
        assert(j == i);
    }
    lemma_map_of_finite(pairs);
}

pub proof fn lemma_map_of_finite<K, V>(pairs: Seq<(K, V)>)
    ensures
        map_of(pairs).dom().finite(),
    decreases pairs.len(),
{
    if pairs.len() == 0 {
        assert(map_of(pairs).dom() =~= Set::<K>::empty());
    } else {
        lemma_map_of_finite(pairs.drop_last());
        let front = pairs.drop_last();
        assert(map_of(pairs).dom() =~= map_of(front).dom().insert(pairs.last().0)) by {
            assert forall|k: K| map_of(pairs).dom().contains(k) implies map_of(
                front,
            ).dom().insert(pairs.last().0).contains(k) by {
                let i = choose|i: int| 0 <= i < pairs.len() && pairs[i].0 == k;
                if i < pairs.len() - 1 {
                    assert(front[i].0 == k);
                }
            }
            assert forall|k: K|
                map_of(front).dom().insert(pairs.last().0).contains(
                    k,
                ) implies map_of(pairs).dom().contains(k) by {
                if k == pairs.last().0 {
                    assert(pairs[pairs.len() - 1].0 == k);
                } else {
                    let i = choose|i: int| 0 <= i < front.len() && front[i].0 == k;
                    assert(pairs[i].0 == k);
                }
            }
        }
    }
}

/// Two lists of distinct keys with the same map have the same length.
pub proof fn lemma_same_map_same_len<K, V>(a: Seq<(K, V)>, b: Seq<(K, V)>)
    requires
        distinct_keys(a),
        distinct_keys(b),
        map_of(a) == map_of(b),
    ensures
        a.len() == b.len(),
{
    lemma_map_len(a);
    lemma_map_len(b);
}

/// The map of a list of distinct keys has as many keys as the list has
/// pairs.
pub proof fn lemma_map_len<K, V>(a: Seq<(K, V)>)
    requires
        distinct_keys(a),
    ensures
        map_of(a).dom().finite(),
        map_of(a).dom().len() == a.len(),
    decreases a.len(),
{
    lemma_map_of(a);
    if a.len() == 0 {
        assert(map_of(a).dom() =~= Set::<K>::empty());
    } else {
        let front = a.drop_last();
        assert(distinct_keys(front));
        lemma_map_len(front);
        lemma_map_of(front);
        assert(!map_of(front).dom().contains(a.last().0)) by {
            if map_of(front).dom().contains(a.last().0) {
                let j = choose|j: int| 0 <= j < front.len() && front[j].0 == a.last().0;
                assert(a[j].0 == a[a.len() - 1].0);
            }
        }
        assert(map_of(a).dom() =~= map_of(front).dom().insert(a.last().0)) by {
            assert forall|k: K| #[trigger] map_of(a).dom().contains(k) == map_of(
                front,
            ).dom().insert(a.last().0).contains(k) by {
                if map_of(a).dom().contains(k) {
                    let j = choose|j: int| 0 <= j < a.len() && a[j].0 == k;
                    if j < front.len() {
                        assert(front[j].0 == k);
                    }
                }
                if map_of(front).dom().contains(k) {
                    let j = choose|j: int| 0 <= j < front.len() && front[j].0 == k;
                    assert(a[j].0 == k);
                }
                if k == a.last().0 {
                    assert(a[a.len() - 1].0 == k);
                }
            }
        }
    }
}

/// Where every pair of `a` is in the map of `b` with its value, and both
/// have the same number of pairs, the maps are the same.
pub proof fn lemma_included_same_len<K, V>(a: Seq<(K, V)>, b: Seq<(K, V)>)
    requires
        distinct_keys(a),
        distinct_keys(b),
        a.len() == b.len(),
        forall|k: int|
            0 <= k < a.len() ==> map_of(b).contains_key(#[trigger] a[k].0) && map_of(b)[a[k].0]
                == a[k].1,
    ensures
        map_of(a) == map_of(b),
{
    lemma_map_len(a);
    lemma_map_len(b);
    lemma_map_of(a);
    lemma_map_of(b);
    assert(map_of(a).dom().subset_of(map_of(b).dom())) by {
        assert forall|k: K| map_of(a).dom().contains(k) implies map_of(
            b,
        ).dom().contains(k) by {
            let j = choose|j: int| 0 <= j < a.len() && a[j].0 == k;
            assert(map_of(b).contains_key(a[j].0));
        }
    }
    vstd::set_lib::lemma_subset_equality(map_of(a).dom(), map_of(b).dom());
    assert forall|k: K| #[trigger] map_of(a).dom().contains(k) implies map_of(a)[k]
        == map_of(b)[k] by {
        let j = choose|j: int| 0 <= j < a.len() && a[j].0 == k;
        assert(map_of(b)[a[j].0] == a[j].1);
    }
    assert(map_of(a) =~= map_of(b));
}


/// Putting a pair under a key that is not there appends it.
pub proof fn lemma_with_pair_fresh<K, V>(pairs: Seq<(K, V)>, key: K, value: V)
    requires
        forall|i: int| 0 <= i < pairs.len() ==> (#[trigger] pairs[i]).0 != key,
    ensures
        with_pair(pairs, key, value) == pairs.push((key, value)),
{
}

} // verus!
