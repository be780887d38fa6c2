//! Association lists keyed by character sequences, and the maps they denote.
use vstd::prelude::*;

verus! {

/// No key occurs twice in the list.
pub open spec fn keys_unique<V>(pairs: Seq<(Seq<char>, V)>) -> bool {
    forall|i: int, j: int| 0 <= i < j < pairs.len() ==> pairs[i].0 != pairs[j].0
}

/// The map that a list of pairs denotes; a later pair wins over an earlier one.
pub open spec fn pairs_map<V>(pairs: Seq<(Seq<char>, V)>) -> Map<Seq<char>, V>
    decreases pairs.len(),
{
    if pairs.len() == 0 {
        Map::empty()
    } else {
        pairs_map(pairs.drop_last()).insert(pairs.last().0, pairs.last().1)
    }
}

/// A key is in the map exactly when some pair carries it; with unique keys the
/// map gives that pair's value.
pub proof fn lemma_pairs_map_lookup<V>(pairs: Seq<(Seq<char>, V)>, key: Seq<char>)
    requires
        keys_unique(pairs),
    ensures
        pairs_map(pairs).contains_key(key) <==> exists|i: int|
            0 <= i < pairs.len() && #[trigger] pairs[i].0 == key,
        forall|i: int|
            0 <= i < pairs.len() && #[trigger] pairs[i].0 == key ==> pairs_map(pairs)[key]
                == pairs[i].1,
    decreases pairs.len(),
{
    if pairs.len() > 0 {
        let init = pairs.drop_last();
        let n = pairs.len() - 1;
        assert forall|i: int, j: int| 0 <= i < j < init.len() implies init[i].0 != init[j].0 by {
            assert(init[i] == pairs[i] && init[j] == pairs[j]);
        }
        lemma_pairs_map_lookup(init, key);
        assert forall|i: int| 0 <= i < pairs.len() && #[trigger] pairs[i].0 == key implies pairs_map(pairs).contains_key(key)
            && pairs_map(pairs)[key] == pairs[i].1 by {
            if i < n {
                assert(init[i] == pairs[i]);
                assert(pairs[n].0 != key);
            }
        }
        if pairs_map(pairs).contains_key(key) {
            if pairs[n].0 != key {
                let i = choose|i: int| 0 <= i < init.len() && #[trigger] init[i].0 == key;
                assert(init[i] == pairs[i]);
                assert(pairs[i].0 == key);
            }
        }
    }
}

/// The map of a list is finite.
pub proof fn lemma_pairs_map_finite<V>(pairs: Seq<(Seq<char>, V)>)
    ensures
        pairs_map(pairs).dom().finite(),
    decreases pairs.len(),
{
    if pairs.len() > 0 {
        lemma_pairs_map_finite(pairs.drop_last());
    }
}

/// Replacing the value of a pair whose key is already present updates the map.
pub proof fn lemma_pairs_map_update<V>(
    pairs: Seq<(Seq<char>, V)>,
    i: int,
    value: V,
)
    requires
        keys_unique(pairs),
        0 <= i < pairs.len(),
    ensures
        keys_unique(pairs.update(i, (pairs[i].0, value))),
        pairs_map(pairs.update(i, (pairs[i].0, value))) =~= pairs_map(pairs).insert(
            pairs[i].0,
            value,
        ),
{
    let key = pairs[i].0;
    let updated = pairs.update(i, (key, value));
    assert(keys_unique(updated));
    assert forall|k: Seq<char>| #[trigger] pairs_map(updated).contains_key(k) <==> pairs_map(
        pairs,
    ).insert(key, value).contains_key(k) by {
        lemma_pairs_map_lookup(pairs, k);
        lemma_pairs_map_lookup(updated, k);
        if pairs_map(pairs).insert(key, value).contains_key(k) && k != key {
            let j = choose|j: int| 0 <= j < pairs.len() && #[trigger] pairs[j].0 == k;
            assert(updated[j].0 == k);
        }
        if k == key {
            assert(updated[i].0 == k);
        }
        if pairs_map(updated).contains_key(k) {
            let j = choose|j: int| 0 <= j < updated.len() && #[trigger] updated[j].0 == k;
            assert(pairs[j].0 == k);
        }
    }
    assert forall|k: Seq<char>| #[trigger] pairs_map(updated).contains_key(k) implies pairs_map(
        updated,
    )[k] == pairs_map(pairs).insert(key, value)[k] by {
        lemma_pairs_map_lookup(pairs, k);
        lemma_pairs_map_lookup(updated, k);
        let j = choose|j: int| 0 <= j < updated.len() && #[trigger] updated[j].0 == k;
        assert(pairs[j].0 == k);
    }
}

/// Appending a pair whose key is new inserts it into the map.
pub proof fn lemma_pairs_map_push<V>(pairs: Seq<(Seq<char>, V)>, key: Seq<char>, value: V)
    requires
        keys_unique(pairs),
        forall|i: int| 0 <= i < pairs.len() ==> #[trigger] pairs[i].0 != key,
    ensures
        keys_unique(pairs.push((key, value))),
        pairs_map(pairs.push((key, value))) == pairs_map(pairs).insert(key, value),
{
    let pushed = pairs.push((key, value));
    assert(pushed.drop_last() =~= pairs);
    assert forall|i: int, j: int| 0 <= i < j < pushed.len() implies pushed[i].0 != pushed[j].0 by {
        if j == pairs.len() {
            assert(pushed[i] == pairs[i]);
        } else {
            assert(pushed[i] == pairs[i] && pushed[j] == pairs[j]);
        }
    }
}

} // verus!
