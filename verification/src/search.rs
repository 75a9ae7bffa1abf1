//! Finding the first place of a value in a sequence.

use vstd::prelude::*;

verus! {

/// `i` is the first place in `keys` that holds `key`.
pub open spec fn is_first<K>(keys: Seq<K>, key: K, i: int) -> bool {
    &&& 0 <= i < keys.len()
    &&& keys[i] == key
    &&& forall|j: int| 0 <= j < i ==> #[trigger] keys[j] != key
}

/// The first place in `keys` that holds `key`, if there is one.
pub open spec fn first_index<K>(keys: Seq<K>, key: K) -> Option<int> {
    if exists|i: int| is_first(keys, key, i) {
        Some(choose|i: int| is_first(keys, key, i))
    } else {
        None
    }
}

/// A first place is the first index.
pub proof fn lemma_first_index_is<K>(keys: Seq<K>, key: K, i: int)
    requires
        is_first(keys, key, i),
    ensures
        first_index(keys, key) == Some(i),
{
    let k = choose|k: int| is_first(keys, key, k);
    if k < i {
        assert(keys[k] != key);
    }
    if i < k {
        assert(keys[i] != key);
    }
}

/// What the first index says of the list: a place that holds the key with
/// none before it, or that no place holds the key.
pub proof fn lemma_first_index<K>(keys: Seq<K>, key: K)
    ensures
        match first_index(keys, key) {
            Some(i) => is_first(keys, key, i),
            None => forall|j: int| 0 <= j < keys.len() ==> #[trigger] keys[j] != key,
        },
    decreases keys.len(),
{
    if first_index(keys, key) is None {
        assert forall|j: int| 0 <= j < keys.len() implies #[trigger] keys[j] != key by {
            if keys[j] == key {
                lemma_some_place_has_first(keys, key, j);
            }
        }
    }
}

/// Where some place holds the key, some place is the first to.
proof fn lemma_some_place_has_first<K>(keys: Seq<K>, key: K, j: int)
    requires
        0 <= j < keys.len(),
        keys[j] == key,
    ensures
        exists|i: int| is_first(keys, key, i),
    decreases j,
{
    if exists|k: int| 0 <= k < j && keys[k] == key {
        let k = choose|k: int| 0 <= k < j && keys[k] == key;
        lemma_some_place_has_first(keys, key, k);
    } else {
        assert(is_first(keys, key, j));
    }
}

} // verus!
