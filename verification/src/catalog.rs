//! Lists of entries that are found by name: what the status and workflow
//! catalogs have in common, as mathematics.
//!
//! A catalog is a list of names, no name twice, with a list of values beside
//! it. Its table is the map from each name to the value at the name's place.

use vstd::prelude::*;
use crate::search::{first_index, is_first, lemma_first_index, lemma_first_index_is};

verus! {

/// No key stands at two places.
pub open spec fn distinct(keys: Seq<Seq<char>>) -> bool {
    forall|i: int, j: int| 0 <= i < j < keys.len() ==> #[trigger] keys[i] != #[trigger] keys[j]
}

/// The map from each key to the value at the key's first place.
pub open spec fn table<V>(keys: Seq<Seq<char>>, values: Seq<V>) -> Map<Seq<char>, V> {
    Map::new(
        |k: Seq<char>| first_index(keys, k) is Some,
        |k: Seq<char>| values[first_index(keys, k)->0],
    )
}

/// What a lookup of `key` gives.
pub open spec fn lookup<V>(table: Map<Seq<char>, V>, key: Seq<char>) -> Option<V> {
    if table.dom().contains(key) {
        Some(table[key])
    } else {
        None
    }
}

/// In a list without repeats every place is the first of its key.
pub proof fn lemma_distinct_first(keys: Seq<Seq<char>>, i: int)
    requires
        distinct(keys),
        0 <= i < keys.len(),
    ensures
        first_index(keys, keys[i]) == Some(i),
{
    assert(is_first(keys, keys[i], i));
    lemma_first_index_is(keys, keys[i], i);
}

/// A new key at the end is a new entry of the table, and keeps the list
/// without repeats.
pub proof fn lemma_table_push<V>(keys: Seq<Seq<char>>, values: Seq<V>, key: Seq<char>, value: V)
    requires
        keys.len() == values.len(),
        first_index(keys, key) is None,
    ensures
        table(keys.push(key), values.push(value)) == table(keys, values).insert(key, value),
        distinct(keys) ==> distinct(keys.push(key)),
{
    let keys2 = keys.push(key);
    let values2 = values.push(value);
    lemma_first_index(keys, key);
    assert forall|k: Seq<char>| first_index(keys2, k) == (if k == key {
        Some(keys.len() as int)
    } else {
        first_index(keys, k)
    }) by {
        lemma_first_index(keys, k);
        if k == key {
            assert(is_first(keys2, k, keys.len() as int));
            lemma_first_index_is(keys2, k, keys.len() as int);
        } else {
            match first_index(keys, k) {
                Some(i) => {
                    assert(is_first(keys2, k, i));
                    lemma_first_index_is(keys2, k, i);
                },
                None => {
                    lemma_first_index(keys2, k);
                    if first_index(keys2, k) is Some {
                        let i = first_index(keys2, k)->0;
                        assert(keys2[i] == k);
                        assert(i < keys.len());
                        assert(keys[i] == k);
                    }
                },
            }
        }
    }
    assert(table(keys2, values2) =~= table(keys, values).insert(key, value));
    if distinct(keys) {
        assert forall|i: int, j: int| 0 <= i < j < keys2.len() implies #[trigger] keys2[i]
            != #[trigger] keys2[j] by {
            if j == keys.len() {
                assert(keys[i] != key);
            } else {
                assert(keys[i] != keys[j]);
            }
        }
    }
}

/// Taking a place out of a list without repeats takes its key out of the
/// table.
pub proof fn lemma_table_remove<V>(keys: Seq<Seq<char>>, values: Seq<V>, at: int)
    requires
        keys.len() == values.len(),
        distinct(keys),
        0 <= at < keys.len(),
    ensures
        table(keys.remove(at), values.remove(at)) == table(keys, values).remove(keys[at]),
        distinct(keys.remove(at)),
{
    let keys2 = keys.remove(at);
    let values2 = values.remove(at);
    assert forall|i: int, j: int| 0 <= i < j < keys2.len() implies #[trigger] keys2[i]
        != #[trigger] keys2[j] by {
        let a = if i < at { i } else { i + 1 };
        let b = if j < at { j } else { j + 1 };
        assert(keys[a] != keys[b]);
    }
    assert forall|k: Seq<char>| first_index(keys2, k) == (match first_index(keys, k) {
        Some(i) => if i == at {
            None
        } else if i < at {
            Some(i)
        } else {
            Some(i - 1)
        },
        None => None,
    }) by {
        lemma_first_index(keys, k);
        lemma_first_index(keys2, k);
        match first_index(keys2, k) {
            Some(i2) => {
                let i = if i2 < at { i2 } else { i2 + 1 };
                assert(keys[i] == k);
                lemma_distinct_first(keys, i);
            },
            None => {
                if first_index(keys, k) is Some {
                    let i = first_index(keys, k)->0;
                    if i != at {
                        let i2 = if i < at { i } else { i - 1 };
                        assert(keys2[i2] == k);
                    }
                }
            },
        }
    }
    lemma_distinct_first(keys, at);
    assert(table(keys2, values2) =~= table(keys, values).remove(keys[at]));
}

/// A new value at a place of a list without repeats is a new value for its
/// key in the table.
pub proof fn lemma_table_update<V>(keys: Seq<Seq<char>>, values: Seq<V>, at: int, value: V)
    requires
        keys.len() == values.len(),
        distinct(keys),
        0 <= at < keys.len(),
    ensures
        table(keys, values.update(at, value)) == table(keys, values).insert(keys[at], value),
{
    lemma_distinct_first(keys, at);
    assert forall|k: Seq<char>| first_index(keys, k) is Some implies 0 <= first_index(keys, k)->0
        < keys.len() by {
        lemma_first_index(keys, k);
    }
    assert(table(keys, values.update(at, value)) =~= table(keys, values).insert(keys[at], value));
}

} // verus!
