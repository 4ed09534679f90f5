//! Rows kept in a sequence, read as the map from key to value that they
//! spell out when no key occurs twice.

use vstd::prelude::*;

verus! {

/// Whether `entries[at]` exists and has the key `key`.
pub open spec fn keyed_at<K, V>(entries: Seq<(K, V)>, at: int, key: K) -> bool {
    0 <= at < entries.len() && entries[at].0 == key
}

/// No key occurs twice.
pub open spec fn distinct_keys<K, V>(entries: Seq<(K, V)>) -> bool {
    forall|i: int, j: int|
        0 <= i < j < entries.len() ==> (#[trigger] entries[i]).0 != (#[trigger] entries[j]).0
}

/// The map that `entries` spell out: each key to the value beside it.
pub open spec fn table_of<K, V>(entries: Seq<(K, V)>) -> Map<K, V> {
    Map::new(
        |key: K| exists|at: int| keyed_at(entries, at, key),
        |key: K| entries[choose|at: int| keyed_at(entries, at, key)].1,
    )
}

/// An entry of the sequence is an entry of the map.
pub proof fn lemma_entry_at<K, V>(entries: Seq<(K, V)>, at: int)
    requires
        distinct_keys(entries),
        0 <= at < entries.len(),
    ensures
        table_of(entries).contains_key(entries[at].0),
        table_of(entries)[entries[at].0] == entries[at].1,
{
    let key = entries[at].0;
    assert(keyed_at(entries, at, key));
    let chosen = choose|other: int| keyed_at(entries, other, key);
    assert(keyed_at(entries, chosen, key));
    if chosen != at {
        if chosen < at {
            assert(entries[chosen].0 != entries[at].0);
        } else {
            assert(entries[at].0 != entries[chosen].0);
        }
    }
}

/// A key of the map is the key of some entry, which holds its value.
pub proof fn lemma_key_at<K, V>(entries: Seq<(K, V)>, key: K) -> (at: int)
    requires
        distinct_keys(entries),
        table_of(entries).contains_key(key),
    ensures
        keyed_at(entries, at, key),
        table_of(entries)[key] == entries[at].1,
{
    let at = choose|at: int| keyed_at(entries, at, key);
    lemma_entry_at(entries, at);
    at
}

/// Appending an entry under a key that is not there inserts it.
pub proof fn lemma_push<K, V>(entries: Seq<(K, V)>, entry: (K, V))
    requires
        distinct_keys(entries),
        !table_of(entries).contains_key(entry.0),
    ensures
        distinct_keys(entries.push(entry)),
        table_of(entries.push(entry)) == table_of(entries).insert(entry.0, entry.1),
{
    let longer = entries.push(entry);
    assert forall|i: int, j: int| 0 <= i < j < longer.len() implies (#[trigger] longer[i]).0 != (
    #[trigger] longer[j]).0 by {
        if j == entries.len() {
            assert(keyed_at(entries, i, entries[i].0));
        } else {
            assert(entries[i].0 != entries[j].0);
        }
    }
    assert forall|key: K| #[trigger]
        table_of(longer).contains_key(key) <==> table_of(entries).insert(
            entry.0,
            entry.1,
        ).contains_key(key) by {
        if table_of(longer).contains_key(key) {
            let at = choose|at: int| keyed_at(longer, at, key);
            if at < entries.len() {
                assert(keyed_at(entries, at, key));
            }
        }
        if table_of(entries).contains_key(key) {
            let at = choose|at: int| keyed_at(entries, at, key);
            assert(keyed_at(longer, at, key));
        }
        if key == entry.0 {
            assert(keyed_at(longer, entries.len() as int, key));
        }
    }
    assert forall|key: K| #[trigger] table_of(longer).contains_key(key) implies table_of(longer)[key]
        == table_of(entries).insert(entry.0, entry.1)[key] by {
        let at = lemma_key_at(longer, key);
        if at < entries.len() {
            assert(keyed_at(entries, at, key));
            lemma_entry_at(entries, at);
        }
    }
    assert(table_of(longer) =~= table_of(entries).insert(entry.0, entry.1));
}

/// Taking an entry out removes its key.
pub proof fn lemma_remove<K, V>(entries: Seq<(K, V)>, at: int)
    requires
        distinct_keys(entries),
        0 <= at < entries.len(),
    ensures
        distinct_keys(entries.remove(at)),
        table_of(entries.remove(at)) == table_of(entries).remove(entries[at].0),
{
    let shorter = entries.remove(at);
    let gone = entries[at].0;
    assert forall|i: int, j: int| 0 <= i < j < shorter.len() implies (#[trigger] shorter[i]).0 != (
    #[trigger] shorter[j]).0 by {
        let from_i = if i < at { i } else { i + 1 };
        let from_j = if j < at { j } else { j + 1 };
        assert(entries[from_i].0 != entries[from_j].0);
    }
    assert forall|key: K| #[trigger]
        table_of(shorter).contains_key(key) <==> table_of(entries).remove(gone).contains_key(
            key,
        ) by {
        if table_of(shorter).contains_key(key) {
            let i = choose|i: int| keyed_at(shorter, i, key);
            let from_i = if i < at { i } else { i + 1 };
            assert(keyed_at(entries, from_i, key));
            if from_i < at {
                assert(entries[from_i].0 != entries[at].0);
            } else {
                assert(entries[at].0 != entries[from_i].0);
            }
        }
        if table_of(entries).remove(gone).contains_key(key) {
            let i = choose|i: int| keyed_at(entries, i, key);
            let to_i = if i < at { i } else { i - 1 };
            assert(keyed_at(shorter, to_i, key));
        }
    }
    assert forall|key: K| #[trigger] table_of(shorter).contains_key(key) implies table_of(
        shorter,
    )[key] == table_of(entries).remove(gone)[key] by {
        let i = lemma_key_at(shorter, key);
        let from_i = if i < at { i } else { i + 1 };
        assert(keyed_at(entries, from_i, key));
        lemma_entry_at(entries, from_i);
    }
    assert(table_of(shorter) =~= table_of(entries).remove(gone));
}

/// Overwriting an entry, under its own key or under one that is not there,
/// removes the old key and inserts the new entry.
pub proof fn lemma_update<K, V>(entries: Seq<(K, V)>, at: int, entry: (K, V))
    requires
        distinct_keys(entries),
        0 <= at < entries.len(),
        entry.0 == entries[at].0 || !table_of(entries).contains_key(entry.0),
    ensures
        distinct_keys(entries.update(at, entry)),
        table_of(entries.update(at, entry)) == table_of(entries).remove(entries[at].0).insert(
            entry.0,
            entry.1,
        ),
{
    let changed = entries.update(at, entry);
    let gone = entries[at].0;
    let expected = table_of(entries).remove(gone).insert(entry.0, entry.1);
    assert forall|i: int, j: int| 0 <= i < j < changed.len() implies (#[trigger] changed[i]).0 != (
    #[trigger] changed[j]).0 by {
        assert(entries[i].0 != entries[j].0);
        if i == at {
            assert(keyed_at(entries, j, entries[j].0));
        }
        if j == at {
            assert(keyed_at(entries, i, entries[i].0));
        }
    }
    assert forall|key: K| #[trigger]
        table_of(changed).contains_key(key) <==> expected.contains_key(key) by {
        if table_of(changed).contains_key(key) {
            let i = choose|i: int| keyed_at(changed, i, key);
            if i != at {
                assert(keyed_at(entries, i, key));
                if i < at {
                    assert(entries[i].0 != entries[at].0);
                } else {
                    assert(entries[at].0 != entries[i].0);
                }
            }
        }
        if expected.contains_key(key) {
            if key == entry.0 {
                assert(keyed_at(changed, at, key));
            } else {
                let i = choose|i: int| keyed_at(entries, i, key);
                assert(keyed_at(changed, i, key));
            }
        }
    }
    assert forall|key: K| #[trigger] table_of(changed).contains_key(key) implies table_of(
        changed,
    )[key] == expected[key] by {
        let i = lemma_key_at(changed, key);
        if i != at {
            assert(keyed_at(entries, i, key));
            lemma_entry_at(entries, i);
        }
    }
    assert(table_of(changed) =~= expected);
}

} // verus!
