//! Lists of entries keyed by strings, used where a map from names to values
//! is needed: each key occurs at most once, and a list reads as the map
//! from each key to its value.

use vstd::prelude::*;
use crate::text::chars_of;

verus! {

/// Whether two strings hold the same characters.
pub fn str_eq(a: &str, b: &str) -> (r: bool)
    ensures
        r == (a@ == b@),
{
    let x = chars_of(a);
    let y = chars_of(b);
    if x.len() != y.len() {
        return false;
    }
    let mut i: usize = 0;
    while i < x.len()
        invariant
            i <= x.len(),
            x.len() == y.len(),
            x@ == a@,
            y@ == b@,
            forall|k: int| 0 <= k < i ==> x@[k] == y@[k],
        decreases x.len() - i,
    {
        if x[i] != y[i] {
            return false;
        }
        i = i + 1;
    }
    proof {
        assert(x@ =~= y@);
    }
    true
}

/// The index of the first entry whose key reads `key`, if any.
pub open spec fn key_index<V>(entries: Seq<(String, V)>, key: Seq<char>) -> Option<int>
    decreases entries.len(),
{
    if entries.len() == 0 {
        None
    } else {
        match key_index(entries.drop_last(), key) {
            Some(i) => Some(i),
            None => if entries.last().0@ == key {
                Some(entries.len() - 1)
            } else {
                None
            },
        }
    }
}

/// Whether no key occurs twice among `entries`.
pub open spec fn keys_unique<V>(entries: Seq<(String, V)>) -> bool {
    forall|i: int, j: int|
        0 <= i < j < entries.len() ==> #[trigger] entries[i].0@ != #[trigger] entries[j].0@
}

/// The map from each key of `entries` to its value (for a key that occurs
/// twice, the later value).
pub open spec fn keyed_map<V>(entries: Seq<(String, V)>) -> Map<Seq<char>, V>
    decreases entries.len(),
{
    if entries.len() == 0 {
        Map::empty()
    } else {
        keyed_map(entries.drop_last()).insert(entries.last().0@, entries.last().1)
    }
}

/// The index `key_index` gives holds the key, and no earlier entry does.
pub proof fn lemma_key_index<V>(entries: Seq<(String, V)>, key: Seq<char>)
    ensures
        match key_index(entries, key) {
            Some(i) => 0 <= i < entries.len() && entries[i].0@ == key && forall|k: int|
                0 <= k < i ==> #[trigger] entries[k].0@ != key,
            None => forall|k: int| 0 <= k < entries.len() ==> #[trigger] entries[k].0@ != key,
        },
    decreases entries.len(),
{
    if entries.len() > 0 {
        lemma_key_index(entries.drop_last(), key);
        match key_index(entries.drop_last(), key) {
            Some(i) => {
                assert forall|k: int| 0 <= k < i implies #[trigger] entries[k].0@ != key by {
                    assert(entries[k] == entries.drop_last()[k]);
                }
            },
            None => {
                assert forall|k: int| 0 <= k < entries.len() - 1 implies #[trigger] entries[k].0@
                    != key by {
                    assert(entries[k] == entries.drop_last()[k]);
                }
            },
        }
    }
}

/// A key's entry is found within any prefix that holds it.
proof fn lemma_key_index_prefix<V>(entries: Seq<(String, V)>, n: int, key: Seq<char>)
    requires
        0 <= n <= entries.len(),
        key_index(entries.take(n), key) is Some,
    ensures
        key_index(entries, key) == key_index(entries.take(n), key),
    decreases entries.len(),
{
    if n < entries.len() {
        assert(entries.drop_last().take(n) =~= entries.take(n));
        lemma_key_index_prefix(entries.drop_last(), n, key);
    } else {
        assert(entries.take(n) =~= entries);
    }
}

/// The map of a list whose keys are unique: its keys are the list's keys,
/// each mapped to its entry's value.
pub proof fn lemma_keyed_map<V>(entries: Seq<(String, V)>, key: Seq<char>)
    requires
        keys_unique(entries),
    ensures
        keyed_map(entries).dom().contains(key) <==> key_index(entries, key) is Some,
        key_index(entries, key) matches Some(i) ==> keyed_map(entries)[key] == entries[i].1,
    decreases entries.len(),
{
    if entries.len() > 0 {
        let init = entries.drop_last();
        assert(keys_unique(init)) by {
            assert forall|i: int, j: int| 0 <= i < j < init.len() implies #[trigger] init[i].0@
                != #[trigger] init[j].0@ by {
                assert(init[i] == entries[i] && init[j] == entries[j]);
            }
        }
        lemma_keyed_map(init, key);
        lemma_key_index(init, key);
        if entries.last().0@ == key {
            if let Some(i) = key_index(init, key) {
                assert(init[i] == entries[i]);
                assert(entries[i].0@ != entries[entries.len() - 1].0@);
            }
        }
    }
}

/// The index of the entry whose key reads `key`, if any.
pub fn find_key<V>(entries: &Vec<(String, V)>, key: &str) -> (r: Option<usize>)
    ensures
        match r {
            Some(i) => key_index(entries@, key@) == Some(i as int),
            None => key_index(entries@, key@) is None,
        },
{
    let mut i: usize = 0;
    while i < entries.len()
        invariant
            i <= entries@.len(),
            key_index(entries@.take(i as int), key@) is None,
        decreases entries@.len() - i,
    {
        proof {
            assert(entries@.take(i + 1).drop_last() =~= entries@.take(i as int));
        }
        if str_eq(entries[i].0.as_str(), key) {
            proof {
                assert(key_index(entries@.take(i + 1), key@) == Some(i as int));
                lemma_key_index_prefix(entries@, i as int + 1, key@);
            }
            return Some(i);
        }
        i = i + 1;
    }
    proof {
        assert(entries@.take(entries@.len() as int) =~= entries@);
    }
    None
}

/// What `put` leaves: the entry of `key` takes `value` in its place where
/// the key is present, else the new entry goes last.
pub open spec fn put_spec<V>(entries: Seq<(String, V)>, key: String, value: V) -> Seq<(String, V)> {
    match key_index(entries, key@) {
        Some(i) => entries.update(i, (key, value)),
        None => entries.push((key, value)),
    }
}

/// Set the value of `key` to `value`.
pub fn put<V>(entries: &mut Vec<(String, V)>, key: String, value: V)
    ensures
        final(entries)@ == put_spec(old(entries)@, key, value),
{
    match find_key(entries, key.as_str()) {
        Some(i) => {
            proof {
                lemma_key_index(entries@, key@);
            }
            entries.set(i, (key, value));
        },
        None => {
            entries.push((key, value));
        },
    }
}

/// `put` keeps the keys unique, and reads as an insertion into the map.
pub proof fn lemma_put<V>(entries: Seq<(String, V)>, key: String, value: V)
    requires
        keys_unique(entries),
    ensures
        keys_unique(put_spec(entries, key, value)),
        keyed_map(put_spec(entries, key, value)) == keyed_map(entries).insert(key@, value),
{
    let out = put_spec(entries, key, value);
    lemma_key_index(entries, key@);
    match key_index(entries, key@) {
        Some(i) => {
            assert forall|a: int, b: int| 0 <= a < b < out.len() implies #[trigger] out[a].0@
                != #[trigger] out[b].0@ by {
                if a != i && b != i {
                    assert(out[a] == entries[a] && out[b] == entries[b]);
                }
            }
            assert(keys_unique(out));
            assert forall|k: Seq<char>| #[trigger] keyed_map(out).dom().contains(k) <==> keyed_map(
                entries,
            ).insert(key@, value).dom().contains(k) by {
                lemma_keyed_map(out, k);
                lemma_keyed_map(entries, k);
                lemma_key_index(out, k);
                lemma_key_index(entries, k);
                assert(out[i] == (key, value));
                assert(entries[i].0@ == key@);
                if k == key@ {
                    assert(out[i].0@ == k);
                    assert(key_index(out, k) is Some);
                } else {
                    if key_index(entries, k) is Some {
                        let j = key_index(entries, k)->0;
                        assert(j != i);
                        assert(out[j] == entries[j]);
                        assert(out[j].0@ == k);
                        assert(key_index(out, k) is Some);
                    }
                    if key_index(out, k) is Some {
                        let j = key_index(out, k)->0;
                        assert(j != i);
                        assert(out[j] == entries[j]);
                        assert(entries[j].0@ == k);
                        assert(key_index(entries, k) is Some);
                    }
                }
            }
            assert forall|k: Seq<char>| #[trigger] keyed_map(out).dom().contains(k) implies keyed_map(
                out,
            )[k] == keyed_map(entries).insert(key@, value)[k] by {
                lemma_keyed_map(out, k);
                lemma_keyed_map(entries, k);
                lemma_key_index(out, k);
                lemma_key_index(entries, k);
                if k != key@ {
                    let j = key_index(out, k)->0;
                    assert(out[j] == entries[j]);
                    assert(key_index(entries, k) is Some);
                    let j2 = key_index(entries, k)->0;
                    assert(out[j2] == entries[j2]);
                } else {
                    assert(out[i] == (key, value));
                }
            }
            assert(keyed_map(out) =~= keyed_map(entries).insert(key@, value));
        },
        None => {
            assert(out.drop_last() =~= entries);
        },
    }
}

} // verus!
