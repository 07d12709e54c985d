//! Lists of keyed entries, read as maps: the model behind JSON objects, the
//! query map and the header maps.

use vstd::prelude::*;

verus! {

/// Whether some entry has this key.
pub open spec fn has_key<V>(entries: Seq<(Seq<char>, V)>, key: Seq<char>) -> bool {
    exists|i: int| 0 <= i < entries.len() && (#[trigger] entries[i]).0 == key
}

/// Whether no key occurs twice.
pub open spec fn distinct_keys<V>(entries: Seq<(Seq<char>, V)>) -> bool {
    forall|i: int, j: int|
        0 <= i < j < entries.len() ==> (#[trigger] entries[i]).0 != (#[trigger] entries[j]).0
}

/// The value under `key`: that of the last entry with this key.
pub open spec fn lookup<V>(entries: Seq<(Seq<char>, V)>, key: Seq<char>) -> Option<V>
    decreases entries.len(),
{
    if entries.len() == 0 {
        None
    } else if entries.last().0 == key {
        Some(entries.last().1)
    } else {
        lookup(entries.drop_last(), key)
    }
}

/// Entries from `from` on that do not have the key do not matter to a lookup.
pub proof fn lemma_lookup_prefix<V>(entries: Seq<(Seq<char>, V)>, key: Seq<char>, from: int)
    requires
        0 <= from <= entries.len(),
        forall|k: int| from <= k < entries.len() ==> (#[trigger] entries[k]).0 != key,
    ensures
        lookup(entries, key) == lookup(entries.take(from), key),
    decreases entries.len() - from,
{
    if from < entries.len() {
        assert(entries.drop_last().take(from) =~= entries.take(from));
        lemma_lookup_prefix(entries.drop_last(), key, from);
    } else {
        assert(entries.take(from) =~= entries);
    }
}

/// A lookup finds something exactly where the key occurs.
pub proof fn lemma_lookup_has_key<V>(entries: Seq<(Seq<char>, V)>, key: Seq<char>)
    ensures
        lookup(entries, key).is_some() <==> has_key(entries, key),
    decreases entries.len(),
{
    if entries.len() > 0 {
        let rest = entries.drop_last();
        lemma_lookup_has_key(rest, key);
        if entries.last().0 == key {
            assert(entries[entries.len() - 1].0 == key);
        } else if has_key(rest, key) {
            let i = choose|i: int| 0 <= i < rest.len() && (#[trigger] rest[i]).0 == key;
            assert(entries[i] == rest[i]);
        } else if has_key(entries, key) {
            let i = choose|i: int| 0 <= i < entries.len() && (#[trigger] entries[i]).0 == key;
            assert(rest[i] == entries[i]);
        }
    }
}

/// Among distinct keys, the entry with the key is the one a lookup finds.
pub proof fn lemma_lookup_at<V>(entries: Seq<(Seq<char>, V)>, i: int)
    requires
        0 <= i < entries.len(),
        distinct_keys(entries),
    ensures
        lookup(entries, entries[i].0) == Some(entries[i].1),
    decreases entries.len(),
{
    let rest = entries.drop_last();
    if i == entries.len() - 1 {
    } else {
        assert(entries[i].0 != entries[entries.len() - 1].0);
        assert forall|a: int, b: int| 0 <= a < b < rest.len() implies (#[trigger] rest[a]).0 != (
        #[trigger] rest[b]).0 by {
            assert(rest[a] == entries[a] && rest[b] == entries[b]);
        }
        assert(rest[i] == entries[i]);
        lemma_lookup_at(rest, i);
    }
}

/// Two lists that differ only in the entries under `key` give every other
/// key the same value.
pub proof fn lemma_lookup_elsewhere<V>(
    before: Seq<(Seq<char>, V)>,
    after: Seq<(Seq<char>, V)>,
    key: Seq<char>,
    other: Seq<char>,
)
    requires
        before.len() == after.len(),
        forall|i: int|
            0 <= i < before.len() ==> (#[trigger] after[i]).0 == before[i].0 && (before[i].0 != key
                ==> after[i] == before[i]),
    ensures
        other != key ==> lookup(after, other) == lookup(before, other),
    decreases before.len(),
{
    if before.len() > 0 && other != key {
        let n = before.len() - 1;
        assert(after[n].0 == before[n].0);
        assert forall|i: int| 0 <= i < before.drop_last().len() implies (
        #[trigger] after.drop_last()[i]).0 == before.drop_last()[i].0 && (before.drop_last()[i].0
            != key ==> after.drop_last()[i] == before.drop_last()[i]) by {
            assert(after.drop_last()[i] == after[i]);
        }
        lemma_lookup_elsewhere(before.drop_last(), after.drop_last(), key, other);
    }
}

/// A lookup in two lists, one after the other, finds what the second has,
/// else what the first has.
pub proof fn lemma_lookup_concat<V>(first: Seq<(Seq<char>, V)>, second: Seq<(Seq<char>, V)>)
    ensures
        forall|key: Seq<char>| #[trigger]
            lookup(first + second, key) == (match lookup(second, key) {
                Some(v) => Some(v),
                None => lookup(first, key),
            }),
    decreases second.len(),
{
    if second.len() == 0 {
        assert(first + second =~= first);
        assert forall|key: Seq<char>| #[trigger]
            lookup(first + second, key) == (match lookup(second, key) {
                Some(v) => Some(v),
                None => lookup(first, key),
            }) by {
            assert(lookup(second, key) == None::<V>);
        }
    } else {
        let both = first + second;
        assert(both.drop_last() =~= first + second.drop_last());
        assert(both.last() == second.last());
        lemma_lookup_concat(first, second.drop_last());
        assert forall|key: Seq<char>| #[trigger]
            lookup(both, key) == (match lookup(second, key) {
                Some(v) => Some(v),
                None => lookup(first, key),
            }) by {
            if second.last().0 != key {
                assert(lookup(both, key) == lookup(first + second.drop_last(), key));
                assert(lookup(second, key) == lookup(second.drop_last(), key));
            }
        }
    }
}

/// A list of at most one entry gives the key of that entry its value and no
/// other key a value.
pub proof fn lemma_lookup_short<V>(entries: Seq<(Seq<char>, V)>)
    requires
        entries.len() <= 1,
    ensures
        forall|key: Seq<char>| #[trigger]
            lookup(entries, key) == (if entries.len() == 1 && entries[0].0 == key {
                Some(entries[0].1)
            } else {
                None
            }),
{
    assert forall|key: Seq<char>| #[trigger]
        lookup(entries, key) == (if entries.len() == 1 && entries[0].0 == key {
            Some(entries[0].1)
        } else {
            None
        }) by {
        if entries.len() == 1 {
            assert(entries.last() == entries[0]);
            assert(entries.drop_last().len() == 0);
            assert(lookup(entries.drop_last(), key) == None::<V>);
        }
    }
}

/// The place of the last entry with this key, if the key occurs.
pub fn find_key<V>(entries: &Vec<(String, V)>, key: &str) -> (place: Option<usize>)
    ensures
        match place {
            Some(i) => i < entries.len() && entries@[i as int].0@ == key@ && forall|k: int|
                i < k < entries.len() ==> (#[trigger] entries@[k]).0@ != key@,
            None => forall|k: int| 0 <= k < entries.len() ==> (#[trigger] entries@[k]).0@ != key@,
        },
{
    let wanted = key.to_owned();
    let mut i: usize = entries.len();
    while i > 0
        invariant
            i <= entries.len(),
            wanted@ == key@,
            forall|k: int| i <= k < entries.len() ==> (#[trigger] entries@[k]).0@ != key@,
        decreases i,
    {
        i = i - 1;
        if entries[i].0 == wanted {
            return Some(i);
        }
    }
    None
}

} // verus!
