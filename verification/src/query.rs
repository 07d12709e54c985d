//! The query map of a request: the pairs of the query string, where a name
//! that is repeated keeps its last value.

use crate::assoc::{distinct_keys, has_key, lemma_lookup_at, lemma_lookup_elsewhere, lookup};
use vstd::prelude::*;

verus! {

/// The pairs that `url::form_urlencoded::parse` yields for a query string,
/// in the order of the string.
pub uninterp spec fn form_decoded(query: Seq<char>) -> Seq<(Seq<char>, Seq<char>)>;

/// `url::form_urlencoded::parse` on the bytes of the query string, each pair
/// made owned. The pairs depend on the string alone.
#[verifier::external_body]
fn form_pairs(query: &str) -> (pairs: Vec<(String, String)>)
    ensures
        pairs.deep_view() == form_decoded(query@),
{
    url::form_urlencoded::parse(query.as_bytes()).into_owned().collect()
}

/// The entries with `value` under `key`: in place of the old value where the
/// key is there already, else at the end.
pub open spec fn put(entries: Seq<(Seq<char>, Seq<char>)>, key: Seq<char>, value: Seq<char>) -> Seq<
    (Seq<char>, Seq<char>),
> {
    if has_key(entries, key) {
        Seq::new(
            entries.len(),
            |i: int|
                if entries[i].0 == key {
                    (key, value)
                } else {
                    entries[i]
                },
        )
    } else {
        entries.push((key, value))
    }
}

/// The map that a list of pairs stands for: each name once, at the place
/// where it first occurs, with the value of its last occurrence.
pub open spec fn last_wins(pairs: Seq<(Seq<char>, Seq<char>)>) -> Seq<(Seq<char>, Seq<char>)>
    decreases pairs.len(),
{
    if pairs.len() == 0 {
        Seq::empty()
    } else {
        put(last_wins(pairs.drop_last()), pairs.last().0, pairs.last().1)
    }
}

/// The query map of a request with this query string, if it has one.
pub open spec fn query_map(raw: Option<Seq<char>>) -> Seq<(Seq<char>, Seq<char>)> {
    match raw {
        Some(q) => last_wins(form_decoded(q)),
        None => Seq::empty(),
    }
}

/// Putting a value under a key keeps the keys distinct, and afterwards the
/// key has that value and every other key the value it had.
pub proof fn lemma_put(
    entries: Seq<(Seq<char>, Seq<char>)>,
    key: Seq<char>,
    value: Seq<char>,
    other: Seq<char>,
)
    requires
        distinct_keys(entries),
    ensures
        distinct_keys(put(entries, key, value)),
        lookup(put(entries, key, value), key) == Some(value),
        other != key ==> lookup(put(entries, key, value), other) == lookup(entries, other),
{
    let after = put(entries, key, value);
    if has_key(entries, key) {
        let at = choose|i: int| 0 <= i < entries.len() && (#[trigger] entries[i]).0 == key;
        assert forall|i: int| 0 <= i < after.len() implies (#[trigger] after[i]).0
            == entries[i].0 by {}
        assert(distinct_keys(after)) by {
            assert forall|i: int, j: int| 0 <= i < j < after.len() implies (#[trigger] after[i]).0
                != (#[trigger] after[j]).0 by {
                assert(entries[i].0 != entries[j].0);
            }
        }
        assert(after[at] == (key, value));
        lemma_lookup_at(after, at);
        lemma_lookup_elsewhere(entries, after, key, other);
    } else {
        assert(distinct_keys(after)) by {
            assert forall|i: int, j: int| 0 <= i < j < after.len() implies (#[trigger] after[i]).0
                != (#[trigger] after[j]).0 by {
                if j == entries.len() {
                    assert(entries[i].0 != key);
                } else {
                    assert(entries[i].0 != entries[j].0);
                }
            }
        }
        assert(after.drop_last() =~= entries);
    }
}

/// In the map of a list of pairs no name occurs twice.
pub proof fn lemma_last_wins_distinct(pairs: Seq<(Seq<char>, Seq<char>)>)
    ensures
        distinct_keys(last_wins(pairs)),
    decreases pairs.len(),
{
    if pairs.len() > 0 {
        lemma_last_wins_distinct(pairs.drop_last());
        lemma_put(last_wins(pairs.drop_last()), pairs.last().0, pairs.last().1, pairs.last().0);
    }
}

/// Repeats overwrite: the map of a list of pairs gives each name the value
/// of the last pair with that name, and no value to a name that no pair has.
pub proof fn lemma_last_wins_lookup(pairs: Seq<(Seq<char>, Seq<char>)>, name: Seq<char>)
    ensures
        lookup(last_wins(pairs), name) == lookup(pairs, name),
    decreases pairs.len(),
{
    if pairs.len() > 0 {
        lemma_last_wins_distinct(pairs.drop_last());
        lemma_last_wins_lookup(pairs.drop_last(), name);
        lemma_put(last_wins(pairs.drop_last()), pairs.last().0, pairs.last().1, name);
    }
}

/// Puts `value` under `key`, in place where the key is there already.
fn put_entry(entries: &mut Vec<(String, String)>, key: String, value: String)
    ensures
        final(entries).deep_view() == put(old(entries).deep_view(), key@, value@),
{
    let ghost before = entries.deep_view();
    let n = entries.len();
    let mut found = false;
    let mut j: usize = 0;
    while j < n
        invariant
            j <= n,
            n == entries.len(),
            before.len() == n,
            found <==> exists|k: int| 0 <= k < j && (#[trigger] before[k]).0 == key@,
            forall|k: int|
                0 <= k < j ==> (#[trigger] entries.deep_view()[k]) == (if before[k].0 == key@ {
                    (key@, value@)
                } else {
                    before[k]
                }),
            forall|k: int| j <= k < n ==> (#[trigger] entries.deep_view()[k]) == before[k],
        decreases n - j,
    {
        let ghost prior = entries.deep_view();
        assert(prior[j as int] == before[j as int]);
        if entries[j].0 == key {
            entries[j] = (key.clone(), value.clone());
            found = true;
            assert(before[j as int].0 == key@);
        }
        assert forall|k: int| 0 <= k < n && k != j implies (#[trigger] entries.deep_view()[k])
            == prior[k] by {}
        j = j + 1;
    }
    if found {
        assert(has_key(before, key@));
        assert(entries.deep_view() =~= put(before, key@, value@));
    } else {
        assert(!has_key(before, key@));
        assert(entries.deep_view() =~= before);
        entries.push((key, value));
        assert(entries.deep_view() =~= before.push((key@, value@)));
    }
}

/// The map of a list of decoded pairs: repeats overwrite.
pub fn collapse(pairs: Vec<(String, String)>) -> (query: Vec<(String, String)>)
    ensures
        query.deep_view() == last_wins(pairs.deep_view()),
        distinct_keys(query.deep_view()),
{
    proof {
        lemma_last_wins_distinct(pairs.deep_view());
    }
    let ghost all = pairs.deep_view();
    let mut query: Vec<(String, String)> = Vec::new();
    let n = pairs.len();
    let mut i: usize = 0;
    assert(all.take(0) =~= Seq::empty());
    assert(query.deep_view() =~= Seq::empty());
    while i < n
        invariant
            i <= n,
            n == pairs.len(),
            all == pairs.deep_view(),
            query.deep_view() == last_wins(all.take(i as int)),
        decreases n - i,
    {
        let key = pairs[i].0.clone();
        let value = pairs[i].1.clone();
        assert(all.take(i + 1).drop_last() =~= all.take(i as int));
        assert(all.take(i + 1).last() == (key@, value@));
        put_entry(&mut query, key, value);
        i = i + 1;
    }
    assert(all.take(n as int) =~= all);
    query
}

/// The query map of a query string: its form-decoded pairs, repeats
/// overwriting.
pub fn parse_query(raw: &str) -> (query: Vec<(String, String)>)
    ensures
        query.deep_view() == query_map(Some(raw@)),
        distinct_keys(query.deep_view()),
{
    collapse(form_pairs(raw))
}

} // verus!
