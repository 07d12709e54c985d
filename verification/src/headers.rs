//! The header map of a request: each name once, in lower case, with its
//! values in the order in which they came.

use crate::assoc::{distinct_keys, has_key, lemma_lookup_at, lemma_lookup_elsewhere};
use crate::assoc::{lemma_lookup_has_key, lookup};
use crate::text::{lemma_lower_idempotent, lower, to_lower};
use vstd::prelude::*;

verus! {

/// The groups with `value` added under `name`: at the end of the values of
/// that name where it is there already, else as a new group at the end.
pub open spec fn add_value(
    groups: Seq<(Seq<char>, Seq<Seq<char>>)>,
    name: Seq<char>,
    value: Seq<char>,
) -> Seq<(Seq<char>, Seq<Seq<char>>)> {
    if has_key(groups, name) {
        Seq::new(
            groups.len(),
            |i: int|
                if groups[i].0 == name {
                    (name, groups[i].1.push(value))
                } else {
                    groups[i]
                },
        )
    } else {
        groups.push((name, seq![value]))
    }
}

/// The header map of a list of headers: the names in lower case, each once
/// and at the place where it first occurs, with all its values in order.
pub open spec fn grouped(headers: Seq<(Seq<char>, Seq<char>)>) -> Seq<(Seq<char>, Seq<Seq<char>>)>
    decreases headers.len(),
{
    if headers.len() == 0 {
        Seq::empty()
    } else {
        add_value(grouped(headers.drop_last()), lower(headers.last().0), headers.last().1)
    }
}

/// The values of the headers whose name is `name` once in lower case, in
/// their order.
pub open spec fn values_named(headers: Seq<(Seq<char>, Seq<char>)>, name: Seq<char>) -> Seq<
    Seq<char>,
>
    decreases headers.len(),
{
    if headers.len() == 0 {
        Seq::empty()
    } else if lower(headers.last().0) == name {
        values_named(headers.drop_last(), name).push(headers.last().1)
    } else {
        values_named(headers.drop_last(), name)
    }
}

/// Whether every name is in lower case.
pub open spec fn lower_keys(groups: Seq<(Seq<char>, Seq<Seq<char>>)>) -> bool {
    forall|i: int| 0 <= i < groups.len() ==> lower((#[trigger] groups[i]).0) == groups[i].0
}

/// Adding a value keeps the names distinct; afterwards the name has its old
/// values and then the new one, and every other name has what it had.
pub proof fn lemma_add_value(
    groups: Seq<(Seq<char>, Seq<Seq<char>>)>,
    name: Seq<char>,
    value: Seq<char>,
    other: Seq<char>,
)
    requires
        distinct_keys(groups),
    ensures
        distinct_keys(add_value(groups, name, value)),
        lookup(add_value(groups, name, value), name) == Some(
            (match lookup(groups, name) {
                Some(vs) => vs,
                None => Seq::empty(),
            }).push(value),
        ),
        other != name ==> lookup(add_value(groups, name, value), other) == lookup(groups, other),
{
    let after = add_value(groups, name, value);
    if has_key(groups, name) {
        let at = choose|i: int| 0 <= i < groups.len() && (#[trigger] groups[i]).0 == name;
        assert forall|i: int| 0 <= i < after.len() implies (#[trigger] after[i]).0
            == groups[i].0 by {}
        assert(distinct_keys(after)) by {
            assert forall|i: int, j: int| 0 <= i < j < after.len() implies (#[trigger] after[i]).0
                != (#[trigger] after[j]).0 by {
                assert(groups[i].0 != groups[j].0);
            }
        }
        assert(after[at] == (name, groups[at].1.push(value)));
        lemma_lookup_at(after, at);
        lemma_lookup_at(groups, at);
        lemma_lookup_elsewhere(groups, after, name, other);
    } else {
        lemma_lookup_has_key(groups, name);
        assert(distinct_keys(after)) by {
            assert forall|i: int, j: int| 0 <= i < j < after.len() implies (#[trigger] after[i]).0
                != (#[trigger] after[j]).0 by {
                if j == groups.len() {
                    assert(groups[i].0 != name);
                } else {
                    assert(groups[i].0 != groups[j].0);
                }
            }
        }
        assert(after.drop_last() =~= groups);
        assert(Seq::<Seq<char>>::empty().push(value) =~= seq![value]);
    }
}

/// In a header map no name occurs twice, and every name is in lower case.
pub proof fn lemma_grouped_names(headers: Seq<(Seq<char>, Seq<char>)>)
    ensures
        distinct_keys(grouped(headers)),
        lower_keys(grouped(headers)),
    decreases headers.len(),
{
    if headers.len() > 0 {
        let rest = grouped(headers.drop_last());
        let name = lower(headers.last().0);
        lemma_grouped_names(headers.drop_last());
        lemma_add_value(rest, name, headers.last().1, name);
        lemma_lower_idempotent(headers.last().0);
        let after = add_value(rest, name, headers.last().1);
        assert forall|i: int| 0 <= i < after.len() implies lower((#[trigger] after[i]).0)
            == after[i].0 by {
            if i < rest.len() {
                assert(lower(rest[i].0) == rest[i].0);
            }
        }
    }
}

/// In a header map every name has at least one value.
pub proof fn lemma_grouped_nonempty(headers: Seq<(Seq<char>, Seq<char>)>)
    ensures
        forall|i: int|
            0 <= i < grouped(headers).len() ==> (#[trigger] grouped(headers)[i]).1.len() > 0,
    decreases headers.len(),
{
    if headers.len() > 0 {
        lemma_grouped_nonempty(headers.drop_last());
        let rest = grouped(headers.drop_last());
        let after = grouped(headers);
        assert forall|i: int| 0 <= i < after.len() implies (#[trigger] after[i]).1.len() > 0 by {
            if i < rest.len() {
                assert(rest[i].1.len() > 0);
            }
        }
    }
}

/// Order is kept within a name: a header map gives each name the values of
/// all headers of that name, in the order in which they came, and gives
/// nothing to a name that no header has.
pub proof fn lemma_grouped_values(headers: Seq<(Seq<char>, Seq<char>)>, name: Seq<char>)
    ensures
        lookup(grouped(headers), name) == (if values_named(headers, name).len() > 0 {
            Some(values_named(headers, name))
        } else {
            None
        }),
    decreases headers.len(),
{
    if headers.len() > 0 {
        lemma_grouped_names(headers.drop_last());
        lemma_grouped_values(headers.drop_last(), name);
        lemma_add_value(
            grouped(headers.drop_last()),
            lower(headers.last().0),
            headers.last().1,
            name,
        );
    }
}

/// Adds `value` under `name`.
fn add_to_group(groups: &mut Vec<(String, Vec<String>)>, name: String, value: String)
    ensures
        final(groups).deep_view() == add_value(old(groups).deep_view(), name@, value@),
{
    let ghost before = groups.deep_view();
    let n = groups.len();
    let mut found = false;
    let mut j: usize = 0;
    while j < n
        invariant
            j <= n,
            n == groups.len(),
            before.len() == n,
            found <==> exists|k: int| 0 <= k < j && (#[trigger] before[k]).0 == name@,
            forall|k: int|
                0 <= k < j ==> (#[trigger] groups.deep_view()[k]) == (if before[k].0 == name@ {
                    (name@, before[k].1.push(value@))
                } else {
                    before[k]
                }),
            forall|k: int| j <= k < n ==> (#[trigger] groups.deep_view()[k]) == before[k],
        decreases n - j,
    {
        let ghost prior = groups.deep_view();
        let ghost prior_values = groups@[j as int].1.deep_view();
        assert(prior[j as int] == before[j as int]);
        if groups[j].0 == name {
            groups[j].1.push(value.clone());
            found = true;
            assert(before[j as int].0 == name@);
            assert(groups@[j as int].1.deep_view() =~= prior_values.push(value@));
        }
        assert forall|k: int| 0 <= k < n && k != j implies (#[trigger] groups.deep_view()[k])
            == prior[k] by {}
        j = j + 1;
    }
    if found {
        assert(has_key(before, name@));
        assert(groups.deep_view() =~= add_value(before, name@, value@));
    } else {
        assert(!has_key(before, name@));
        assert(groups.deep_view() =~= before);
        let mut values: Vec<String> = Vec::new();
        values.push(value);
        assert(values.deep_view() =~= seq![value@]);
        groups.push((name, values));
        assert(groups.deep_view() =~= before.push((name@, seq![value@])));
    }
}

/// The header map of a list of headers.
pub fn group_headers(headers: &Vec<(String, String)>) -> (groups: Vec<(String, Vec<String>)>)
    ensures
        groups.deep_view() == grouped(headers.deep_view()),
        distinct_keys(groups.deep_view()),
        lower_keys(groups.deep_view()),
{
    proof {
        lemma_grouped_names(headers.deep_view());
    }
    let ghost all = headers.deep_view();
    let mut groups: Vec<(String, Vec<String>)> = Vec::new();
    let n = headers.len();
    let mut i: usize = 0;
    assert(all.take(0) =~= Seq::empty());
    assert(groups.deep_view() =~= Seq::empty());
    while i < n
        invariant
            i <= n,
            n == headers.len(),
            all == headers.deep_view(),
            groups.deep_view() == grouped(all.take(i as int)),
        decreases n - i,
    {
        let name = to_lower(headers[i].0.as_str());
        let value = headers[i].1.clone();
        assert(all.take(i + 1).drop_last() =~= all.take(i as int));
        assert(all.take(i + 1).last() == (headers@[i as int].0@, value@));
        add_to_group(&mut groups, name, value);
        i = i + 1;
    }
    assert(all.take(n as int) =~= all);
    groups
}

} // verus!
