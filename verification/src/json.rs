//! JSON values as the descriptors use them, and the two calls into
//! `serde_json` that turn a value into text and text into a value.

use crate::assoc::{find_key, lemma_lookup_prefix, lookup};
use serde_json::Value;
use vstd::prelude::*;

verus! {

/// A JSON value. An object is a list of members; where a key occurs more than
/// once, the last member with that key is the one that counts.
#[derive(Debug, PartialEq, Eq)]
pub enum Json {
    Null,
    Bool(bool),
    /// An integer that is not negative.
    Natural(u64),
    /// A signed integer. A reader gives this for integers below zero only.
    Negative(i64),
    /// A number that is no 64-bit integer. Its digits are not kept.
    Fraction,
    Text(String),
    List(Vec<Json>),
    Object(Vec<(String, Json)>),
}

/// The mathematical value of a [`Json`].
pub enum JsonValue {
    Null,
    Bool(bool),
    Integer(int),
    Fraction,
    Text(Seq<char>),
    List(Seq<JsonValue>),
    Object(Seq<(Seq<char>, JsonValue)>),
}

pub open spec fn json_value(j: Json) -> JsonValue
    decreases j,
{
    match j {
        Json::Null => JsonValue::Null,
        Json::Bool(b) => JsonValue::Bool(b),
        Json::Natural(n) => JsonValue::Integer(n as int),
        Json::Negative(n) => JsonValue::Integer(n as int),
        Json::Fraction => JsonValue::Fraction,
        Json::Text(t) => JsonValue::Text(t@),
        Json::List(items) => JsonValue::List(
            Seq::new(
                items@.len(),
                |i: int|
                    if 0 <= i < items@.len() {
                        json_value(items@[i])
                    } else {
                        JsonValue::Null
                    },
            ),
        ),
        Json::Object(members) => JsonValue::Object(
            Seq::new(
                members@.len(),
                |i: int|
                    if 0 <= i < members@.len() {
                        (members@[i].0@, json_value(members@[i].1))
                    } else {
                        (Seq::empty(), JsonValue::Null)
                    },
            ),
        ),
    }
}

impl View for Json {
    type V = JsonValue;

    open spec fn view(&self) -> JsonValue {
        json_value(*self)
    }
}

/// The values of a list of items, one for one.
pub open spec fn items_view(items: Seq<Json>) -> Seq<JsonValue> {
    Seq::new(items.len(), |i: int| items[i]@)
}

/// The keys and values of a list of members, one for one.
pub open spec fn members_view(members: Seq<(String, Json)>) -> Seq<(Seq<char>, JsonValue)> {
    Seq::new(members.len(), |i: int| (members[i].0@, members[i].1@))
}

/// A list's value is the list of its items' values.
pub proof fn lemma_list_view(items: Vec<Json>)
    ensures
        Json::List(items)@ == JsonValue::List(items_view(items@)),
{
    assert(Json::List(items)@->List_0 =~= items_view(items@));
}

/// An object's value is the list of its members' keys and values.
pub proof fn lemma_object_view(members: Vec<(String, Json)>)
    ensures
        Json::Object(members)@ == JsonValue::Object(members_view(members@)),
{
    assert(Json::Object(members)@->Object_0 =~= members_view(members@));
}

/// The value under `key` in `value`; none where `value` is no object.
pub open spec fn field_of(value: JsonValue, key: Seq<char>) -> Option<JsonValue> {
    match value {
        JsonValue::Object(members) => lookup(members, key),
        _ => None,
    }
}

impl Json {
    /// The value under `key`, where `self` is an object that has one.
    pub fn field(&self, key: &str) -> (found: Option<&Json>)
        ensures
            match found {
                Some(j) => field_of(self@, key@) == Some(j@),
                None => field_of(self@, key@).is_none(),
            },
    {
        match self {
            Json::Object(members) => {
                proof {
                    lemma_object_view(*members);
                }
                let ghost all = members_view(members@);
                match find_key(members, key) {
                    Some(i) => {
                        proof {
                            assert forall|k: int| i < k < all.len() implies (#[trigger] all[k]).0
                                != key@ by {
                                assert(all[k].0 == members@[k].0@);
                            }
                            lemma_lookup_prefix(all, key@, i + 1);
                            assert(all.take(i + 1).last() == all[i as int]);
                            assert(all[i as int] == (members@[i as int].0@, members@[i as int].1@));
                        }
                        Some(&members[i].1)
                    },
                    None => {
                        proof {
                            assert forall|k: int| 0 <= k < all.len() implies (#[trigger] all[k]).0
                                != key@ by {
                                assert(all[k].0 == members@[k].0@);
                            }
                            lemma_lookup_prefix(all, key@, 0);
                            assert(all.take(0).len() == 0);
                        }
                        None
                    },
                }
            },
            _ => None,
        }
    }
}

/// Whether every member is a string.
pub open spec fn all_text(members: Seq<(Seq<char>, JsonValue)>) -> bool {
    forall|i: int| 0 <= i < members.len() ==> (#[trigger] members[i]).1 is Text
}

/// The members as pairs of texts, where each of them is a string.
pub open spec fn text_pairs(members: Seq<(Seq<char>, JsonValue)>) -> Seq<(Seq<char>, Seq<char>)> {
    Seq::new(members.len(), |i: int| (members[i].0, members[i].1->Text_0))
}

/// The pairs as members whose values are strings.
pub open spec fn text_members(pairs: Seq<(Seq<char>, Seq<char>)>) -> Seq<(Seq<char>, JsonValue)> {
    Seq::new(pairs.len(), |i: int| (pairs[i].0, JsonValue::Text(pairs[i].1)))
}

/// Written as members and read back, pairs of texts are what they were.
pub proof fn lemma_text_pairs_round_trip(pairs: Seq<(Seq<char>, Seq<char>)>)
    ensures
        all_text(text_members(pairs)),
        text_pairs(text_members(pairs)) == pairs,
{
    assert(text_pairs(text_members(pairs)) =~= pairs);
}

/// What an optional string member gives: nothing where it is missing or
/// `null`, its text where it is a string; no reading where it is anything
/// else.
pub open spec fn optional_text(member: Option<JsonValue>) -> Option<Option<Seq<char>>> {
    match member {
        None => Some(None),
        Some(JsonValue::Null) => Some(None),
        Some(JsonValue::Text(t)) => Some(Some(t)),
        Some(_) => None,
    }
}

/// What a string member that has to be there gives: its text, where it is
/// there and is a string.
pub open spec fn required_text(member: Option<JsonValue>) -> Option<Seq<char>> {
    match member {
        Some(JsonValue::Text(t)) => Some(t),
        _ => None,
    }
}

/// What an optional member that holds a 16-bit number gives: nothing where
/// it is missing or `null`, the number where it is an integer from 0 to
/// 65535; no reading where it is anything else.
pub open spec fn optional_u16(member: Option<JsonValue>) -> Option<Option<u16>> {
    match member {
        None => Some(None),
        Some(JsonValue::Null) => Some(None),
        Some(JsonValue::Integer(n)) => if 0 <= n <= 65535 {
            Some(Some(n as u16))
        } else {
            None
        },
        Some(_) => None,
    }
}

impl Json {
    /// Reads the optional string member `key`.
    pub fn text_at(&self, key: &str) -> (read: Option<Option<String>>)
        ensures
            match read {
                Some(Some(t)) => optional_text(field_of(self@, key@)) == Some(Some(t@)),
                Some(None) => optional_text(field_of(self@, key@)) == Some(None::<Seq<char>>),
                None => optional_text(field_of(self@, key@)).is_none(),
            },
    {
        match self.field(key) {
            None => Some(None),
            Some(Json::Null) => Some(None),
            Some(Json::Text(t)) => Some(Some(t.clone())),
            Some(_) => None,
        }
    }

    /// Reads the string member `key`, which has to be there.
    pub fn text_needed(&self, key: &str) -> (read: Option<String>)
        ensures
            match read {
                Some(t) => required_text(field_of(self@, key@)) == Some(t@),
                None => required_text(field_of(self@, key@)).is_none(),
            },
    {
        match self.field(key) {
            Some(Json::Text(t)) => Some(t.clone()),
            _ => None,
        }
    }

    /// Reads the optional member `key` that holds a 16-bit number.
    pub fn u16_at(&self, key: &str) -> (read: Option<Option<u16>>)
        ensures
            read == optional_u16(field_of(self@, key@)),
    {
        match self.field(key) {
            None => Some(None),
            Some(Json::Null) => Some(None),
            Some(Json::Natural(n)) => {
                if *n <= 65535 {
                    Some(Some(*n as u16))
                } else {
                    None
                }
            },
            Some(Json::Negative(n)) => {
                if 0 <= *n && *n <= 65535 {
                    Some(Some(*n as u16))
                } else {
                    None
                }
            },
            Some(_) => None,
        }
    }
}

/// The members as pairs of texts; none where a value is no string.
pub fn read_text_pairs(members: &Vec<(String, Json)>) -> (pairs: Option<Vec<(String, String)>>)
    ensures
        match pairs {
            Some(ps) => all_text(members_view(members@)) && ps.deep_view() == text_pairs(
                members_view(members@),
            ),
            None => !all_text(members_view(members@)),
        },
{
    let ghost all = members_view(members@);
    let mut pairs: Vec<(String, String)> = Vec::new();
    let mut i: usize = 0;
    while i < members.len()
        invariant
            i <= members.len(),
            all == members_view(members@),
            pairs.len() == i,
            forall|k: int| 0 <= k < i ==> (#[trigger] all[k]).1 is Text,
            forall|k: int|
                0 <= k < i ==> (#[trigger] pairs@[k]).0@ == all[k].0 && pairs@[k].1@
                    == all[k].1->Text_0,
        decreases members.len() - i,
    {
        assert(all[i as int] == (members@[i as int].0@, members@[i as int].1@));
        match &members[i].1 {
            Json::Text(t) => {
                pairs.push((members[i].0.clone(), t.clone()));
            },
            _ => {
                assert(!(all[i as int].1 is Text));
                return None;
            },
        }
        i = i + 1;
    }
    assert(pairs.deep_view() =~= text_pairs(all));
    Some(pairs)
}

/// The pairs as an object whose values are strings.
pub fn write_text_pairs(pairs: &Vec<(String, String)>) -> (object: Json)
    ensures
        object@ == JsonValue::Object(text_members(pairs.deep_view())),
{
    let mut members: Vec<(String, Json)> = Vec::new();
    let mut i: usize = 0;
    while i < pairs.len()
        invariant
            i <= pairs.len(),
            members.len() == i,
            forall|k: int|
                0 <= k < i ==> (#[trigger] members@[k]).0@ == pairs@[k].0@ && members@[k].1@
                    == JsonValue::Text(pairs@[k].1@),
        decreases pairs.len() - i,
    {
        members.push((pairs[i].0.clone(), Json::Text(pairs[i].1.clone())));
        i = i + 1;
    }
    proof {
        lemma_object_view(members);
        assert(members_view(members@) =~= text_members(pairs.deep_view()));
    }
    Json::Object(members)
}

/// The text that `serde_json` writes for a value, in its compact form.
pub uninterp spec fn json_text(value: JsonValue) -> Seq<char>;

/// What `serde_json` reads from a text: the value, or the message of its
/// error.
pub uninterp spec fn json_parsed(text: Seq<char>) -> Result<JsonValue, Seq<char>>;

/// `serde_json::Value`, as the two calls below take and give it.
#[verifier::external_type_specification]
#[verifier::external_body]
pub struct ExJsonTree(serde_json::Value);

/// Rebuilds a value as a `serde_json::Value`, variant by variant. A
/// [`Json::Fraction`] has no digits to give and becomes `null`.
#[verifier::external_body]
fn to_tree(j: &Json) -> serde_json::Value {
    match j {
        Json::Null | Json::Fraction => Value::Null,
        Json::Bool(b) => Value::from(*b),
        Json::Natural(n) => Value::from(*n),
        Json::Negative(n) => Value::from(*n),
        Json::Text(t) => Value::from(t.as_str()),
        Json::List(items) => Value::Array(items.iter().map(to_tree).collect()),
        Json::Object(members) => Value::Object(
            members.iter().map(|m| (m.0.clone(), to_tree(&m.1))).collect(),
        ),
    }
}

/// Takes a `serde_json::Value` apart, variant by variant. A number is told
/// apart by `Number::as_u64` and `Number::as_i64`.
#[verifier::external_body]
fn from_tree(v: serde_json::Value) -> Json {
    match v {
        Value::Null => Json::Null,
        Value::Bool(b) => Json::Bool(b),
        Value::Number(n) => n.as_u64().map(Json::Natural).or(n.as_i64().map(Json::Negative))
            .unwrap_or(Json::Fraction),
        Value::String(s) => Json::Text(s),
        Value::Array(a) => Json::List(a.into_iter().map(from_tree).collect()),
        Value::Object(m) => Json::Object(m.into_iter().map(|(k, v)| (k, from_tree(v))).collect()),
    }
}

/// `serde_json::to_string` on the value. The text depends on the value
/// alone. It holds no line feed: the compact form adds no white space and
/// writes every control character inside a string as an escape.
#[verifier::external_body]
pub(crate) fn render(j: &Json) -> (text: String)
    ensures
        text@ == json_text(j@),
        !text@.contains('\n'),
{
    serde_json::to_string(&to_tree(j)).unwrap_or_default()
}

/// `serde_json::from_str` for a `serde_json::Value`. Value or error message
/// depend on the text alone.
#[verifier::external_body]
pub(crate) fn parse(text: &str) -> (parsed: Result<Json, String>)
    ensures
        match parsed {
            Ok(j) => json_parsed(text@) == Ok::<JsonValue, Seq<char>>(j@),
            Err(e) => json_parsed(text@) == Err::<JsonValue, Seq<char>>(e@),
        },
{
    match serde_json::from_str::<Value>(text) {
        Ok(v) => Ok(from_tree(v)),
        Err(e) => Err(e.to_string()),
    }
}

} // verus!
