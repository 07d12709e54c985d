//! The log: one JSON object on each line.

use crate::json::{lemma_object_view, members_view, render, Json, JsonValue};
use crate::request::{end_line, fresh_stamp, is_stamp, line_of, one_line};
use vstd::prelude::*;

verus! {

/// The record that is logged when the server starts to listen.
pub open spec fn start_json(stamp: Seq<char>, address: Seq<char>) -> JsonValue {
    JsonValue::Object(
        seq![
            ("stamp"@, JsonValue::Text(stamp)),
            ("message"@, JsonValue::Text("start"@)),
            ("address"@, JsonValue::Text(address)),
        ],
    )
}

/// The record that is logged when something went wrong: what it was, and
/// what is known of it.
pub open spec fn error_json(stamp: Seq<char>, what: Seq<char>, detail: Seq<char>) -> JsonValue {
    JsonValue::Object(
        seq![
            ("stamp"@, JsonValue::Text(stamp)),
            ("message"@, JsonValue::Text("error"@)),
            ("error"@, JsonValue::Text(what)),
            ("detail"@, JsonValue::Text(detail)),
        ],
    )
}

/// The start record under a given stamp.
pub fn start_record(stamp: String, address: &str) -> (record: Json)
    ensures
        record@ == start_json(stamp@, address@),
{
    let mut members: Vec<(String, Json)> = Vec::new();
    members.push(("stamp".to_owned(), Json::Text(stamp)));
    members.push(("message".to_owned(), Json::Text("start".to_owned())));
    members.push(("address".to_owned(), Json::Text(address.to_owned())));
    proof {
        lemma_object_view(members);
        assert(members_view(members@) =~= start_json(stamp@, address@)->Object_0);
    }
    Json::Object(members)
}

/// The error record under a given stamp.
pub fn error_record(stamp: String, what: &str, detail: &str) -> (record: Json)
    ensures
        record@ == error_json(stamp@, what@, detail@),
{
    let mut members: Vec<(String, Json)> = Vec::new();
    members.push(("stamp".to_owned(), Json::Text(stamp)));
    members.push(("message".to_owned(), Json::Text("error".to_owned())));
    members.push(("error".to_owned(), Json::Text(what.to_owned())));
    members.push(("detail".to_owned(), Json::Text(detail.to_owned())));
    proof {
        lemma_object_view(members);
        assert(members_view(members@) =~= error_json(stamp@, what@, detail@)->Object_0);
    }
    Json::Object(members)
}

/// The line that is logged when the server starts to listen at `address`:
/// the start record under a new stamp.
pub fn start_line(address: &str) -> (line: String)
    ensures
        one_line(line@),
        exists|stamp: Seq<char>|
            is_stamp(stamp) && line@ == line_of(#[trigger] start_json(stamp, address@)),
{
    let stamp = fresh_stamp();
    let ghost s = stamp@;
    let line = record_line(&start_record(stamp, address));
    assert(line@ == line_of(start_json(s, address@)));
    line
}

/// The line that is logged when something went wrong: the error record
/// under a new stamp.
pub fn error_line(what: &str, detail: &str) -> (line: String)
    ensures
        one_line(line@),
        exists|stamp: Seq<char>|
            is_stamp(stamp) && line@ == line_of(#[trigger] error_json(stamp, what@, detail@)),
{
    let stamp = fresh_stamp();
    let ghost s = stamp@;
    let line = record_line(&error_record(stamp, what, detail));
    assert(line@ == line_of(error_json(s, what@, detail@)));
    line
}

/// The line that logs a record: its JSON text and a line feed.
pub fn record_line(record: &Json) -> (line: String)
    ensures
        line@ == line_of(record@),
        one_line(line@),
{
    end_line(render(record))
}

} // verus!
