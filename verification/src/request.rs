//! The request descriptor: what the server tells a child about the request
//! it serves, how it is written as JSON, and how it is read back.

use crate::assoc::{find_key, lemma_lookup_concat, lemma_lookup_prefix, lemma_lookup_short};
use crate::assoc::{distinct_keys, lookup};
use crate::headers::{group_headers, grouped, lower_keys};
use crate::json::{all_text, field_of, json_parsed, json_text, lemma_list_view, lemma_object_view};
use crate::json::{items_view, lemma_text_pairs_round_trip, members_view, optional_text};
use crate::json::{optional_u16, parse, read_text_pairs, render, required_text, text_members};
use crate::json::{text_pairs, write_text_pairs, Json, JsonValue};
use crate::query::{parse_query, query_map};
use crate::response::{copy_pairs, lemma_response_round_trip, response_json, response_of_json};
use crate::response::{Response, ResponseView};
use vstd::prelude::*;
use vstd::string::*;

verus! {

/// The HTTP version of a request.
#[derive(Debug, Clone, Copy, PartialEq, Eq, Structural)]
pub enum Proto {
    Http10,
    Http11,
    Http2,
}

/// The version as the descriptor names it.
pub open spec fn proto_text(proto: Proto) -> Seq<char> {
    match proto {
        Proto::Http10 => "HTTP/1.0"@,
        Proto::Http11 => "HTTP/1.1"@,
        Proto::Http2 => "HTTP/2.0"@,
    }
}

impl Proto {
    /// The version as the descriptor names it.
    pub fn text(&self) -> (text: String)
        ensures
            text@ == proto_text(*self),
    {
        match self {
            Proto::Http10 => "HTTP/1.0".to_owned(),
            Proto::Http11 => "HTTP/1.1".to_owned(),
            Proto::Http2 => "HTTP/2.0".to_owned(),
        }
    }
}

/// The peer of a connection that has an address.
#[derive(Debug, Clone, PartialEq, Eq)]
pub struct Remote {
    pub ip: String,
    pub port: u16,
}

/// The head of an HTTP request, as the HTTP layer parsed it.
#[derive(Debug, Clone, PartialEq, Eq)]
pub struct RequestHead {
    pub proto: Proto,
    pub method: String,
    /// The request URI in full.
    pub uri: String,
    /// The authority of the URI, where it has one.
    pub authority: Option<String>,
    /// The path of the URI, percent-encoded.
    pub path: String,
    /// The query string of the URI, where it has one.
    pub query: Option<String>,
    /// The header lines in the order in which they came.
    pub headers: Vec<(String, String)>,
}

pub struct RequestHeadView {
    pub proto: Proto,
    pub method: Seq<char>,
    pub uri: Seq<char>,
    pub authority: Option<Seq<char>>,
    pub path: Seq<char>,
    pub query: Option<Seq<char>>,
    pub headers: Seq<(Seq<char>, Seq<char>)>,
}

impl View for RequestHead {
    type V = RequestHeadView;

    open spec fn view(&self) -> RequestHeadView {
        RequestHeadView {
            proto: self.proto,
            method: self.method@,
            uri: self.uri@,
            authority: match self.authority {
                Some(a) => Some(a@),
                None => None,
            },
            path: self.path@,
            query: match self.query {
                Some(q) => Some(q@),
                None => None,
            },
            headers: self.headers.deep_view(),
        }
    }
}

/// The request descriptor.
#[derive(Debug, Clone, PartialEq, Eq)]
pub struct Request {
    pub stamp: String,
    pub proto: String,
    pub method: String,
    pub authority: Option<String>,
    pub remote_ip: Option<String>,
    pub remote_port: Option<u16>,
    /// Lower-case header names, each with its values in order.
    pub headers: Vec<(String, Vec<String>)>,
    pub uri: String,
    pub path: String,
    /// Query parameters, each name with its last value.
    pub query: Vec<(String, String)>,
    /// The child's response descriptor. Only a log line carries it.
    pub response: Option<Response>,
}

pub struct RequestView {
    pub stamp: Seq<char>,
    pub proto: Seq<char>,
    pub method: Seq<char>,
    pub authority: Option<Seq<char>>,
    pub remote_ip: Option<Seq<char>>,
    pub remote_port: Option<u16>,
    pub headers: Seq<(Seq<char>, Seq<Seq<char>>)>,
    pub uri: Seq<char>,
    pub path: Seq<char>,
    pub query: Seq<(Seq<char>, Seq<char>)>,
    pub response: Option<ResponseView>,
}

impl View for Request {
    type V = RequestView;

    open spec fn view(&self) -> RequestView {
        RequestView {
            stamp: self.stamp@,
            proto: self.proto@,
            method: self.method@,
            authority: match self.authority {
                Some(a) => Some(a@),
                None => None,
            },
            remote_ip: match self.remote_ip {
                Some(ip) => Some(ip@),
                None => None,
            },
            remote_port: self.remote_port,
            headers: self.headers.deep_view(),
            uri: self.uri@,
            path: self.path@,
            query: self.query.deep_view(),
            response: match self.response {
                Some(r) => Some(r@),
                None => None,
            },
        }
    }
}

/// The first value of the header `host`, where the header map has one.
pub open spec fn host_of(groups: Seq<(Seq<char>, Seq<Seq<char>>)>) -> Option<Seq<char>> {
    match lookup(groups, "host"@) {
        Some(values) => if values.len() > 0 {
            Some(values[0])
        } else {
            None
        },
        None => None,
    }
}

/// The authority of a request: that of its URI, else its `Host` header, else
/// none.
pub open spec fn authority_of(head: RequestHeadView) -> Option<Seq<char>> {
    match head.authority {
        Some(a) => Some(a),
        None => host_of(grouped(head.headers)),
    }
}

/// The descriptor of a request with this head, from this peer, under this
/// stamp, with this query map.
pub open spec fn described(
    head: RequestHeadView,
    remote: Option<(Seq<char>, u16)>,
    stamp: Seq<char>,
    query: Seq<(Seq<char>, Seq<char>)>,
) -> RequestView {
    RequestView {
        stamp,
        proto: proto_text(head.proto),
        method: head.method,
        authority: authority_of(head),
        remote_ip: match remote {
            Some(r) => Some(r.0),
            None => None,
        },
        remote_port: match remote {
            Some(r) => Some(r.1),
            None => None,
        },
        headers: grouped(head.headers),
        uri: head.uri,
        path: head.path,
        query,
        response: None,
    }
}

/// Whether the two maps of a descriptor are maps: no header name and no
/// query name occurs twice, and the header names are in lower case.
pub open spec fn maps_sound(request: RequestView) -> bool {
    &&& distinct_keys(request.headers)
    &&& lower_keys(request.headers)
    &&& distinct_keys(request.query)
}

/// The peer as the contracts speak of it.
pub open spec fn remote_view(remote: Option<&Remote>) -> Option<(Seq<char>, u16)> {
    match remote {
        Some(r) => Some((r.ip@, r.port)),
        None => None,
    }
}

/// Whether a text has the form of a stamp: 25 digits to the base 36, the
/// letters in lower case.
pub open spec fn is_stamp(stamp: Seq<char>) -> bool {
    &&& stamp.len() == 25
    &&& forall|i: int|
        0 <= i < stamp.len() ==> {
            let c = #[trigger] stamp[i];
            ('0' <= c && c <= '9') || ('a' <= c && c <= 'z')
        }
}

/// `scru128::new_string`: a new identifier from the generator of this
/// process, in its text form of 25 digits to the base 36. Which one depends
/// on the clock and on chance.
#[verifier::external_body]
pub(crate) fn fresh_stamp() -> (stamp: String)
    ensures
        is_stamp(stamp@),
{
    scru128::new_string()
}

/// The first value of the header `host`, where the header map has one.
pub fn first_host(groups: &Vec<(String, Vec<String>)>) -> (host: Option<String>)
    ensures
        match host {
            Some(h) => host_of(groups.deep_view()) == Some(h@),
            None => host_of(groups.deep_view()).is_none(),
        },
{
    let ghost all = groups.deep_view();
    match find_key(groups, "host") {
        Some(i) => {
            proof {
                assert forall|k: int| i < k < all.len() implies (#[trigger] all[k]).0
                    != "host"@ by {
                    assert(all[k].0 == groups@[k].0@);
                }
                lemma_lookup_prefix(all, "host"@, i + 1);
                let upto = all.take(i + 1);
                assert(upto.last() == all[i as int]);
                assert(all[i as int] == (groups@[i as int].0@, groups@[i as int].1.deep_view()));
            }
            if groups[i].1.len() > 0 {
                Some(groups[i].1[0].clone())
            } else {
                None
            }
        },
        None => {
            proof {
                assert forall|k: int| 0 <= k < all.len() implies (#[trigger] all[k]).0
                    != "host"@ by {
                    assert(all[k].0 == groups@[k].0@);
                }
                lemma_lookup_prefix(all, "host"@, 0);
                assert(all.take(0).len() == 0);
            }
            None
        },
    }
}

/// A copy of an optional text.
fn copy_text(text: &Option<String>) -> (copy: Option<String>)
    ensures
        copy matches Some(c) ==> text matches Some(t) && c@ == t@,
        copy is None ==> text is None,
{
    match text {
        Some(t) => Some(t.clone()),
        None => None,
    }
}

impl Request {
    /// The descriptor of a request under a given stamp and with a given
    /// query map.
    pub fn assemble(
        head: &RequestHead,
        remote: Option<&Remote>,
        stamp: String,
        query: Vec<(String, String)>,
    ) -> (request: Request)
        ensures
            request@ == described(head@, remote_view(remote), stamp@, query.deep_view()),
            distinct_keys(query.deep_view()) ==> maps_sound(request@),
    {
        let headers = group_headers(&head.headers);
        let authority = match &head.authority {
            Some(a) => Some(a.clone()),
            None => first_host(&headers),
        };
        let remote_ip = match remote {
            Some(r) => Some(r.ip.clone()),
            None => None,
        };
        let remote_port = match remote {
            Some(r) => Some(r.port),
            None => None,
        };
        Request {
            stamp,
            proto: head.proto.text(),
            method: head.method.clone(),
            authority,
            remote_ip,
            remote_port,
            headers,
            uri: head.uri.clone(),
            path: head.path.clone(),
            query,
            response: None,
        }
    }

    /// The descriptor of a request under a given stamp. The query map is
    /// that of the head's query string; it is empty where there is none.
    pub fn describe(head: &RequestHead, remote: Option<&Remote>, stamp: String) -> (request:
        Request)
        ensures
            request@ == described(head@, remote_view(remote), stamp@, query_map(head@.query)),
            maps_sound(request@),
    {
        let query = match &head.query {
            Some(q) => parse_query(q.as_str()),
            None => {
                let none: Vec<(String, String)> = Vec::new();
                assert(none.deep_view() =~= Seq::empty());
                none
            },
        };
        Request::assemble(head, remote, stamp, query)
    }

    /// The descriptor of a request that has just come in, under a new stamp.
    pub fn new(head: &RequestHead, remote: Option<&Remote>) -> (request: Request)
        ensures
            is_stamp(request@.stamp),
            request@ == described(
                head@,
                remote_view(remote),
                request@.stamp,
                query_map(head@.query),
            ),
            maps_sound(request@),
    {
        Request::describe(head, remote, fresh_stamp())
    }
}

/// One member.
pub open spec fn member(key: Seq<char>, value: JsonValue) -> Seq<(Seq<char>, JsonValue)> {
    seq![(key, value)]
}

/// One member where there is a value, none where there is not.
pub open spec fn maybe(key: Seq<char>, value: Option<JsonValue>) -> Seq<(Seq<char>, JsonValue)> {
    match value {
        Some(v) => seq![(key, v)],
        None => Seq::empty(),
    }
}

/// An optional text as an optional string.
pub open spec fn text_json(text: Option<Seq<char>>) -> Option<JsonValue> {
    match text {
        Some(t) => Some(JsonValue::Text(t)),
        None => None,
    }
}

/// An optional port as an optional number.
pub open spec fn port_json(port: Option<u16>) -> Option<JsonValue> {
    match port {
        Some(p) => Some(JsonValue::Integer(p as int)),
        None => None,
    }
}

/// Texts as strings.
pub open spec fn text_items(values: Seq<Seq<char>>) -> Seq<JsonValue> {
    Seq::new(values.len(), |i: int| JsonValue::Text(values[i]))
}

/// A header map as members: under each name the list of its values.
pub open spec fn list_members(groups: Seq<(Seq<char>, Seq<Seq<char>>)>) -> Seq<
    (Seq<char>, JsonValue),
> {
    Seq::new(groups.len(), |i: int| (groups[i].0, JsonValue::List(text_items(groups[i].1))))
}

/// Whether every item is a string.
pub open spec fn all_text_items(items: Seq<JsonValue>) -> bool {
    forall|i: int| 0 <= i < items.len() ==> (#[trigger] items[i]) is Text
}

/// The texts of items that are strings.
pub open spec fn texts_of(items: Seq<JsonValue>) -> Seq<Seq<char>> {
    Seq::new(items.len(), |i: int| items[i]->Text_0)
}

/// Whether every member is a list of strings.
pub open spec fn all_text_lists(members: Seq<(Seq<char>, JsonValue)>) -> bool {
    forall|i: int|
        0 <= i < members.len() ==> (#[trigger] members[i]).1 is List && all_text_items(
            members[i].1->List_0,
        )
}

/// The members as a header map, where each of them is a list of strings.
pub open spec fn text_lists(members: Seq<(Seq<char>, JsonValue)>) -> Seq<
    (Seq<char>, Seq<Seq<char>>),
> {
    Seq::new(members.len(), |i: int| (members[i].0, texts_of(members[i].1->List_0)))
}

/// The descriptor without a response: what a child is sent.
pub open spec fn for_child(request: RequestView) -> RequestView {
    RequestView { response: None, ..request }
}

/// An optional response descriptor as an optional object.
pub open spec fn response_member(response: Option<ResponseView>) -> Option<JsonValue> {
    match response {
        Some(r) => Some(response_json(r)),
        None => None,
    }
}

/// The members that a descriptor is written with, in this order. A part
/// that is absent has no member.
pub open spec fn request_members(request: RequestView) -> Seq<(Seq<char>, JsonValue)> {
    member("stamp"@, JsonValue::Text(request.stamp)) + member(
        "proto"@,
        JsonValue::Text(request.proto),
    ) + member("method"@, JsonValue::Text(request.method)) + maybe(
        "authority"@,
        text_json(request.authority),
    ) + maybe("remote_ip"@, text_json(request.remote_ip)) + maybe(
        "remote_port"@,
        port_json(request.remote_port),
    ) + member("headers"@, JsonValue::Object(list_members(request.headers))) + member(
        "uri"@,
        JsonValue::Text(request.uri),
    ) + member("path"@, JsonValue::Text(request.path)) + member(
        "query"@,
        JsonValue::Object(text_members(request.query)),
    ) + maybe("response"@, response_member(request.response))
}

/// The JSON value that a descriptor is written as.
pub open spec fn request_json(request: RequestView) -> JsonValue {
    JsonValue::Object(request_members(request))
}

/// What the member `headers` gives: the header map, where it is an object of
/// lists of strings.
pub open spec fn required_text_lists(member: Option<JsonValue>) -> Option<
    Seq<(Seq<char>, Seq<Seq<char>>)>,
> {
    match member {
        Some(JsonValue::Object(members)) => if all_text_lists(members) {
            Some(text_lists(members))
        } else {
            None
        },
        _ => None,
    }
}

/// What the member `query` gives: the query map, where it is an object of
/// strings.
pub open spec fn required_text_pairs(member: Option<JsonValue>) -> Option<
    Seq<(Seq<char>, Seq<char>)>,
> {
    match member {
        Some(JsonValue::Object(members)) => if all_text(members) {
            Some(text_pairs(members))
        } else {
            None
        },
        _ => None,
    }
}

/// What the member `response` gives: nothing where it is missing or `null`,
/// a response descriptor where it stands for one; no reading else.
pub open spec fn optional_response(member: Option<JsonValue>) -> Option<Option<ResponseView>> {
    match member {
        None => Some(None),
        Some(JsonValue::Null) => Some(None),
        Some(j) => match response_of_json(j) {
            Ok(r) => Some(Some(r)),
            Err(_) => None,
        },
    }
}

/// The request descriptor that a JSON value stands for, where it stands for
/// one: an object in which `stamp`, `proto`, `method`, `uri` and `path` are
/// strings, `headers` is an object of lists of strings, `query` an object of
/// strings, and each of `authority`, `remote_ip`, `remote_port` and
/// `response` is missing, `null` or of its kind. Other members are passed
/// over.
pub open spec fn request_of_json(j: JsonValue) -> Option<RequestView> {
    let stamp = required_text(field_of(j, "stamp"@));
    let proto = required_text(field_of(j, "proto"@));
    let method = required_text(field_of(j, "method"@));
    let authority = optional_text(field_of(j, "authority"@));
    let remote_ip = optional_text(field_of(j, "remote_ip"@));
    let remote_port = optional_u16(field_of(j, "remote_port"@));
    let headers = required_text_lists(field_of(j, "headers"@));
    let uri = required_text(field_of(j, "uri"@));
    let path = required_text(field_of(j, "path"@));
    let query = required_text_pairs(field_of(j, "query"@));
    let response = optional_response(field_of(j, "response"@));
    if j is Object && stamp is Some && proto is Some && method is Some && authority is Some
        && remote_ip is Some && remote_port is Some && headers is Some && uri is Some
        && path is Some && query is Some && response is Some {
        Some(
            RequestView {
                stamp: stamp->0,
                proto: proto->0,
                method: method->0,
                authority: authority->0,
                remote_ip: remote_ip->0,
                remote_port: remote_port->0,
                headers: headers->0,
                uri: uri->0,
                path: path->0,
                query: query->0,
                response: response->0,
            },
        )
    } else {
        None
    }
}

/// A line: the text of a JSON value and a line feed.
pub open spec fn line_of(j: JsonValue) -> Seq<char> {
    json_text(j).push('\n')
}

/// Whether a text is one line: it ends in a line feed and holds no other.
pub open spec fn one_line(text: Seq<char>) -> bool {
    &&& text.len() > 0
    &&& text.last() == '\n'
    &&& forall|i: int| 0 <= i < text.len() - 1 ==> text[i] != '\n'
}

/// Written as members and read back, a header map is what it was.
pub proof fn lemma_text_lists_round_trip(groups: Seq<(Seq<char>, Seq<Seq<char>>)>)
    ensures
        all_text_lists(list_members(groups)),
        text_lists(list_members(groups)) == groups,
{
    let members = list_members(groups);
    assert forall|i: int| 0 <= i < members.len() implies (#[trigger] members[i]).1 is List
        && all_text_items(members[i].1->List_0) by {}
    assert forall|i: int| 0 <= i < groups.len() implies text_lists(members)[i] == groups[i] by {
        assert(texts_of(text_items(groups[i].1)) =~= groups[i].1);
    }
    assert(text_lists(members) =~= groups);
}

/// What each key gives in the members that a descriptor is written with.
proof fn lemma_request_fields(request: RequestView)
    ensures
        ({
            let j = request_json(request);
            &&& field_of(j, "stamp"@) == Some(JsonValue::Text(request.stamp))
            &&& field_of(j, "proto"@) == Some(JsonValue::Text(request.proto))
            &&& field_of(j, "method"@) == Some(JsonValue::Text(request.method))
            &&& field_of(j, "authority"@) == text_json(request.authority)
            &&& field_of(j, "remote_ip"@) == text_json(request.remote_ip)
            &&& field_of(j, "remote_port"@) == port_json(request.remote_port)
            &&& field_of(j, "headers"@) == Some(JsonValue::Object(list_members(request.headers)))
            &&& field_of(j, "uri"@) == Some(JsonValue::Text(request.uri))
            &&& field_of(j, "path"@) == Some(JsonValue::Text(request.path))
            &&& field_of(j, "query"@) == Some(JsonValue::Object(text_members(request.query)))
            &&& field_of(j, "response"@) == response_member(request.response)
        }),
{
    reveal_strlit("stamp");
    reveal_strlit("proto");
    reveal_strlit("method");
    reveal_strlit("authority");
    reveal_strlit("remote_ip");
    reveal_strlit("remote_port");
    reveal_strlit("headers");
    reveal_strlit("uri");
    reveal_strlit("path");
    reveal_strlit("query");
    reveal_strlit("response");
    let part0 = member("stamp"@, JsonValue::Text(request.stamp));
    let part1 = member("proto"@, JsonValue::Text(request.proto));
    let part2 = member("method"@, JsonValue::Text(request.method));
    let part3 = maybe("authority"@, text_json(request.authority));
    let part4 = maybe("remote_ip"@, text_json(request.remote_ip));
    let part5 = maybe("remote_port"@, port_json(request.remote_port));
    let part6 = member("headers"@, JsonValue::Object(list_members(request.headers)));
    let part7 = member("uri"@, JsonValue::Text(request.uri));
    let part8 = member("path"@, JsonValue::Text(request.path));
    let part9 = member("query"@, JsonValue::Object(text_members(request.query)));
    let part10 = maybe("response"@, response_member(request.response));
    lemma_lookup_short(part0);
    lemma_lookup_short(part1);
    lemma_lookup_short(part2);
    lemma_lookup_short(part3);
    lemma_lookup_short(part4);
    lemma_lookup_short(part5);
    lemma_lookup_short(part6);
    lemma_lookup_short(part7);
    lemma_lookup_short(part8);
    lemma_lookup_short(part9);
    lemma_lookup_short(part10);
    let upto1 = part0 + part1;
    let upto2 = upto1 + part2;
    let upto3 = upto2 + part3;
    let upto4 = upto3 + part4;
    let upto5 = upto4 + part5;
    let upto6 = upto5 + part6;
    let upto7 = upto6 + part7;
    let upto8 = upto7 + part8;
    let upto9 = upto8 + part9;
    let upto10 = upto9 + part10;
    lemma_lookup_concat(part0, part1);
    lemma_lookup_concat(upto1, part2);
    lemma_lookup_concat(upto2, part3);
    lemma_lookup_concat(upto3, part4);
    lemma_lookup_concat(upto4, part5);
    lemma_lookup_concat(upto5, part6);
    lemma_lookup_concat(upto6, part7);
    lemma_lookup_concat(upto7, part8);
    lemma_lookup_concat(upto8, part9);
    lemma_lookup_concat(upto9, part10);
    assert(request_members(request) == upto10);
    // No two keys are the same text: they differ in length, or in their
    // first character where the length is the same.
    assert("stamp"@.len() == 5 && "proto"@.len() == 5 && "query"@.len() == 5);
    assert("method"@.len() == 6 && "authority"@.len() == 9 && "remote_ip"@.len() == 9);
    assert("remote_port"@.len() == 11 && "headers"@.len() == 7 && "uri"@.len() == 3);
    assert("path"@.len() == 4 && "response"@.len() == 8);
    assert("stamp"@[0] == 's' && "proto"@[0] == 'p' && "query"@[0] == 'q');
    assert("authority"@[0] == 'a' && "remote_ip"@[0] == 'r');
}

/// Serializing then deserializing a request descriptor is the identity:
/// the JSON value that a descriptor is written as stands for that
/// descriptor, in every part.
pub proof fn lemma_request_round_trip(request: RequestView)
    ensures
        request_of_json(request_json(request)) == Some(request),
{
    lemma_request_fields(request);
    lemma_text_lists_round_trip(request.headers);
    lemma_text_pairs_round_trip(request.query);
    match request.response {
        Some(r) => {
            lemma_response_round_trip(r);
        },
        None => {},
    }
}

/// Adds a member at the end.
fn push_member(members: &mut Vec<(String, Json)>, key: &str, value: Json)
    ensures
        members_view(final(members)@) == members_view(old(members)@) + member(key@, value@),
{
    members.push((key.to_owned(), value));
    assert(members_view(members@) =~= members_view(old(members)@) + member(key@, value@));
}

/// Adds a member at the end, where there is a value.
fn push_maybe(members: &mut Vec<(String, Json)>, key: &str, value: Option<Json>)
    ensures
        members_view(final(members)@) == members_view(old(members)@) + maybe(
            key@,
            match value {
                Some(v) => Some(v@),
                None => None,
            },
        ),
{
    match value {
        Some(v) => {
            members.push((key.to_owned(), v));
            assert(members_view(members@) =~= members_view(old(members)@) + seq![(key@, v@)]);
        },
        None => {
            assert(members_view(members@) + Seq::<(Seq<char>, JsonValue)>::empty()
                =~= members_view(members@));
        },
    }
}

/// An optional text as an optional string.
fn write_text(text: &Option<String>) -> (j: Option<Json>)
    ensures
        (match j {
            Some(v) => Some(v@),
            None => None,
        }) == text_json(
            match text {
                Some(t) => Some(t@),
                None => None,
            },
        ),
{
    match text {
        Some(t) => Some(Json::Text(t.clone())),
        None => None,
    }
}

/// A header map as an object: under each name the list of its values.
pub fn write_text_lists(groups: &Vec<(String, Vec<String>)>) -> (object: Json)
    ensures
        object@ == JsonValue::Object(list_members(groups.deep_view())),
{
    let ghost all = groups.deep_view();
    let mut members: Vec<(String, Json)> = Vec::new();
    let mut i: usize = 0;
    while i < groups.len()
        invariant
            i <= groups.len(),
            all == groups.deep_view(),
            members.len() == i,
            forall|k: int|
                0 <= k < i ==> (#[trigger] members@[k]).0@ == all[k].0 && members@[k].1@
                    == JsonValue::List(text_items(all[k].1)),
        decreases groups.len() - i,
    {
        let values = &groups[i].1;
        let ghost texts = values.deep_view();
        assert(all[i as int] == (groups@[i as int].0@, texts));
        let mut items: Vec<Json> = Vec::new();
        let mut k: usize = 0;
        while k < values.len()
            invariant
                k <= values.len(),
                items.len() == k,
                texts == values.deep_view(),
                forall|n: int| 0 <= n < k ==> (#[trigger] items@[n])@ == JsonValue::Text(texts[n]),
            decreases values.len() - k,
        {
            items.push(Json::Text(values[k].clone()));
            k = k + 1;
        }
        proof {
            lemma_list_view(items);
            assert(items_view(items@) =~= text_items(texts));
        }
        members.push((groups[i].0.clone(), Json::List(items)));
        i = i + 1;
    }
    proof {
        lemma_object_view(members);
        assert(members_view(members@) =~= list_members(all));
    }
    Json::Object(members)
}

/// The items as texts; none where an item is no string.
pub fn read_texts(items: &Vec<Json>) -> (texts: Option<Vec<String>>)
    ensures
        match texts {
            Some(ts) => all_text_items(items_view(items@)) && ts.deep_view() == texts_of(
                items_view(items@),
            ),
            None => !all_text_items(items_view(items@)),
        },
{
    let ghost all = items_view(items@);
    let mut texts: Vec<String> = Vec::new();
    let mut i: usize = 0;
    while i < items.len()
        invariant
            i <= items.len(),
            all == items_view(items@),
            texts.len() == i,
            forall|k: int| 0 <= k < i ==> (#[trigger] all[k]) is Text,
            forall|k: int| 0 <= k < i ==> (#[trigger] texts@[k])@ == all[k]->Text_0,
        decreases items.len() - i,
    {
        assert(all[i as int] == items@[i as int]@);
        match &items[i] {
            Json::Text(t) => {
                texts.push(t.clone());
            },
            _ => {
                assert(!(all[i as int] is Text));
                return None;
            },
        }
        i = i + 1;
    }
    assert(texts.deep_view() =~= texts_of(all));
    Some(texts)
}

/// The members as a header map; none where a member is no list of strings.
pub fn read_text_lists(members: &Vec<(String, Json)>) -> (groups: Option<
    Vec<(String, Vec<String>)>,
>)
    ensures
        match groups {
            Some(gs) => all_text_lists(members_view(members@)) && gs.deep_view() == text_lists(
                members_view(members@),
            ),
            None => !all_text_lists(members_view(members@)),
        },
{
    let ghost all = members_view(members@);
    let mut groups: Vec<(String, Vec<String>)> = Vec::new();
    let mut i: usize = 0;
    while i < members.len()
        invariant
            i <= members.len(),
            all == members_view(members@),
            groups.len() == i,
            forall|k: int|
                0 <= k < i ==> (#[trigger] all[k]).1 is List && all_text_items(all[k].1->List_0),
            forall|k: int|
                0 <= k < i ==> (#[trigger] groups@[k]).0@ == all[k].0 && groups@[k].1.deep_view()
                    == texts_of(all[k].1->List_0),
        decreases members.len() - i,
    {
        assert(all[i as int] == (members@[i as int].0@, members@[i as int].1@));
        match &members[i].1 {
            Json::List(items) => {
                proof {
                    lemma_list_view(*items);
                }
                match read_texts(items) {
                    Some(texts) => {
                        groups.push((members[i].0.clone(), texts));
                    },
                    None => {
                        return None;
                    },
                }
            },
            _ => {
                assert(!(all[i as int].1 is List));
                return None;
            },
        }
        i = i + 1;
    }
    assert(groups.deep_view() =~= text_lists(all));
    Some(groups)
}

/// A copy of a header map.
fn copy_groups(groups: &Vec<(String, Vec<String>)>) -> (copy: Vec<(String, Vec<String>)>)
    ensures
        copy.deep_view() == groups.deep_view(),
{
    let mut copy: Vec<(String, Vec<String>)> = Vec::new();
    let mut i: usize = 0;
    while i < groups.len()
        invariant
            i <= groups.len(),
            copy.len() == i,
            forall|k: int|
                0 <= k < i ==> (#[trigger] copy@[k]).0@ == groups@[k].0@ && copy@[k].1.deep_view()
                    == groups@[k].1.deep_view(),
        decreases groups.len() - i,
    {
        let values = &groups[i].1;
        let mut texts: Vec<String> = Vec::new();
        let mut k: usize = 0;
        while k < values.len()
            invariant
                k <= values.len(),
                texts.len() == k,
                forall|n: int| 0 <= n < k ==> (#[trigger] texts@[n])@ == values@[n]@,
            decreases values.len() - k,
        {
            texts.push(values[k].clone());
            k = k + 1;
        }
        assert(texts.deep_view() =~= values.deep_view());
        copy.push((groups[i].0.clone(), texts));
        i = i + 1;
    }
    assert(copy.deep_view() =~= groups.deep_view());
    copy
}

impl Request {
    /// A copy of the descriptor.
    pub fn duplicate(&self) -> (copy: Request)
        ensures
            copy@ == self@,
    {
        Request {
            stamp: self.stamp.clone(),
            proto: self.proto.clone(),
            method: self.method.clone(),
            authority: copy_text(&self.authority),
            remote_ip: copy_text(&self.remote_ip),
            remote_port: self.remote_port,
            headers: copy_groups(&self.headers),
            uri: self.uri.clone(),
            path: self.path.clone(),
            query: copy_pairs(&self.query),
            response: match &self.response {
                Some(r) => Some(r.duplicate()),
                None => None,
            },
        }
    }

    /// The descriptor with the child's response descriptor in it, for the
    /// log.
    pub fn with_response(self, response: Response) -> (request: Request)
        ensures
            request@ == (RequestView { response: Some(response@), ..self@ }),
    {
        Request { response: Some(response), ..self }
    }

    /// Writes the descriptor as a JSON value, with the response descriptor
    /// or, for a child, without.
    pub fn to_json(&self, with_response: bool) -> (j: Json)
        ensures
            j@ == request_json(
                if with_response {
                    self@
                } else {
                    for_child(self@)
                },
            ),
    {
        let mut members: Vec<(String, Json)> = Vec::new();
        assert(members_view(members@) =~= Seq::empty());
        push_member(&mut members, "stamp", Json::Text(self.stamp.clone()));
        assert(members_view(members@) =~= member("stamp"@, JsonValue::Text(self@.stamp)));
        push_member(&mut members, "proto", Json::Text(self.proto.clone()));
        push_member(&mut members, "method", Json::Text(self.method.clone()));
        push_maybe(&mut members, "authority", write_text(&self.authority));
        push_maybe(&mut members, "remote_ip", write_text(&self.remote_ip));
        let port = match self.remote_port {
            Some(p) => Some(Json::Natural(p as u64)),
            None => None,
        };
        push_maybe(&mut members, "remote_port", port);
        push_member(&mut members, "headers", write_text_lists(&self.headers));
        push_member(&mut members, "uri", Json::Text(self.uri.clone()));
        push_member(&mut members, "path", Json::Text(self.path.clone()));
        push_member(&mut members, "query", write_text_pairs(&self.query));
        let response = if with_response {
            match &self.response {
                Some(r) => Some(r.to_json()),
                None => None,
            }
        } else {
            None
        };
        push_maybe(&mut members, "response", response);
        proof {
            lemma_object_view(members);
        }
        Json::Object(members)
    }

    /// Reads a descriptor from a JSON value.
    pub fn from_json(j: &Json) -> (read: Option<Request>)
        ensures
            match read {
                Some(request) => request_of_json(j@) == Some(request@),
                None => request_of_json(j@).is_none(),
            },
    {
        match j {
            Json::Object(_) => {},
            _ => {
                return None;
            },
        }
        let stamp = match j.text_needed("stamp") {
            Some(t) => t,
            None => {
                return None;
            },
        };
        let proto = match j.text_needed("proto") {
            Some(t) => t,
            None => {
                return None;
            },
        };
        let method = match j.text_needed("method") {
            Some(t) => t,
            None => {
                return None;
            },
        };
        let authority = match j.text_at("authority") {
            Some(t) => t,
            None => {
                return None;
            },
        };
        let remote_ip = match j.text_at("remote_ip") {
            Some(t) => t,
            None => {
                return None;
            },
        };
        let remote_port = match j.u16_at("remote_port") {
            Some(p) => p,
            None => {
                return None;
            },
        };
        let headers = match j.field("headers") {
            Some(Json::Object(members)) => {
                proof {
                    lemma_object_view(*members);
                }
                match read_text_lists(members) {
                    Some(groups) => groups,
                    None => {
                        return None;
                    },
                }
            },
            _ => {
                return None;
            },
        };
        let uri = match j.text_needed("uri") {
            Some(t) => t,
            None => {
                return None;
            },
        };
        let path = match j.text_needed("path") {
            Some(t) => t,
            None => {
                return None;
            },
        };
        let query = match j.field("query") {
            Some(Json::Object(members)) => {
                proof {
                    lemma_object_view(*members);
                }
                match read_text_pairs(members) {
                    Some(pairs) => pairs,
                    None => {
                        return None;
                    },
                }
            },
            _ => {
                return None;
            },
        };
        let response = match j.field("response") {
            None => None,
            Some(Json::Null) => None,
            Some(r) => match Response::from_json(r) {
                Ok(meta) => Some(meta),
                Err(_) => {
                    return None;
                },
            },
        };
        Some(
            Request {
                stamp,
                proto,
                method,
                authority,
                remote_ip,
                remote_port,
                headers,
                uri,
                path,
                query,
                response,
            },
        )
    }

    /// The line that a child is sent: the descriptor without a response, as
    /// JSON, and a line feed.
    pub fn child_line(&self) -> (line: String)
        ensures
            line@ == line_of(request_json(for_child(self@))),
            one_line(line@),
    {
        end_line(render(&self.to_json(false)))
    }

    /// The line that is logged when a request is done: the descriptor with
    /// its response, as JSON, and a line feed.
    pub fn log_line(&self) -> (line: String)
        ensures
            line@ == line_of(request_json(self@)),
            one_line(line@),
    {
        end_line(render(&self.to_json(true)))
    }

    /// Reads a descriptor from its JSON text.
    pub fn read(text: &str) -> (read: Option<Request>)
        ensures
            match read {
                Some(request) => json_parsed(text@) matches Ok(j) && request_of_json(j) == Some(
                    request@,
                ),
                None => json_parsed(text@) matches Ok(j) ==> request_of_json(j).is_none(),
            },
    {
        match parse(text) {
            Ok(j) => Request::from_json(&j),
            Err(_) => None,
        }
    }
}

/// The text with a line feed at its end.
pub fn end_line(text: String) -> (line: String)
    ensures
        line@ == text@.push('\n'),
        !text@.contains('\n') ==> one_line(line@),
{
    let mut line = text;
    proof {
        reveal_strlit("\n");
    }
    line.append("\n");
    assert(line@ =~= text@.push('\n'));
    assert(!text@.contains('\n') ==> one_line(line@)) by {
        if !text@.contains('\n') {
            assert forall|i: int| 0 <= i < line@.len() - 1 implies line@[i] != '\n' by {
                assert(text@[i] == line@[i]);
                assert(text@.contains(text@[i]));
            }
        }
    }
    line
}

} // verus!
