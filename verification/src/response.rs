//! The response descriptor that a child may write, and the response head
//! that the server sends for it.

use crate::json::{all_text, field_of, json_parsed, lemma_object_view, members_view, parse};
use crate::json::{lemma_text_pairs_round_trip, optional_text, optional_u16, read_text_pairs};
use crate::json::{text_members, text_pairs};
use crate::json::{write_text_pairs, Json, JsonValue};
use crate::assoc::{lemma_lookup_concat, lemma_lookup_short};
use crate::text::{lower, same_ignoring_case};
use vstd::prelude::*;

verus! {

/// What a child says of its response. Every part is optional.
#[derive(Debug, Clone, PartialEq, Eq)]
pub struct Response {
    pub status: Option<u16>,
    /// Header names and values, the names in the case given.
    pub headers: Option<Vec<(String, String)>>,
    pub request_id: Option<String>,
}

pub struct ResponseView {
    pub status: Option<u16>,
    pub headers: Option<Seq<(Seq<char>, Seq<char>)>>,
    pub request_id: Option<Seq<char>>,
}

impl View for Response {
    type V = ResponseView;

    open spec fn view(&self) -> ResponseView {
        ResponseView {
            status: self.status,
            headers: match self.headers {
                Some(hs) => Some(hs.deep_view()),
                None => None,
            },
            request_id: match self.request_id {
                Some(id) => Some(id@),
                None => None,
            },
        }
    }
}

/// The descriptor of a child that wrote none.
pub open spec fn no_response() -> ResponseView {
    ResponseView { status: None, headers: None, request_id: None }
}

impl Default for Response {
    fn default() -> (meta: Response)
        ensures
            meta@ == no_response(),
    {
        Response { status: None, headers: None, request_id: None }
    }
}

/// Why a response descriptor cannot be used.
#[derive(Debug, Clone, Copy, PartialEq, Eq, Structural)]
pub enum MetaError {
    /// The bytes are not one JSON value.
    Malformed,
    /// The JSON value is not an object.
    NotAnObject,
    /// `status` is there and is no integer from 0 to 65535.
    BadStatus,
    /// `headers` is there and is no object of strings.
    BadHeaders,
    /// `request_id` is there and is no string.
    BadRequestId,
    /// The status is outside 100 to 599.
    StatusOutOfRange,
    /// A header name or value is not one that HTTP can carry.
    InvalidHeader,
    /// The descriptor is longer than the server is willing to hold.
    TooLong,
}

/// The head of an HTTP response: status and headers in the order to send.
#[derive(Debug, Clone, PartialEq, Eq)]
pub struct Head {
    pub status: u16,
    pub headers: Vec<(String, String)>,
}

pub struct HeadView {
    pub status: u16,
    pub headers: Seq<(Seq<char>, Seq<char>)>,
}

impl View for Head {
    type V = HeadView;

    open spec fn view(&self) -> HeadView {
        HeadView { status: self.status, headers: self.headers.deep_view() }
    }
}

pub open spec fn status_key() -> Seq<char> {
    "status"@
}

pub open spec fn headers_key() -> Seq<char> {
    "headers"@
}

pub open spec fn request_id_key() -> Seq<char> {
    "request_id"@
}

pub open spec fn content_type() -> Seq<char> {
    "content-type"@
}

pub open spec fn text_plain() -> Seq<char> {
    "text/plain"@
}

/// What became of a member: its reading, or the error `e` where it has none.
pub open spec fn or_error<T>(reading: Option<T>, e: MetaError) -> Result<T, MetaError> {
    match reading {
        Some(r) => Ok(r),
        None => Err(e),
    }
}

/// The headers that a member `headers` gives: none where it is missing or
/// `null`; no reading where it is no object of strings.
pub open spec fn optional_text_pairs(member: Option<JsonValue>) -> Option<
    Option<Seq<(Seq<char>, Seq<char>)>>,
> {
    match member {
        None => Some(None),
        Some(JsonValue::Null) => Some(None),
        Some(JsonValue::Object(members)) => if all_text(members) {
            Some(Some(text_pairs(members)))
        } else {
            None
        },
        Some(_) => None,
    }
}

/// The response descriptor that a JSON value stands for. Members other than
/// `status`, `headers` and `request_id` are passed over. The first part that
/// is wrong, in that order, gives the error.
pub open spec fn response_of_json(j: JsonValue) -> Result<ResponseView, MetaError> {
    if !(j is Object) {
        Err(MetaError::NotAnObject)
    } else {
        match or_error(optional_u16(field_of(j, status_key())), MetaError::BadStatus) {
            Err(e) => Err(e),
            Ok(status) => match or_error(
                optional_text_pairs(field_of(j, headers_key())),
                MetaError::BadHeaders,
            ) {
                Err(e) => Err(e),
                Ok(headers) => match or_error(
                    optional_text(field_of(j, request_id_key())),
                    MetaError::BadRequestId,
                ) {
                    Err(e) => Err(e),
                    Ok(request_id) => Ok(ResponseView { status, headers, request_id }),
                },
            },
        }
    }
}

/// The members that a descriptor is written with: each part that is there,
/// in the order `status`, `headers`, `request_id`.
pub open spec fn response_members(meta: ResponseView) -> Seq<(Seq<char>, JsonValue)> {
    let status = match meta.status {
        Some(s) => seq![(status_key(), JsonValue::Integer(s as int))],
        None => Seq::empty(),
    };
    let headers = match meta.headers {
        Some(hs) => seq![(headers_key(), JsonValue::Object(text_members(hs)))],
        None => Seq::empty(),
    };
    let request_id = match meta.request_id {
        Some(id) => seq![(request_id_key(), JsonValue::Text(id))],
        None => Seq::empty(),
    };
    status + headers + request_id
}

/// The JSON value that a descriptor is written as.
pub open spec fn response_json(meta: ResponseView) -> JsonValue {
    JsonValue::Object(response_members(meta))
}

/// Whether a character may stand in a header name: a letter, a digit, or one
/// of ``!"#$%&'*+-.^_`|~``.
pub open spec fn name_char(c: char) -> bool {
    ||| ('a' <= c && c <= 'z')
    ||| ('A' <= c && c <= 'Z')
    ||| ('0' <= c && c <= '9')
    ||| ('!' <= c && c <= '\'')
    ||| c == '*'
    ||| c == '+'
    ||| c == '-'
    ||| c == '.'
    ||| c == '^'
    ||| c == '_'
    ||| c == '`'
    ||| c == '|'
    ||| c == '~'
}

/// Whether a text can be a header name: 1 to 65535 characters, each one
/// that may stand in a name.
pub open spec fn is_header_name(name: Seq<char>) -> bool {
    &&& 1 <= name.len() <= 65535
    &&& forall|i: int| 0 <= i < name.len() ==> name_char(#[trigger] name[i])
}

/// Whether a character may stand in a header value: none of the control
/// characters but the tab.
pub open spec fn value_char(c: char) -> bool {
    (c >= ' ' && c != '\x7f') || c == '\t'
}

/// Whether a text can be a header value.
pub open spec fn is_header_value(value: Seq<char>) -> bool {
    forall|i: int| 0 <= i < value.len() ==> value_char(#[trigger] value[i])
}

/// Whether every header has a name and a value that HTTP can carry.
pub open spec fn headers_valid(headers: Seq<(Seq<char>, Seq<char>)>) -> bool {
    forall|i: int|
        0 <= i < headers.len() ==> is_header_name((#[trigger] headers[i]).0) && is_header_value(
            headers[i].1,
        )
}

/// Whether some header is `Content-Type`, in any case of the letters.
pub open spec fn has_content_type(headers: Seq<(Seq<char>, Seq<char>)>) -> bool {
    exists|i: int| 0 <= i < headers.len() && lower((#[trigger] headers[i]).0) == content_type()
}

/// The headers with `content-type: text/plain` at the end, unless a
/// `Content-Type` is among them.
pub open spec fn with_content_type(headers: Seq<(Seq<char>, Seq<char>)>) -> Seq<
    (Seq<char>, Seq<char>),
> {
    if has_content_type(headers) {
        headers
    } else {
        headers.push((content_type(), text_plain()))
    }
}

/// The headers that a descriptor gives; none where it has no such part.
pub open spec fn given_headers(meta: ResponseView) -> Seq<(Seq<char>, Seq<char>)> {
    match meta.headers {
        Some(hs) => hs,
        None => Seq::empty(),
    }
}

/// The status that a descriptor gives; 200 where it has no such part.
pub open spec fn given_status(meta: ResponseView) -> u16 {
    match meta.status {
        Some(s) => s,
        None => 200,
    }
}

/// The head to send for a descriptor: its status, or 200; its headers, and
/// `content-type: text/plain` unless it has a `Content-Type`. A status
/// outside 100 to 599 and a header that HTTP cannot carry are errors, the
/// status first.
pub open spec fn head_of(meta: ResponseView) -> Result<HeadView, MetaError> {
    if !(100 <= given_status(meta) <= 599) {
        Err(MetaError::StatusOutOfRange)
    } else if !headers_valid(given_headers(meta)) {
        Err(MetaError::InvalidHeader)
    } else {
        Ok(
            HeadView {
                status: given_status(meta),
                headers: with_content_type(given_headers(meta)),
            },
        )
    }
}

/// The head that tells the client that the child's answer was unusable.
pub open spec fn bad_gateway_head() -> HeadView {
    HeadView { status: 502, headers: seq![(content_type(), text_plain())] }
}

/// What the server does once the response descriptor is read to its end.
#[derive(Debug, Clone, PartialEq, Eq)]
pub enum Plan {
    /// Send the head, then the child's standard output as the body.
    Stream { head: Head, meta: Response },
    /// Send the head with an empty body. `message` is what the JSON reader
    /// said where the error is [`MetaError::Malformed`], else empty.
    Reject { head: Head, error: MetaError, message: String },
}

pub enum PlanView {
    Stream { head: HeadView, meta: ResponseView },
    Reject { head: HeadView, error: MetaError, message: Seq<char> },
}

impl View for Plan {
    type V = PlanView;

    open spec fn view(&self) -> PlanView {
        match self {
            Plan::Stream { head, meta } => PlanView::Stream { head: head@, meta: meta@ },
            Plan::Reject { head, error, message } => PlanView::Reject {
                head: head@,
                error: *error,
                message: message@,
            },
        }
    }
}

/// The plan for a descriptor.
pub open spec fn plan_for(meta: ResponseView) -> PlanView {
    match head_of(meta) {
        Ok(head) => PlanView::Stream { head, meta },
        Err(error) => PlanView::Reject { head: bad_gateway_head(), error, message: Seq::empty() },
    }
}

/// The plan for what the JSON reader made of the descriptor's bytes.
pub open spec fn plan_of_parsed(parsed: Result<JsonValue, Seq<char>>) -> PlanView {
    match parsed {
        Err(message) => PlanView::Reject {
            head: bad_gateway_head(),
            error: MetaError::Malformed,
            message,
        },
        Ok(j) => match response_of_json(j) {
            Err(error) => PlanView::Reject {
                head: bad_gateway_head(),
                error,
                message: Seq::empty(),
            },
            Ok(meta) => plan_for(meta),
        },
    }
}

/// The plan for the bytes that the child wrote as its response descriptor:
/// the defaults where there are none, else what their JSON value says.
pub open spec fn plan_of(buf: Seq<char>) -> PlanView {
    if buf.len() == 0 {
        plan_for(no_response())
    } else {
        plan_of_parsed(json_parsed(buf))
    }
}

/// The most bytes of a response descriptor that the server holds, unless it
/// is told another limit.
pub const META_LIMIT: usize = 1048576;

/// The plan for a response descriptor of which no more than `limit` bytes
/// are held: one that is longer, counted in bytes, is rejected unread.
pub open spec fn plan_within_of(buf: &str, limit: usize) -> PlanView {
    if buf.len() > limit {
        PlanView::Reject {
            head: bad_gateway_head(),
            error: MetaError::TooLong,
            message: Seq::empty(),
        }
    } else {
        plan_of(buf@)
    }
}

/// `http::header::HeaderName::from_bytes` on the name's bytes, asked whether
/// it gave a name. It does for 1 to 65535 bytes that each stand for a letter,
/// a digit or one of ``!"#$%&'*+-.^_`|~``.
#[verifier::external_body]
fn name_accepted(name: &str) -> (ok: bool)
    ensures
        ok == is_header_name(name@),
{
    http::header::HeaderName::from_bytes(name.as_bytes()).is_ok()
}

/// `http::header::HeaderValue::from_bytes` on the value's bytes, asked
/// whether it gave a value. It does unless a byte is below 32 and not the
/// tab, or is 127.
#[verifier::external_body]
fn value_accepted(value: &str) -> (ok: bool)
    ensures
        ok == is_header_value(value@),
{
    http::header::HeaderValue::from_bytes(value.as_bytes()).is_ok()
}

/// Whether every header has a name and a value that HTTP can carry.
pub fn check_headers(headers: &Vec<(String, String)>) -> (ok: bool)
    ensures
        ok == headers_valid(headers.deep_view()),
{
    let ghost all = headers.deep_view();
    let mut i: usize = 0;
    while i < headers.len()
        invariant
            i <= headers.len(),
            all == headers.deep_view(),
            forall|k: int|
                0 <= k < i ==> is_header_name((#[trigger] all[k]).0) && is_header_value(all[k].1),
        decreases headers.len() - i,
    {
        assert(all[i as int] == (headers@[i as int].0@, headers@[i as int].1@));
        if !name_accepted(headers[i].0.as_str()) || !value_accepted(headers[i].1.as_str()) {
            return false;
        }
        i = i + 1;
    }
    true
}

/// Whether some header is `Content-Type`, in any case of the letters.
pub fn find_content_type(headers: &Vec<(String, String)>) -> (found: bool)
    ensures
        found == has_content_type(headers.deep_view()),
{
    let ghost all = headers.deep_view();
    let mut i: usize = 0;
    while i < headers.len()
        invariant
            i <= headers.len(),
            all == headers.deep_view(),
            forall|k: int| 0 <= k < i ==> lower((#[trigger] all[k]).0) != content_type(),
        decreases headers.len() - i,
    {
        assert(all[i as int] == (headers@[i as int].0@, headers@[i as int].1@));
        if same_ignoring_case(headers[i].0.as_str(), "content-type") {
            proof {
                lemma_content_type_is_lower();
            }
            return true;
        }
        proof {
            lemma_content_type_is_lower();
        }
        i = i + 1;
    }
    false
}

/// The name `content-type` has no upper-case letter.
pub proof fn lemma_content_type_is_lower()
    ensures
        lower(content_type()) == content_type(),
{
    reveal_strlit("content-type");
    assert(lower(content_type()) =~= content_type());
}

/// The head `502` with `content-type: text/plain`.
pub fn bad_gateway() -> (head: Head)
    ensures
        head@ == bad_gateway_head(),
{
    let mut headers: Vec<(String, String)> = Vec::new();
    headers.push(("content-type".to_owned(), "text/plain".to_owned()));
    assert(headers.deep_view() =~= seq![(content_type(), text_plain())]);
    Head { status: 502, headers }
}

/// A copy of a list of pairs.
pub fn copy_pairs(pairs: &Vec<(String, String)>) -> (copy: Vec<(String, String)>)
    ensures
        copy.deep_view() == pairs.deep_view(),
{
    let mut copy: Vec<(String, String)> = Vec::new();
    let mut i: usize = 0;
    while i < pairs.len()
        invariant
            i <= pairs.len(),
            copy.len() == i,
            forall|k: int| 0 <= k < i ==> (#[trigger] copy@[k]).0@ == pairs@[k].0@ && copy@[k].1@
                == pairs@[k].1@,
        decreases pairs.len() - i,
    {
        copy.push((pairs[i].0.clone(), pairs[i].1.clone()));
        i = i + 1;
    }
    assert(copy.deep_view() =~= pairs.deep_view());
    copy
}

impl Response {
    /// A copy of the descriptor.
    pub fn duplicate(&self) -> (copy: Response)
        ensures
            copy@ == self@,
    {
        Response {
            status: self.status,
            headers: match &self.headers {
                Some(hs) => Some(copy_pairs(hs)),
                None => None,
            },
            request_id: match &self.request_id {
                Some(id) => Some(id.clone()),
                None => None,
            },
        }
    }

    /// Reads a descriptor from a JSON value.
    pub fn from_json(j: &Json) -> (read: Result<Response, MetaError>)
        ensures
            match read {
                Ok(meta) => response_of_json(j@) == Ok::<ResponseView, MetaError>(meta@),
                Err(e) => response_of_json(j@) == Err::<ResponseView, MetaError>(e),
            },
    {
        match j {
            Json::Object(_) => {},
            _ => {
                return Err(MetaError::NotAnObject);
            },
        }
        let status: Option<u16> = match j.u16_at("status") {
            Some(s) => s,
            None => {
                return Err(MetaError::BadStatus);
            },
        };
        let headers: Option<Vec<(String, String)>> = match j.field("headers") {
            None => None,
            Some(Json::Null) => None,
            Some(Json::Object(members)) => {
                proof {
                    lemma_object_view(*members);
                }
                match read_text_pairs(members) {
                    Some(pairs) => Some(pairs),
                    None => {
                        return Err(MetaError::BadHeaders);
                    },
                }
            },
            Some(_) => {
                return Err(MetaError::BadHeaders);
            },
        };
        let request_id: Option<String> = match j.text_at("request_id") {
            Some(id) => id,
            None => {
                return Err(MetaError::BadRequestId);
            },
        };
        Ok(Response { status, headers, request_id })
    }

    /// Writes the descriptor as a JSON value.
    pub fn to_json(&self) -> (j: Json)
        ensures
            j@ == response_json(self@),
    {
        let mut members: Vec<(String, Json)> = Vec::new();
        assert(members_view(members@) =~= Seq::empty());
        if let Some(s) = self.status {
            members.push(("status".to_owned(), Json::Natural(s as u64)));
            assert(members_view(members@) =~= seq![
                (status_key(), JsonValue::Integer(s as int)),
            ]);
        }
        let ghost after_status = members_view(members@);
        if let Some(hs) = &self.headers {
            let object = write_text_pairs(hs);
            members.push(("headers".to_owned(), object));
            assert(members_view(members@) =~= after_status + seq![
                (headers_key(), JsonValue::Object(text_members(hs.deep_view()))),
            ]);
        } else {
            assert(after_status + Seq::<(Seq<char>, JsonValue)>::empty() =~= after_status);
        }
        let ghost after_headers = members_view(members@);
        if let Some(id) = &self.request_id {
            members.push(("request_id".to_owned(), Json::Text(id.clone())));
            assert(members_view(members@) =~= after_headers + seq![
                (request_id_key(), JsonValue::Text(id@)),
            ]);
        } else {
            assert(after_headers + Seq::<(Seq<char>, JsonValue)>::empty() =~= after_headers);
        }
        proof {
            lemma_object_view(members);
        }
        Json::Object(members)
    }
}

/// The head to send for a descriptor.
pub fn head_for(meta: &Response) -> (head: Result<Head, MetaError>)
    ensures
        match head {
            Ok(h) => head_of(meta@) == Ok::<HeadView, MetaError>(h@),
            Err(e) => head_of(meta@) == Err::<HeadView, MetaError>(e),
        },
{
    let status: u16 = match meta.status {
        Some(s) => s,
        None => 200,
    };
    if status < 100 || status > 599 {
        return Err(MetaError::StatusOutOfRange);
    }
    let mut headers: Vec<(String, String)> = match &meta.headers {
        Some(hs) => copy_pairs(hs),
        None => Vec::new(),
    };
    assert(headers.deep_view() =~= given_headers(meta@));
    if !check_headers(&headers) {
        return Err(MetaError::InvalidHeader);
    }
    if !find_content_type(&headers) {
        let ghost before = headers.deep_view();
        headers.push(("content-type".to_owned(), "text/plain".to_owned()));
        assert(headers.deep_view() =~= before.push((content_type(), text_plain())));
    }
    Ok(Head { status, headers })
}

/// The plan for a descriptor.
pub fn plan_meta(meta: Response) -> (plan: Plan)
    ensures
        plan@ == plan_for(meta@),
{
    match head_for(&meta) {
        Ok(head) => Plan::Stream { head, meta },
        Err(error) => Plan::Reject { head: bad_gateway(), error, message: String::new() },
    }
}

/// The plan for what the JSON reader made of the descriptor's bytes.
pub fn plan_parsed(parsed: Result<Json, String>) -> (plan: Plan)
    ensures
        plan@ == plan_of_parsed(
            match parsed {
                Ok(j) => Ok(j@),
                Err(message) => Err(message@),
            },
        ),
{
    match parsed {
        Err(message) => Plan::Reject { head: bad_gateway(), error: MetaError::Malformed, message },
        Ok(j) => match Response::from_json(&j) {
            Err(error) => Plan::Reject { head: bad_gateway(), error, message: String::new() },
            Ok(meta) => plan_meta(meta),
        },
    }
}

/// The plan for the bytes that the child wrote as its response descriptor,
/// read to their end. Where there are none, the status is 200 and the one
/// header is `content-type: text/plain`.
pub fn plan(buf: &str) -> (plan: Plan)
    ensures
        plan@ == plan_of(buf@),
        buf@.len() == 0 ==> plan@ == (PlanView::Stream {
            head: HeadView { status: 200, headers: seq![(content_type(), text_plain())] },
            meta: no_response(),
        }),
{
    if buf.is_empty() {
        proof {
            lemma_default_head();
        }
        plan_meta(Response::default())
    } else {
        plan_parsed(parse(buf))
    }
}

/// Written as JSON and read back, a response descriptor is what it was.
pub proof fn lemma_response_round_trip(meta: ResponseView)
    ensures
        response_of_json(response_json(meta)) == Ok::<ResponseView, MetaError>(meta),
{
    reveal_strlit("status");
    reveal_strlit("headers");
    reveal_strlit("request_id");
    let none = Seq::<(Seq<char>, JsonValue)>::empty();
    let status = match meta.status {
        Some(s) => seq![(status_key(), JsonValue::Integer(s as int))],
        None => none,
    };
    let headers = match meta.headers {
        Some(hs) => seq![(headers_key(), JsonValue::Object(text_members(hs)))],
        None => none,
    };
    let request_id = match meta.request_id {
        Some(id) => seq![(request_id_key(), JsonValue::Text(id))],
        None => none,
    };
    lemma_lookup_concat(status, headers);
    lemma_lookup_concat(status + headers, request_id);
    lemma_lookup_short(status);
    lemma_lookup_short(headers);
    lemma_lookup_short(request_id);
    match meta.headers {
        Some(hs) => {
            lemma_text_pairs_round_trip(hs);
        },
        None => {},
    }
    assert(response_members(meta) == status + headers + request_id);
    // The three keys differ in length.
    assert("status"@.len() == 6 && "headers"@.len() == 7 && "request_id"@.len() == 10);
}

/// The plan for the bytes of a response descriptor that were read into a
/// buffer of `limit` bytes and one more: a descriptor that fills more than
/// the buffer is rejected, any other is planned for as it stands.
pub fn plan_within(buf: &str, limit: usize) -> (plan: Plan)
    ensures
        plan@ == plan_within_of(buf, limit),
{
    if buf.len() > limit {
        Plan::Reject { head: bad_gateway(), error: MetaError::TooLong, message: String::new() }
    } else {
        self::plan(buf)
    }
}

/// Whatever the child wrote, the head that is sent has a status from 100 to
/// 599 and carries a `Content-Type`.
pub proof fn lemma_head_is_sound(buf: Seq<char>)
    ensures
        ({
            let head = match plan_of(buf) {
                PlanView::Stream { head, .. } => head,
                PlanView::Reject { head, .. } => head,
            };
            100 <= head.status <= 599 && has_content_type(head.headers)
        }),
{
    lemma_content_type_is_lower();
    let refusal = bad_gateway_head().headers;
    assert(lower(refusal[0].0) == content_type());
    assert forall|meta: ResponseView| #[trigger] head_of(meta) is Ok implies has_content_type(
        head_of(meta)->Ok_0.headers,
    ) by {
        let given = given_headers(meta);
        if !has_content_type(given) {
            let all = given.push((content_type(), text_plain()));
            assert(lower(all[given.len() as int].0) == content_type());
        }
    }
}

/// A child that writes no descriptor gets status 200 and the one header
/// `content-type: text/plain`.
pub proof fn lemma_default_head()
    ensures
        head_of(no_response()) == Ok::<HeadView, MetaError>(
            HeadView { status: 200, headers: seq![(content_type(), text_plain())] },
        ),
{
    let none = Seq::<(Seq<char>, Seq<char>)>::empty();
    assert(given_headers(no_response()) == none);
    assert(!has_content_type(none));
    assert(none.push((content_type(), text_plain())) =~= seq![(content_type(), text_plain())]);
}

} // verus!
