use http_sh::json::Json;
use http_sh::response::{
    bad_gateway, check_headers, find_content_type, head_for, plan, plan_parsed, plan_within, Head,
    MetaError, Plan, Response, META_LIMIT,
};

fn pair(name: &str, value: &str) -> (String, String) {
    (name.to_string(), value.to_string())
}

fn stream_head(p: Plan) -> Head {
    match p {
        Plan::Stream { head, .. } => head,
        Plan::Reject { error, .. } => panic!("rejected: {:?}", error),
    }
}

fn rejection(p: Plan) -> (Head, MetaError, String) {
    match p {
        Plan::Reject { head, error, message } => (head, error, message),
        Plan::Stream { head, .. } => panic!("streams with {:?}", head),
    }
}

#[test]
fn no_descriptor_gives_the_defaults() {
    let p = plan("");
    match p {
        Plan::Stream { head, meta } => {
            assert_eq!(head.status, 200);
            assert_eq!(head.headers, vec![pair("content-type", "text/plain")]);
            assert_eq!(meta, Response::default());
        }
        Plan::Reject { .. } => panic!("an empty descriptor is no error"),
    }
}

#[test]
fn descriptor_sets_status_and_content_type() {
    let p = plan("{\"status\":404,\"headers\":{\"content-type\":\"text/markdown\"}}\n");
    match p {
        Plan::Stream { head, meta } => {
            assert_eq!(head.status, 404);
            assert_eq!(head.headers, vec![pair("content-type", "text/markdown")]);
            assert_eq!(meta.status, Some(404));
            assert_eq!(meta.headers, Some(vec![pair("content-type", "text/markdown")]));
            assert_eq!(meta.request_id, None);
        }
        Plan::Reject { .. } => panic!("the descriptor is well formed"),
    }
}

#[test]
fn status_alone_gets_default_content_type() {
    let head = stream_head(plan("{\"status\": 201}"));
    assert_eq!(head.status, 201);
    assert_eq!(head.headers, vec![pair("content-type", "text/plain")]);
}

#[test]
fn headers_alone_get_default_status() {
    let head = stream_head(plan("{\"headers\":{\"x-a\":\"1\"}}"));
    assert_eq!(head.status, 200);
    assert_eq!(head.headers, vec![pair("x-a", "1"), pair("content-type", "text/plain")]);
}

#[test]
fn content_type_in_any_case_is_kept() {
    let head = stream_head(plan("{\"headers\":{\"Content-Type\":\"text/html\"}}"));
    assert_eq!(head.headers, vec![pair("Content-Type", "text/html")]);
}

#[test]
fn null_parts_count_as_absent() {
    let p = plan("{\"status\":null,\"headers\":null,\"request_id\":null}");
    match p {
        Plan::Stream { head, meta } => {
            assert_eq!(head.status, 200);
            assert_eq!(meta, Response::default());
        }
        Plan::Reject { .. } => panic!("null is absent"),
    }
}

#[test]
fn unknown_members_are_passed_over() {
    let head = stream_head(plan("{\"status\":204,\"extra\":[1,2,3]}"));
    assert_eq!(head.status, 204);
}

#[test]
fn request_id_is_read() {
    match plan("{\"request_id\":\"abc\"}") {
        Plan::Stream { meta, .. } => assert_eq!(meta.request_id, Some("abc".to_string())),
        Plan::Reject { .. } => panic!("the descriptor is well formed"),
    }
}

#[test]
fn status_bounds() {
    assert_eq!(stream_head(plan("{\"status\":100}")).status, 100);
    assert_eq!(stream_head(plan("{\"status\":599}")).status, 599);
    let (head, error, message) = rejection(plan("{\"status\":99}"));
    assert_eq!(head.status, 502);
    assert_eq!(head.headers, vec![pair("content-type", "text/plain")]);
    assert_eq!(error, MetaError::StatusOutOfRange);
    assert_eq!(message, "");
    assert_eq!(rejection(plan("{\"status\":600}")).1, MetaError::StatusOutOfRange);
    assert_eq!(rejection(plan("{\"status\":0}")).1, MetaError::StatusOutOfRange);
    assert_eq!(rejection(plan("{\"status\":65535}")).1, MetaError::StatusOutOfRange);
}

#[test]
fn status_that_is_no_small_integer() {
    assert_eq!(rejection(plan("{\"status\":65536}")).1, MetaError::BadStatus);
    assert_eq!(rejection(plan("{\"status\":-1}")).1, MetaError::BadStatus);
    assert_eq!(rejection(plan("{\"status\":200.5}")).1, MetaError::BadStatus);
    assert_eq!(rejection(plan("{\"status\":\"200\"}")).1, MetaError::BadStatus);
    assert_eq!(rejection(plan("{\"status\":true}")).1, MetaError::BadStatus);
    assert_eq!(rejection(plan("{\"status\":18446744073709551616}")).1, MetaError::BadStatus);
}

#[test]
fn malformed_descriptor_is_rejected_with_the_readers_message() {
    let (head, error, message) = rejection(plan("{\"status\":"));
    assert_eq!(head, bad_gateway());
    assert_eq!(head.status, 502);
    assert_eq!(error, MetaError::Malformed);
    assert!(message.contains("EOF"), "message: {}", message);
    assert_eq!(rejection(plan("not json")).1, MetaError::Malformed);
    assert_eq!(rejection(plan("{} {}")).1, MetaError::Malformed);
    assert_eq!(rejection(plan(" ")).1, MetaError::Malformed);
}

#[test]
fn descriptor_that_is_no_object() {
    assert_eq!(rejection(plan("[404]")).1, MetaError::NotAnObject);
    assert_eq!(rejection(plan("404")).1, MetaError::NotAnObject);
    assert_eq!(rejection(plan("null")).1, MetaError::NotAnObject);
    assert_eq!(rejection(plan("\"x\"")).1, MetaError::NotAnObject);
}

#[test]
fn headers_that_are_no_object_of_strings() {
    assert_eq!(rejection(plan("{\"headers\":[]}")).1, MetaError::BadHeaders);
    assert_eq!(rejection(plan("{\"headers\":{\"a\":1}}")).1, MetaError::BadHeaders);
    assert_eq!(rejection(plan("{\"headers\":{\"a\":[\"b\"]}}")).1, MetaError::BadHeaders);
    assert_eq!(rejection(plan("{\"headers\":\"a\"}")).1, MetaError::BadHeaders);
}

#[test]
fn request_id_that_is_no_string() {
    assert_eq!(rejection(plan("{\"request_id\":7}")).1, MetaError::BadRequestId);
}

#[test]
fn first_wrong_part_gives_the_error() {
    assert_eq!(
        rejection(plan("{\"request_id\":7,\"headers\":[],\"status\":\"x\"}")).1,
        MetaError::BadStatus
    );
    assert_eq!(rejection(plan("{\"request_id\":7,\"headers\":[]}")).1, MetaError::BadHeaders);
    assert_eq!(
        rejection(plan("{\"status\":700,\"headers\":{\"bad name\":\"v\"}}")).1,
        MetaError::StatusOutOfRange
    );
}

#[test]
fn headers_that_http_cannot_carry() {
    assert_eq!(rejection(plan("{\"headers\":{\"bad name\":\"v\"}}")).1, MetaError::InvalidHeader);
    assert_eq!(rejection(plan("{\"headers\":{\"\":\"v\"}}")).1, MetaError::InvalidHeader);
    assert_eq!(rejection(plan("{\"headers\":{\"a\":\"x\\ny\"}}")).1, MetaError::InvalidHeader);
    assert_eq!(rejection(plan("{\"headers\":{\"caf\u{e9}\":\"v\"}}")).1, MetaError::InvalidHeader);
    let head = stream_head(plan("{\"headers\":{\"x-a\":\"caf\u{e9}\\tau lait\"}}"));
    assert_eq!(head.headers[0], pair("x-a", "caf\u{e9}\tau lait"));
}

#[test]
fn plan_parsed_takes_the_readers_result() {
    let j = Json::Object(vec![
        ("status".to_string(), Json::Natural(404)),
        (
            "headers".to_string(),
            Json::Object(vec![("content-type".to_string(), Json::Text("text/markdown".to_string()))]),
        ),
    ]);
    let head = stream_head(plan_parsed(Ok(j)));
    assert_eq!(head.status, 404);
    assert_eq!(head.headers, vec![pair("content-type", "text/markdown")]);
    let (head, error, message) = rejection(plan_parsed(Err("boom".to_string())));
    assert_eq!(head.status, 502);
    assert_eq!(error, MetaError::Malformed);
    assert_eq!(message, "boom");
}

#[test]
fn last_member_of_a_key_counts() {
    let j = Json::Object(vec![
        ("status".to_string(), Json::Natural(404)),
        ("status".to_string(), Json::Natural(410)),
    ]);
    assert_eq!(Response::from_json(&j).unwrap().status, Some(410));
    assert_eq!(stream_head(plan("{\"status\":404,\"status\":410}")).status, 410);
}

#[test]
fn status_as_a_signed_number() {
    let j = Json::Object(vec![("status".to_string(), Json::Negative(301))]);
    assert_eq!(Response::from_json(&j).unwrap().status, Some(301));
    let j = Json::Object(vec![("status".to_string(), Json::Negative(-301))]);
    assert_eq!(Response::from_json(&j), Err(MetaError::BadStatus));
    let j = Json::Object(vec![("status".to_string(), Json::Fraction)]);
    assert_eq!(Response::from_json(&j), Err(MetaError::BadStatus));
}

#[test]
fn response_json_round_trip() {
    let meta = Response {
        status: Some(404),
        headers: Some(vec![pair("content-type", "text/markdown"), pair("x-b", "2")]),
        request_id: Some("id".to_string()),
    };
    let j = meta.to_json();
    assert_eq!(
        j,
        Json::Object(vec![
            ("status".to_string(), Json::Natural(404)),
            (
                "headers".to_string(),
                Json::Object(vec![
                    ("content-type".to_string(), Json::Text("text/markdown".to_string())),
                    ("x-b".to_string(), Json::Text("2".to_string())),
                ])
            ),
            ("request_id".to_string(), Json::Text("id".to_string())),
        ])
    );
    assert_eq!(Response::from_json(&j), Ok(meta.duplicate()));
    let none = Response::default();
    assert_eq!(none.to_json(), Json::Object(vec![]));
    assert_eq!(Response::from_json(&none.to_json()), Ok(none));
}

#[test]
fn head_for_a_descriptor() {
    let meta = Response { status: Some(301), headers: Some(vec![pair("Location", "/x")]), request_id: None };
    let head = head_for(&meta).unwrap();
    assert_eq!(head.status, 301);
    assert_eq!(head.headers, vec![pair("Location", "/x"), pair("content-type", "text/plain")]);
    let meta = Response { status: Some(1000), headers: None, request_id: None };
    assert_eq!(head_for(&meta), Err(MetaError::StatusOutOfRange));
}

#[test]
fn content_type_is_found_whatever_the_case() {
    assert!(find_content_type(&vec![pair("a", "b"), pair("CONTENT-TYPE", "x")]));
    assert!(find_content_type(&vec![pair("content-type", "x")]));
    assert!(!find_content_type(&vec![pair("content-typ", "x"), pair("content-type2", "x")]));
    assert!(!find_content_type(&vec![]));
}

fn name_char(c: char) -> bool {
    c.is_ascii_alphanumeric() || "!\"#$%&'*+-.^_`|~".contains(c)
}

fn value_char(c: char) -> bool {
    (c >= ' ' && c != '\u{7f}') || c == '\t'
}

#[test]
fn every_character_in_a_header_name() {
    let mut c = '\0';
    loop {
        let name = format!("a{}", c);
        assert_eq!(check_headers(&vec![(name, String::new())]), name_char(c), "{:?}", c);
        if c as u32 > 0x3000 {
            break;
        }
        c = char::from_u32(c as u32 + 1).unwrap();
    }
    assert!(!check_headers(&vec![pair("\u{10ffff}", "")]));
}

#[test]
fn every_character_in_a_header_value() {
    let mut c = '\0';
    loop {
        let value = format!("a{}", c);
        assert_eq!(check_headers(&vec![("a".to_string(), value)]), value_char(c), "{:?}", c);
        if c as u32 > 0x3000 {
            break;
        }
        c = char::from_u32(c as u32 + 1).unwrap();
    }
    assert!(check_headers(&vec![pair("a", "\u{10ffff}")]));
    assert!(check_headers(&vec![pair("a", "")]));
}

#[test]
fn length_of_a_header_name() {
    assert!(!check_headers(&vec![pair("", "v")]));
    assert!(check_headers(&vec![pair("a", "v")]));
    assert!(check_headers(&vec![("a".repeat(64), String::new())]));
    assert!(check_headers(&vec![("a".repeat(65), String::new())]));
    assert!(check_headers(&vec![("a".repeat(65535), String::new())]));
    assert!(!check_headers(&vec![("a".repeat(65536), String::new())]));
    assert!(check_headers(&vec![]));
    assert!(!check_headers(&vec![pair("a", "v"), pair("b c", "v")]));
}

#[test]
fn a_descriptor_longer_than_the_limit_is_rejected() {
    let text = "{\"status\":404}";
    assert_eq!(stream_head(plan_within(text, text.len())).status, 404);
    assert_eq!(stream_head(plan_within(text, META_LIMIT)).status, 404);
    let (head, error, message) = rejection(plan_within(text, text.len() - 1));
    assert_eq!(head, bad_gateway());
    assert_eq!(error, MetaError::TooLong);
    assert_eq!(message, "");
    assert_eq!(rejection(plan_within("\u{e9}", 1)).1, MetaError::TooLong);
    assert_eq!(rejection(plan_within("\u{e9}", 2)).1, MetaError::Malformed);
    assert_eq!(stream_head(plan_within("", 0)).status, 200);
    assert_eq!(META_LIMIT, 1 << 20);
}
