use http_sh::headers::group_headers;
use http_sh::json::Json;
use http_sh::query::{collapse, parse_query};
use http_sh::request::{first_host, Proto, Remote, RequestHead};
use http_sh::text::{same_ignoring_case, starts_with_char};
use http_sh::{Request, Response};

fn pair(name: &str, value: &str) -> (String, String) {
    (name.to_string(), value.to_string())
}

fn group(name: &str, values: &[&str]) -> (String, Vec<String>) {
    (name.to_string(), values.iter().map(|v| v.to_string()).collect())
}

fn get(uri: &str, authority: Option<&str>, path: &str, query: Option<&str>) -> RequestHead {
    RequestHead {
        proto: Proto::Http11,
        method: "GET".to_string(),
        uri: uri.to_string(),
        authority: authority.map(|a| a.to_string()),
        path: path.to_string(),
        query: query.map(|q| q.to_string()),
        headers: vec![],
    }
}

#[test]
fn query_repeats_overwrite() {
    assert_eq!(parse_query("a=1&b=2&a=3"), vec![pair("a", "3"), pair("b", "2")]);
    assert_eq!(parse_query("z=1&y=2&x=3"), vec![pair("z", "1"), pair("y", "2"), pair("x", "3")]);
    assert_eq!(parse_query(""), Vec::<(String, String)>::new());
    assert_eq!(parse_query("a"), vec![pair("a", "")]);
    assert_eq!(parse_query("a=&a"), vec![pair("a", "")]);
    assert_eq!(parse_query("&&a=1&&"), vec![pair("a", "1")]);
}

#[test]
fn query_is_form_decoded() {
    assert_eq!(parse_query("%23first=%25try%25"), vec![pair("#first", "%try%")]);
    assert_eq!(parse_query("q=a+b%20c"), vec![pair("q", "a b c")]);
    assert_eq!(parse_query("a=b=c"), vec![pair("a", "b=c")]);
    assert_eq!(parse_query("k=%ff"), vec![pair("k", "\u{fffd}")]);
    assert_eq!(parse_query("a%3D=1&a==2"), vec![pair("a=", "1"), pair("a", "=2")]);
}

#[test]
fn collapse_keeps_first_place_and_last_value() {
    let pairs = vec![pair("b", "1"), pair("a", "2"), pair("b", "3"), pair("c", "4"), pair("a", "5")];
    assert_eq!(collapse(pairs), vec![pair("b", "3"), pair("a", "5"), pair("c", "4")]);
    assert_eq!(collapse(vec![]), Vec::<(String, String)>::new());
}

#[test]
fn headers_are_grouped_under_lower_case_names() {
    let headers = vec![
        pair("Accept", "text/html"),
        pair("X-Tag", "one"),
        pair("accept", "text/plain"),
        pair("HOST", "example.org"),
        pair("x-tag", "two"),
        pair("X-TAG", "three"),
    ];
    assert_eq!(
        group_headers(&headers),
        vec![
            group("accept", &["text/html", "text/plain"]),
            group("x-tag", &["one", "two", "three"]),
            group("host", &["example.org"]),
        ]
    );
    assert_eq!(group_headers(&vec![]), Vec::<(String, Vec<String>)>::new());
}

#[test]
fn only_ascii_letters_change_case() {
    let mut c = '\0';
    loop {
        let lowered = if c.is_ascii_uppercase() { (c as u8 + 32) as char } else { c };
        let groups = group_headers(&vec![(format!("{}", c), String::new())]);
        assert_eq!(groups[0].0, format!("{}", lowered), "{:?}", c);
        if c as u32 > 0x3000 {
            break;
        }
        c = char::from_u32(c as u32 + 1).unwrap();
    }
    assert!(same_ignoring_case("Content-Type", "cONTENT-tYPE"));
    assert!(!same_ignoring_case("Content-Type", "Content_Type"));
    assert!(!same_ignoring_case("\u{c9}", "\u{e9}"));
    assert!(same_ignoring_case("", ""));
}

#[test]
fn first_character() {
    assert!(starts_with_char("/a", '/'));
    assert!(!starts_with_char("a/", '/'));
    assert!(!starts_with_char("", '/'));
    assert!(starts_with_char("\u{e9}a", '\u{e9}'));
}

#[test]
fn host_is_the_first_value_of_the_header() {
    assert_eq!(first_host(&vec![group("a", &["b"]), group("host", &["x:1", "y:2"])]), Some("x:1".to_string()));
    assert_eq!(first_host(&vec![group("a", &["b"])]), None);
    assert_eq!(first_host(&vec![group("host", &[])]), None);
    assert_eq!(first_host(&vec![group("host", &["a"]), group("host", &["b"])]), Some("b".to_string()));
}

#[test]
fn authority_prefers_the_uri() {
    let mut head = get("https://api.cross.stream/", Some("api.cross.stream"), "/", None);
    head.headers = vec![pair("Host", "other.example")];
    let r = Request::describe(&head, None, "s".to_string());
    assert_eq!(r.authority, Some("api.cross.stream".to_string()));
}

#[test]
fn authority_falls_back_to_the_host_header() {
    let mut head = get("/", None, "/", None);
    head.headers = vec![pair("Accept", "*/*"), pair("Host", "localhost:5555"), pair("host", "second")];
    let r = Request::describe(&head, None, "s".to_string());
    assert_eq!(r.authority, Some("localhost:5555".to_string()));
}

#[test]
fn authority_may_be_absent() {
    let mut head = get("/", None, "/", None);
    head.headers = vec![pair("Accept", "*/*")];
    let r = Request::describe(&head, None, "s".to_string());
    assert_eq!(r.authority, None);
}

#[test]
fn descriptor_of_a_get() {
    let head = get("https://api.cross.stream/", Some("api.cross.stream"), "/", None);
    let r = Request::describe(&head, None, "0372hg16csmsm50l8dikcvukc".to_string());
    assert_eq!(
        r,
        Request {
            stamp: "0372hg16csmsm50l8dikcvukc".to_string(),
            proto: "HTTP/1.1".to_string(),
            method: "GET".to_string(),
            authority: Some("api.cross.stream".to_string()),
            remote_ip: None,
            remote_port: None,
            headers: vec![],
            uri: "https://api.cross.stream/".to_string(),
            path: "/".to_string(),
            query: vec![],
            response: None,
        }
    );
    assert_eq!(
        r.child_line(),
        "{\"authority\":\"api.cross.stream\",\"headers\":{},\"method\":\"GET\",\"path\":\"/\",\
         \"proto\":\"HTTP/1.1\",\"query\":{},\"stamp\":\"0372hg16csmsm50l8dikcvukc\",\
         \"uri\":\"https://api.cross.stream/\"}\n"
    );
}

#[test]
fn descriptor_of_a_post() {
    let head = RequestHead {
        proto: Proto::Http2,
        method: "POST".to_string(),
        uri: "https://api.cross.stream/".to_string(),
        authority: Some("api.cross.stream".to_string()),
        path: "/".to_string(),
        query: None,
        headers: vec![pair("Last-Event-ID", "5")],
    };
    let remote = Remote { ip: "127.0.0.1".to_string(), port: 40000 };
    let r = Request::describe(&head, Some(&remote), "s".to_string());
    assert_eq!(r.method, "POST");
    assert_eq!(r.proto, "HTTP/2.0");
    assert_eq!(r.headers, vec![group("last-event-id", &["5"])]);
    assert_eq!(r.remote_ip, Some("127.0.0.1".to_string()));
    assert_eq!(r.remote_port, Some(40000));
    assert_eq!(
        r.child_line(),
        "{\"authority\":\"api.cross.stream\",\"headers\":{\"last-event-id\":[\"5\"]},\
         \"method\":\"POST\",\"path\":\"/\",\"proto\":\"HTTP/2.0\",\"query\":{},\
         \"remote_ip\":\"127.0.0.1\",\"remote_port\":40000,\"stamp\":\"s\",\
         \"uri\":\"https://api.cross.stream/\"}\n"
    );
}

#[test]
fn descriptor_carries_the_path_for_the_child() {
    let head = get("https://api.cross.stream/notfound?x=1&x=2", Some("api.cross.stream"), "/notfound", Some("x=1&x=2"));
    let r = Request::describe(&head, None, "s".to_string());
    assert_eq!(r.path, "/notfound");
    assert_eq!(r.query, vec![pair("x", "2")]);
    let line = r.child_line();
    let read: serde_json::Value = serde_json::from_str(&line).unwrap();
    assert_eq!(read.get("path").and_then(|p| p.as_str()), Some("/notfound"));
    assert_eq!(read.get("query").and_then(|q| q.get("x")).and_then(|x| x.as_str()), Some("2"));
    assert!(read.get("response").is_none());
}

#[test]
fn proto_texts() {
    assert_eq!(Proto::Http10.text(), "HTTP/1.0");
    assert_eq!(Proto::Http11.text(), "HTTP/1.1");
    assert_eq!(Proto::Http2.text(), "HTTP/2.0");
}

#[test]
fn a_new_request_gets_a_stamp() {
    let head = get("/", None, "/", None);
    let a = Request::new(&head, None);
    let b = Request::new(&head, None);
    for r in [&a, &b] {
        assert_eq!(r.stamp.chars().count(), 25);
        assert!(r.stamp.chars().all(|c| c.is_ascii_digit() || c.is_ascii_lowercase()));
    }
    assert!(a.stamp < b.stamp);
    assert_eq!(a.path, "/");
    assert_eq!(a.response, None);
}

#[test]
fn the_child_is_not_sent_the_response() {
    let head = get("/", None, "/", None);
    let r = Request::describe(&head, None, "s".to_string()).with_response(Response {
        status: Some(404),
        headers: None,
        request_id: None,
    });
    assert!(!r.child_line().contains("response"));
    assert_eq!(
        r.log_line(),
        "{\"headers\":{},\"method\":\"GET\",\"path\":\"/\",\"proto\":\"HTTP/1.1\",\"query\":{},\
         \"response\":{\"status\":404},\"stamp\":\"s\",\"uri\":\"/\"}\n"
    );
}

#[test]
fn a_line_is_one_line() {
    let mut head = get("/a\nb", None, "/a\nb", Some("k=%0A"));
    head.headers = vec![pair("x\ny", "v\r\nw")];
    let r = Request::describe(&head, None, "s\n".to_string());
    let line = r.child_line();
    assert_eq!(line.matches('\n').count(), 1);
    assert!(line.ends_with('\n'));
    assert_eq!(Request::read(&line), Some(r));
}

fn full() -> Request {
    Request {
        stamp: "0372hg16csmsm50l8dikcvukc".to_string(),
        proto: "HTTP/1.1".to_string(),
        method: "POST".to_string(),
        authority: Some("localhost:5555".to_string()),
        remote_ip: Some("::1".to_string()),
        remote_port: Some(65535),
        headers: vec![group("accept", &["a", "b"]), group("host", &["localhost:5555"])],
        uri: "http://localhost:5555/p?q=1".to_string(),
        path: "/p".to_string(),
        query: vec![pair("q", "1"), pair("r", "\u{e9} \"quoted\" \\ \u{1}")],
        response: Some(Response {
            status: Some(200),
            headers: Some(vec![pair("content-type", "text/plain")]),
            request_id: Some("id".to_string()),
        }),
    }
}

#[test]
fn round_trip_through_json() {
    let r = full();
    assert_eq!(Request::from_json(&r.to_json(true)), Some(r.duplicate()));
    let mut bare = r.duplicate();
    bare.response = None;
    assert_eq!(Request::from_json(&r.to_json(false)), Some(bare));
}

#[test]
fn round_trip_through_text() {
    let r = full();
    assert_eq!(Request::read(&r.log_line()), Some(r.duplicate()));
    let mut bare = r.duplicate();
    bare.response = None;
    assert_eq!(Request::read(&r.child_line()), Some(bare));
}

#[test]
fn round_trip_through_text_keeps_the_maps() {
    let mut r = full();
    r.query = vec![pair("z", "1"), pair("a", "2")];
    r.headers = vec![group("x-b", &["2", "1"]), group("accept", &["a"])];
    let read = Request::read(&r.log_line()).unwrap();
    assert_eq!(read.query, vec![pair("a", "2"), pair("z", "1")]);
    assert_eq!(read.headers, vec![group("accept", &["a"]), group("x-b", &["2", "1"])]);
    assert_eq!((read.method, read.path, read.uri), (r.method, r.path, r.uri));
}

#[test]
fn reading_a_descriptor_needs_its_parts() {
    assert_eq!(Request::read("not json"), None);
    assert_eq!(Request::read("[]"), None);
    assert_eq!(Request::read("{}"), None);
    let line = full().log_line();
    for key in ["stamp", "proto", "method", "headers", "uri", "path", "query"] {
        let mut v: serde_json::Value = serde_json::from_str(&line).unwrap();
        v.as_object_mut().unwrap().remove(key);
        assert_eq!(Request::read(&v.to_string()), None, "{}", key);
    }
    for key in ["authority", "remote_ip", "remote_port", "response"] {
        let mut v: serde_json::Value = serde_json::from_str(&line).unwrap();
        v.as_object_mut().unwrap().remove(key);
        assert!(Request::read(&v.to_string()).is_some(), "{}", key);
        v.as_object_mut().unwrap().insert(key.to_string(), serde_json::Value::Null);
        assert!(Request::read(&v.to_string()).is_some(), "{}", key);
        v.as_object_mut().unwrap().insert(key.to_string(), serde_json::Value::Bool(true));
        assert_eq!(Request::read(&v.to_string()), None, "{}", key);
    }
}

#[test]
fn reading_a_descriptor_checks_the_kinds() {
    let good = full().to_json(true);
    let members = match good {
        Json::Object(members) => members,
        _ => panic!("a descriptor is written as an object"),
    };
    let with = |key: &str, value: Json| {
        let mut changed: Vec<(String, Json)> = Vec::new();
        for (k, v) in members.iter() {
            if k != key {
                changed.push((k.clone(), copy(v)));
            }
        }
        changed.push((key.to_string(), value));
        Json::Object(changed)
    };
    assert!(Request::from_json(&with("uri", Json::Text("/".to_string()))).is_some());
    assert_eq!(Request::from_json(&with("uri", Json::Natural(1))), None);
    assert_eq!(Request::from_json(&with("remote_port", Json::Natural(65536))), None);
    assert_eq!(Request::from_json(&with("remote_port", Json::Negative(-1))), None);
    assert_eq!(Request::from_json(&with("remote_port", Json::Fraction)), None);
    assert!(Request::from_json(&with("remote_port", Json::Natural(0))).is_some());
    assert_eq!(Request::from_json(&with("headers", Json::Object(vec![("a".to_string(), Json::Text("b".to_string()))]))), None);
    assert_eq!(
        Request::from_json(&with("headers", Json::Object(vec![("a".to_string(), Json::List(vec![Json::Null]))]))),
        None
    );
    assert_eq!(Request::from_json(&with("query", Json::List(vec![]))), None);
    assert_eq!(Request::from_json(&with("query", Json::Object(vec![("a".to_string(), Json::Null)]))), None);
    assert_eq!(Request::from_json(&with("response", Json::Object(vec![("status".to_string(), Json::Text("x".to_string()))]))), None);
    assert_eq!(Request::from_json(&with("response", Json::List(vec![]))), None);
}

fn copy(j: &Json) -> Json {
    match j {
        Json::Null => Json::Null,
        Json::Bool(b) => Json::Bool(*b),
        Json::Natural(n) => Json::Natural(*n),
        Json::Negative(n) => Json::Negative(*n),
        Json::Fraction => Json::Fraction,
        Json::Text(t) => Json::Text(t.clone()),
        Json::List(items) => Json::List(items.iter().map(copy).collect()),
        Json::Object(members) => Json::Object(members.iter().map(|(k, v)| (k.clone(), copy(v))).collect()),
    }
}

#[test]
fn field_finds_the_last_member() {
    let obj = Json::Object(vec![
        ("a".to_string(), Json::Natural(1)),
        ("b".to_string(), Json::Null),
        ("a".to_string(), Json::Natural(2)),
    ]);
    assert_eq!(obj.field("a"), Some(&Json::Natural(2)));
    assert_eq!(obj.field("b"), Some(&Json::Null));
    assert_eq!(obj.field("c"), None);
    assert_eq!(Json::Null.field("a"), None);
    assert_eq!(obj.u16_at("a"), Some(Some(2)));
    assert_eq!(obj.u16_at("b"), Some(None));
    assert_eq!(obj.u16_at("c"), Some(None));
    assert_eq!(obj.text_at("a"), None);
    assert_eq!(obj.text_at("b"), Some(None));
    assert_eq!(obj.text_needed("b"), None);
    assert_eq!(obj.text_needed("c"), None);
}

#[test]
fn numbers_are_read_by_their_kind() {
    let r = Request::read(
        "{\"stamp\":\"s\",\"proto\":\"p\",\"method\":\"m\",\"headers\":{},\"uri\":\"u\",\
         \"path\":\"/\",\"query\":{},\"remote_port\":8080}",
    )
    .unwrap();
    assert_eq!(r.remote_port, Some(8080));
    for bad in ["-1", "1.5", "1e2", "65536", "\"80\""] {
        let text = format!(
            "{{\"stamp\":\"s\",\"proto\":\"p\",\"method\":\"m\",\"headers\":{{}},\"uri\":\"u\",\
             \"path\":\"/\",\"query\":{{}},\"remote_port\":{}}}",
            bad
        );
        assert_eq!(Request::read(&text), None, "{}", bad);
    }
}

#[test]
fn log_line_names_protocol_and_authority() {
    let mut head = get("/", None, "/", None);
    head.headers = vec![pair("Host", "localhost:5555"), pair("User-Agent", "curl"), pair("Accept", "*/*")];
    let sent = Request::describe(&head, None, "s".to_string());
    let log = Request::read(&sent.with_response(Response::default()).log_line()).unwrap();
    assert_eq!(log.proto, "HTTP/1.1");
    assert_eq!(log.authority, Some("localhost:5555".to_string()));
    assert_eq!(log.remote_ip, None);
    assert_eq!(log.remote_port, None);
    assert_eq!(log.response, Some(Response::default()));

    let mut head = get("http://localhost:5555/", Some("localhost:5555"), "/", None);
    head.proto = Proto::Http2;
    head.headers = vec![pair("user-agent", "curl"), pair("accept", "*/*")];
    let sent = Request::describe(&head, None, "s".to_string());
    let log = Request::read(&sent.with_response(Response::default()).log_line()).unwrap();
    assert_eq!(log.proto, "HTTP/2.0");
    assert_eq!(log.authority, Some("localhost:5555".to_string()));
}

#[test]
fn the_descriptor_is_the_same_over_tcp_but_for_the_peer() {
    let mut head = get("/", None, "/", None);
    head.headers = vec![pair("Host", "localhost:5555")];
    let unix = Request::describe(&head, None, "s".to_string());
    let remote = Remote { ip: "127.0.0.1".to_string(), port: 51234 };
    let mut tcp = Request::describe(&head, Some(&remote), "s".to_string());
    assert_eq!(tcp.remote_ip, Some("127.0.0.1".to_string()));
    assert_eq!(tcp.remote_port, Some(51234));
    tcp.remote_ip = None;
    tcp.remote_port = None;
    assert_eq!(tcp, unix);
}
