use httpie::body::build_body_pairs;
use httpie::json::encode_json_object;
use httpie::kv::KvPair;
use httpie::request::{build_request, default_headers, HttpMethod, ParsedCommand};

fn pair(k: &str, v: &str) -> KvPair {
    KvPair {
        key: k.into(),
        value: v.into(),
    }
}

#[test]
fn post_body_last_write_wins() {
    let cmd = ParsedCommand::Post {
        url: "http://abc.xyz".into(),
        body: vec![pair("a", "1"), pair("a", "2")],
    };
    let plan = build_request(&cmd);
    assert_eq!(plan.method, HttpMethod::Post);
    assert_eq!(plan.url, "http://abc.xyz");
    assert_eq!(plan.body.as_deref(), Some("{\"a\":\"2\"}"));
}

#[test]
fn get_has_no_body() {
    let cmd = ParsedCommand::Get {
        url: "http://abc.xyz".into(),
    };
    let plan = build_request(&cmd);
    assert_eq!(plan.method, HttpMethod::Get);
    assert_eq!(plan.url, "http://abc.xyz");
    assert!(plan.body.is_none());
}

#[test]
fn put_and_patch_carry_json_bodies() {
    let put = build_request(&ParsedCommand::Put {
        url: "http://abc.xyz".into(),
        body: vec![pair("k", "v")],
    });
    assert_eq!(put.method, HttpMethod::Put);
    assert_eq!(put.body.as_deref(), Some("{\"k\":\"v\"}"));

    let patch = build_request(&ParsedCommand::Patch {
        url: "http://abc.xyz".into(),
        body: vec![],
    });
    assert_eq!(patch.method, HttpMethod::Patch);
    assert_eq!(patch.body.as_deref(), Some("{}"));
}

#[test]
fn duplicate_keys_keep_their_first_position() {
    let out = build_body_pairs(&vec![pair("a", "1"), pair("b", "2"), pair("a", "3")]);
    assert_eq!(out, vec![pair("a", "3"), pair("b", "2")]);
}

#[test]
fn json_escapes_quotes_backslashes_and_controls() {
    let body = encode_json_object(&vec![pair("a", "x\"y\nz"), pair("b\\c", "\u{1}")]);
    assert_eq!(body, "{\"a\":\"x\\\"y\\nz\",\"b\\\\c\":\"\\u0001\"}");
}

#[test]
fn json_escapes_tab_and_carriage_return() {
    let body = encode_json_object(&vec![pair("t", "a\tb\rc")]);
    assert_eq!(body, "{\"t\":\"a\\tb\\rc\"}");
}

#[test]
fn default_headers_mark_the_client() {
    let hs = default_headers();
    assert_eq!(
        hs,
        vec![
            ("X-POWERED-BY".to_string(), "Rust".to_string()),
            ("User-Agent".to_string(), "Rust HTTPIE".to_string()),
        ]
    );
}
