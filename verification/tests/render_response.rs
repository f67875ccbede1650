use httpie::errors::HttpError;
use httpie::render::{classify_content_type, render_response, BodyClass, RenderableResponse};

fn response(content_type: Option<&str>, body: &str) -> RenderableResponse {
    let mut headers: Vec<(String, String)> = vec![("server".to_string(), "\"demo\"".to_string())];
    if let Some(ct) = content_type {
        headers.push(("content-type".to_string(), format!("{:?}", ct)));
    }
    RenderableResponse {
        version: "HTTP/1.1".to_string(),
        status: "200 OK".to_string(),
        headers,
        content_type: content_type.map(|c| c.to_string()),
        body: body.to_string(),
    }
}

#[test]
fn content_types_dispatch_by_exact_match() {
    assert_eq!(classify_content_type("application/json"), BodyClass::Json);
    assert_eq!(classify_content_type("text/html"), BodyClass::Html);
    assert_eq!(
        classify_content_type("text/html; charset=utf-8"),
        BodyClass::Html
    );
    assert_eq!(classify_content_type("text/css"), BodyClass::Css);
    assert_eq!(
        classify_content_type("text/css; charset=utf-8"),
        BodyClass::Css
    );
    assert_eq!(
        classify_content_type("application/javascript"),
        BodyClass::Javascript
    );
    assert_eq!(classify_content_type("text/plain"), BodyClass::Raw);
    assert_eq!(
        classify_content_type("application/json; charset=utf-8"),
        BodyClass::Raw
    );
}

#[test]
fn content_type_match_is_case_insensitive() {
    assert_eq!(classify_content_type("Application/JSON"), BodyClass::Json);
    assert_eq!(
        classify_content_type("TEXT/HTML;charset=UTF-8"),
        BodyClass::Html
    );
}

/// Drops the terminal colour escapes (`ESC [ ... m`) from a rendering.
fn strip_ansi(s: &str) -> String {
    let mut out = String::new();
    let mut in_escape = false;
    for c in s.chars() {
        if in_escape {
            if c == 'm' {
                in_escape = false;
            }
        } else if c == '\u{1b}' {
            in_escape = true;
        } else {
            out.push(c);
        }
    }
    out
}

#[test]
fn json_response_is_highlighted() {
    let r = render_response(&response(Some("application/json"), "{\"x\":1}")).unwrap();
    let prefix = "[status]\nHTTP/1.1 200 OK\n[headers]\nserver: \"demo\"\ncontent-type: \"application/json\"\n[body]\n";
    assert!(r.starts_with(prefix));
    let rest = &r[prefix.len()..];
    assert!(rest.contains('\u{1b}'));
    assert_ne!(rest, "{\"x\":1}\n");
    assert_eq!(strip_ansi(rest), "{\"x\":1}");
}

#[test]
fn html_response_is_highlighted() {
    let r = render_response(&response(
        Some("text/html; charset=utf-8"),
        "<p>hello</p>",
    ))
    .unwrap();
    assert!(r.contains("[body]\n"));
    assert!(r.contains('\u{1b}'));
}

#[test]
fn missing_content_type_prints_the_raw_body() {
    let r = render_response(&response(None, "plain text body")).unwrap();
    assert_eq!(
        r,
        "[status]\nHTTP/1.1 200 OK\n[headers]\nserver: \"demo\"\n[body]\nplain text body\n"
    );
}

#[test]
fn unknown_content_type_prints_the_raw_body() {
    let r = render_response(&response(Some("text/plain"), "just text")).unwrap();
    assert!(r.ends_with("[body]\njust text\n"));
    assert!(!r.contains('\u{1b}'));
}

#[test]
fn headers_keep_the_order_received() {
    let r = render_response(&RenderableResponse {
        version: "HTTP/2.0".to_string(),
        status: "404 Not Found".to_string(),
        headers: vec![
            ("b".to_string(), "\"2\"".to_string()),
            ("a".to_string(), "\"1\"".to_string()),
            ("b".to_string(), "\"3\"".to_string()),
        ],
        content_type: None,
        body: "missing".to_string(),
    })
    .unwrap();
    assert_eq!(
        r,
        "[status]\nHTTP/2.0 404 Not Found\n[headers]\nb: \"2\"\na: \"1\"\nb: \"3\"\n[body]\nmissing\n"
    );
}

#[test]
fn unparseable_content_type_is_a_render_error() {
    let r = render_response(&response(Some("nonsense"), "body"));
    assert!(matches!(r, Err(HttpError::RenderError)));
}

#[test]
fn javascript_without_a_known_syntax_is_a_render_error() {
    // the bundled default syntaxes carry no "javascript" file extension,
    // so this dispatch target cannot be highlighted
    let r = render_response(&response(Some("application/javascript"), "var x = 1;"));
    assert!(matches!(r, Err(HttpError::RenderError)));
}
