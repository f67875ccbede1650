use httpie::errors::HttpError;
use httpie::kv::{parse_kv_pair, KvPair};
use httpie::urlcheck::parse_url;

#[test]
fn parse_url_works() {
    assert!(parse_url("abc").is_err());
    assert!(parse_url("http://abc.xyz").is_ok());
    assert!(parse_url("https://httpbin.org/post").is_ok());
}

#[test]
fn parse_kv_pair_works() {
    assert!(parse_kv_pair("a").is_err());
    assert_eq!(
        parse_kv_pair("a=1").unwrap(),
        KvPair {
            key: "a".into(),
            value: "1".into()
        }
    );
    assert_eq!(
        parse_kv_pair("b=").unwrap(),
        KvPair {
            key: "b".into(),
            value: "".into()
        }
    );
}

#[test]
fn parse_url_returns_the_input_unchanged() {
    assert_eq!(parse_url("http://abc.xyz").unwrap(), "http://abc.xyz");
    assert_eq!(
        parse_url("HTTPS://Example.COM/Path?q=1").unwrap(),
        "HTTPS://Example.COM/Path?q=1"
    );
}

#[test]
fn parse_url_reports_invalid_url() {
    assert!(matches!(parse_url("not a url"), Err(HttpError::InvalidUrl)));
    assert!(matches!(parse_url(""), Err(HttpError::InvalidUrl)));
}

#[test]
fn parse_kv_pair_takes_the_first_two_segments() {
    assert_eq!(
        parse_kv_pair("a=b=c").unwrap(),
        KvPair {
            key: "a".into(),
            value: "b".into()
        }
    );
    assert_eq!(
        parse_kv_pair("a==").unwrap(),
        KvPair {
            key: "a".into(),
            value: "".into()
        }
    );
}

#[test]
fn parse_kv_pair_rejects_an_empty_key() {
    assert!(matches!(parse_kv_pair("=x"), Err(HttpError::InvalidPair)));
    assert!(matches!(parse_kv_pair("="), Err(HttpError::InvalidPair)));
    assert!(matches!(parse_kv_pair(""), Err(HttpError::InvalidPair)));
}

#[test]
fn error_messages_name_the_failure() {
    assert_eq!(HttpError::InvalidUrl.message(), "invalid URL");
    assert_eq!(HttpError::InvalidPair.message(), "invalid key=value pair");
    assert_eq!(HttpError::ArgumentError.message(), "bad arguments");
    assert_eq!(HttpError::RenderError.message(), "cannot render response body");
    assert_eq!(
        HttpError::RequestFailed("timed out".into()).message(),
        "request failed: timed out"
    );
}
