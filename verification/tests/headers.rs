use axum_tracing_opentelemetry::headers::header_text;
use http::header::{HeaderMap, HeaderName, HeaderValue, HOST, USER_AGENT};

#[test]
fn header_text_of_a_missing_header() {
    let headers = HeaderMap::new();
    assert_eq!(header_text(&headers, "host"), None);
    assert_eq!(header_text(&headers, "user-agent"), None);
}

#[test]
fn header_text_of_a_present_header() {
    let mut headers = HeaderMap::new();
    headers.insert(HOST, HeaderValue::from_static("example.org"));
    headers.insert(USER_AGENT, HeaderValue::from_static("tests"));
    assert_eq!(header_text(&headers, "host"), Some("example.org"));
    assert_eq!(header_text(&headers, "user-agent"), Some("tests"));
    assert_eq!(header_text(&headers, "accept"), None);
}

#[test]
fn header_text_ignores_the_case_of_the_name() {
    let mut headers = HeaderMap::new();
    headers.insert(
        HeaderName::from_bytes(b"X-Forwarded-For").unwrap(),
        HeaderValue::from_static("203.0.113.5"),
    );
    assert_eq!(header_text(&headers, "x-forwarded-for"), Some("203.0.113.5"));
    assert_eq!(header_text(&headers, "X-Forwarded-For"), Some("203.0.113.5"));
    assert_eq!(header_text(&headers, "X-FORWARDED-FOR"), Some("203.0.113.5"));
}

#[test]
fn header_text_is_the_first_of_several_values() {
    let mut headers = HeaderMap::new();
    headers.append(HOST, HeaderValue::from_static("first.example"));
    headers.append(HOST, HeaderValue::from_static("second.example"));
    assert_eq!(header_text(&headers, "host"), Some("first.example"));
}

#[test]
fn header_text_of_an_empty_value_is_empty() {
    let mut headers = HeaderMap::new();
    headers.insert(HOST, HeaderValue::from_static(""));
    assert_eq!(header_text(&headers, "host"), Some(""));
}

#[test]
fn header_text_keeps_spaces_and_tabs() {
    let mut headers = HeaderMap::new();
    headers.insert(USER_AGENT, HeaderValue::from_bytes(b"a b\tc~").unwrap());
    assert_eq!(header_text(&headers, "user-agent"), Some("a b\tc~"));
}

#[test]
fn header_text_refuses_bytes_beyond_ascii() {
    let mut headers = HeaderMap::new();
    headers.insert(HOST, HeaderValue::from_bytes(b"caf\xc3\xa9").unwrap());
    headers.insert(USER_AGENT, HeaderValue::from_bytes(b"\xff\xfe").unwrap());
    assert_eq!(header_text(&headers, "host"), None);
    assert_eq!(header_text(&headers, "user-agent"), None);
}

#[test]
fn header_text_of_a_name_that_is_no_header_name() {
    let mut headers = HeaderMap::new();
    headers.insert(HOST, HeaderValue::from_static("example.org"));
    assert_eq!(header_text(&headers, ""), None);
    assert_eq!(header_text(&headers, "ho st"), None);
    assert_eq!(header_text(&headers, "h\u{f6}st"), None);
    let long = "x".repeat(70_000);
    assert_eq!(header_text(&headers, &long), None);
}

#[test]
fn header_text_finds_long_names() {
    let name = "x-".to_string() + &"a".repeat(80);
    let mut headers = HeaderMap::new();
    headers.insert(
        HeaderName::from_bytes(name.as_bytes()).unwrap(),
        HeaderValue::from_static("long"),
    );
    assert_eq!(header_text(&headers, &name), Some("long"));
    assert_eq!(header_text(&headers, &name.to_uppercase()), Some("long"));
}
