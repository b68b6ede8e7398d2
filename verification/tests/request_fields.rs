use axum_tracing_opentelemetry::request::{
    http_flavor, http_method, http_scheme, parse_x_forwarded_for, HttpMethod, HttpVersion,
    RequestSnapshot, RequestUri,
};
use http::header::{HeaderMap, HeaderName, HeaderValue};

fn headers_of(pairs: &[(&str, &[u8])]) -> HeaderMap {
    let mut map = HeaderMap::new();
    for (name, value) in pairs {
        map.append(
            HeaderName::from_bytes(name.as_bytes()).unwrap(),
            HeaderValue::from_bytes(value).unwrap(),
        );
    }
    map
}

fn uri_of(target: &str) -> RequestUri {
    let path = target.split('?').next().unwrap().to_string();
    RequestUri { scheme: None, path, path_and_query: Some(target.to_string()) }
}

fn snapshot_of<'a>(
    target: &str,
    headers: &'a HeaderMap,
    peer: Option<&str>,
) -> RequestSnapshot<'a> {
    RequestSnapshot {
        method: HttpMethod::Get,
        uri: uri_of(target),
        original_uri: None,
        version: HttpVersion::Http11,
        headers,
        matched_path: None,
        peer_addr: peer.map(|p| p.to_string()),
    }
}

#[test]
fn method_of_each_standard_verb() {
    assert_eq!(http_method(&HttpMethod::Connect), "CONNECT");
    assert_eq!(http_method(&HttpMethod::Delete), "DELETE");
    assert_eq!(http_method(&HttpMethod::Get), "GET");
    assert_eq!(http_method(&HttpMethod::Head), "HEAD");
    assert_eq!(http_method(&HttpMethod::Options), "OPTIONS");
    assert_eq!(http_method(&HttpMethod::Patch), "PATCH");
    assert_eq!(http_method(&HttpMethod::Post), "POST");
    assert_eq!(http_method(&HttpMethod::Put), "PUT");
    assert_eq!(http_method(&HttpMethod::Trace), "TRACE");
}

#[test]
fn method_of_another_verb_is_passed_through() {
    assert_eq!(http_method(&HttpMethod::Other("PROPFIND".to_string())), "PROPFIND");
    assert_eq!(http_method(&HttpMethod::Other("get".to_string())), "get");
    assert_eq!(http_method(&HttpMethod::Other(String::new())), "");
}

#[test]
fn flavor_of_each_known_version() {
    assert_eq!(http_flavor(&HttpVersion::Http09), "0.9");
    assert_eq!(http_flavor(&HttpVersion::Http10), "1.0");
    assert_eq!(http_flavor(&HttpVersion::Http11), "1.1");
    assert_eq!(http_flavor(&HttpVersion::Http2), "2.0");
    assert_eq!(http_flavor(&HttpVersion::Http3), "3.0");
}

#[test]
fn flavor_of_another_version_is_its_description() {
    assert_eq!(http_flavor(&HttpVersion::Other("HTTP/4.0".to_string())), "HTTP/4.0");
}

#[test]
fn scheme_of_the_two_standard_schemes() {
    assert_eq!(http_scheme("http"), "http");
    assert_eq!(http_scheme("https"), "https");
}

#[test]
fn scheme_is_put_in_lower_case() {
    assert_eq!(http_scheme("HTTP"), "http");
    assert_eq!(http_scheme("HTTPS"), "https");
    assert_eq!(http_scheme("HttpS"), "https");
}

#[test]
fn scheme_of_another_kind_is_passed_through() {
    assert_eq!(http_scheme("ftp"), "ftp");
    assert_eq!(http_scheme("WS"), "WS");
    assert_eq!(http_scheme("httpx"), "httpx");
    assert_eq!(http_scheme("htt"), "htt");
    assert_eq!(http_scheme(""), "");
}

#[test]
fn scheme_of_a_request() {
    let headers = headers_of(&[]);
    let mut request = snapshot_of("/", &headers, None);
    assert_eq!(request.scheme(), "HTTP");
    request.uri.scheme = Some("https".to_string());
    assert_eq!(request.scheme(), "https");
    request.uri.scheme = Some("Http".to_string());
    assert_eq!(request.scheme(), "http");
    request.uri.scheme = Some("unix".to_string());
    assert_eq!(request.scheme(), "unix");
}

#[test]
fn scheme_is_that_of_the_current_uri() {
    let headers = headers_of(&[]);
    let mut request = snapshot_of("/", &headers, None);
    request.original_uri = Some(RequestUri {
        scheme: Some("https".to_string()),
        path: "/".to_string(),
        path_and_query: Some("/".to_string()),
    });
    assert_eq!(request.scheme(), "HTTP");
}

#[test]
fn route_of_a_request() {
    let headers = headers_of(&[]);
    let mut request = snapshot_of("/users/123", &headers, None);
    assert_eq!(request.route(), "");
    request.matched_path = Some("/users/:id".to_string());
    assert_eq!(request.route(), "/users/:id");
}

#[test]
fn target_is_path_and_query() {
    let headers = headers_of(&[]);
    let request = snapshot_of("/users/123?full=1", &headers, None);
    assert_eq!(request.target(), "/users/123?full=1");
}

#[test]
fn target_is_the_bare_path_without_path_and_query() {
    let headers = headers_of(&[]);
    let mut request = snapshot_of("/", &headers, None);
    request.uri = RequestUri { scheme: None, path: "".to_string(), path_and_query: None };
    assert_eq!(request.target(), "");
    request.uri = RequestUri { scheme: None, path: "/bare".to_string(), path_and_query: None };
    assert_eq!(request.target(), "/bare");
}

#[test]
fn target_is_that_of_the_original_uri() {
    let headers = headers_of(&[]);
    let mut request = snapshot_of("/123", &headers, None);
    request.original_uri = Some(uri_of("/nest/123?x=y"));
    assert_eq!(request.target(), "/nest/123?x=y");
    request.original_uri =
        Some(RequestUri { scheme: None, path: "/nest".to_string(), path_and_query: None });
    assert_eq!(request.target(), "/nest");
}

#[test]
fn host_and_user_agent_are_the_header_values() {
    let headers = headers_of(&[("host", b"example.org:8080"), ("user-agent", b"curl/8.0 (tests)")]);
    let request = snapshot_of("/", &headers, None);
    assert_eq!(request.header_or_empty("host"), "example.org:8080");
    assert_eq!(request.header_or_empty("user-agent"), "curl/8.0 (tests)");
}

#[test]
fn host_and_user_agent_are_empty_when_missing() {
    let headers = headers_of(&[]);
    let request = snapshot_of("/", &headers, None);
    assert_eq!(request.header_or_empty("host"), "");
    assert_eq!(request.header_or_empty("user-agent"), "");
}

#[test]
fn host_and_user_agent_are_empty_when_no_text() {
    let headers = headers_of(&[("host", b"\xe4\xf6\xfc"), ("user-agent", b"r\xc3\xa9sum\xc3\xa9")]);
    let request = snapshot_of("/", &headers, None);
    assert_eq!(request.header_or_empty("host"), "");
    assert_eq!(request.header_or_empty("user-agent"), "");
}

#[test]
fn forwarded_for_of_one_address() {
    let headers = headers_of(&[("x-forwarded-for", b"127.0.0.1")]);
    assert_eq!(parse_x_forwarded_for(&headers), Some("127.0.0.1".to_string()));
}

#[test]
fn forwarded_for_takes_the_leftmost_address() {
    let headers = headers_of(&[("x-forwarded-for", b"203.0.113.5, 70.41.3.18")]);
    assert_eq!(parse_x_forwarded_for(&headers), Some("203.0.113.5".to_string()));
    let headers = headers_of(&[("x-forwarded-for", b"2001:db8::1,10.0.0.1,10.0.0.2")]);
    assert_eq!(parse_x_forwarded_for(&headers), Some("2001:db8::1".to_string()));
}

#[test]
fn forwarded_for_is_trimmed() {
    let headers = headers_of(&[("x-forwarded-for", b"  203.0.113.5\t , 70.41.3.18")]);
    assert_eq!(parse_x_forwarded_for(&headers), Some("203.0.113.5".to_string()));
}

#[test]
fn forwarded_for_is_not_validated() {
    let headers = headers_of(&[("x-forwarded-for", b"not an address, 10.0.0.1")]);
    assert_eq!(parse_x_forwarded_for(&headers), Some("not an address".to_string()));
}

#[test]
fn forwarded_for_reads_the_first_header_line() {
    let headers =
        headers_of(&[("x-forwarded-for", b"198.51.100.7"), ("x-forwarded-for", b"203.0.113.5")]);
    assert_eq!(parse_x_forwarded_for(&headers), Some("198.51.100.7".to_string()));
}

#[test]
fn forwarded_for_is_none_without_the_header() {
    assert_eq!(parse_x_forwarded_for(&HeaderMap::new()), None);
    let headers = headers_of(&[("forwarded", b"for=203.0.113.5")]);
    assert_eq!(parse_x_forwarded_for(&headers), None);
}

#[test]
fn forwarded_for_is_none_for_an_empty_first_entry() {
    assert_eq!(parse_x_forwarded_for(&headers_of(&[("x-forwarded-for", b"")])), None);
    assert_eq!(parse_x_forwarded_for(&headers_of(&[("x-forwarded-for", b"   ")])), None);
    assert_eq!(parse_x_forwarded_for(&headers_of(&[("x-forwarded-for", b", 10.0.0.1")])), None);
    assert_eq!(parse_x_forwarded_for(&headers_of(&[("x-forwarded-for", b" \t,10.0.0.1")])), None);
}

#[test]
fn forwarded_for_is_none_when_no_text() {
    let headers = headers_of(&[("x-forwarded-for", b"203.0.113.5\xff, 70.41.3.18")]);
    assert_eq!(parse_x_forwarded_for(&headers), None);
}

#[test]
fn client_ip_is_the_forwarded_client() {
    let headers = headers_of(&[("x-forwarded-for", b"203.0.113.5, 70.41.3.18")]);
    let request = snapshot_of("/", &headers, None);
    assert_eq!(request.client_ip(), "203.0.113.5");
}

#[test]
fn client_ip_is_the_forwarded_client_whatever_the_peer() {
    let headers = headers_of(&[("x-forwarded-for", b"203.0.113.5, 70.41.3.18")]);
    let request = snapshot_of("/", &headers, Some("192.0.2.1:4711"));
    assert_eq!(request.client_ip(), "203.0.113.5");
}

#[test]
fn client_ip_falls_back_to_the_peer() {
    let headers = headers_of(&[]);
    let request = snapshot_of("/", &headers, Some("192.0.2.1:4711"));
    assert_eq!(request.client_ip(), "192.0.2.1:4711");
    let headers = headers_of(&[("x-forwarded-for", b" ")]);
    let request = snapshot_of("/", &headers, Some("[::1]:80"));
    assert_eq!(request.client_ip(), "[::1]:80");
    let headers = headers_of(&[("x-forwarded-for", b"\x80")]);
    let request = snapshot_of("/", &headers, Some("192.0.2.1:4711"));
    assert_eq!(request.client_ip(), "192.0.2.1:4711");
}

#[test]
fn client_ip_is_empty_without_header_and_peer() {
    let headers = headers_of(&[]);
    let request = snapshot_of("/", &headers, None);
    assert_eq!(request.client_ip(), "");
    let headers = headers_of(&[("x-forwarded-for", b",")]);
    let request = snapshot_of("/", &headers, None);
    assert_eq!(request.client_ip(), "");
}

#[test]
fn forwarded_for_of_a_long_list_is_its_first_entry() {
    let mut list = String::from("203.0.113.5");
    for i in 0..2000 {
        list.push_str(&format!(", 10.0.{}.{}", i / 250, i % 250));
    }
    let headers = headers_of(&[("x-forwarded-for", list.as_bytes())]);
    assert_eq!(parse_x_forwarded_for(&headers), Some("203.0.113.5".to_string()));
    let entry = "a".repeat(8000);
    let headers = headers_of(&[("x-forwarded-for", entry.as_bytes())]);
    assert_eq!(parse_x_forwarded_for(&headers), Some(entry));
}
