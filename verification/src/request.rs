//! What a span is made from: a snapshot of the inbound request, and the
//! attribute that each part of it gives.

use crate::headers::first_text;
use crate::headers::header_entries;
use crate::headers::header_text;
use crate::text::ascii_first_token;
use crate::text::ascii_lower;
use crate::text::eq_ignore_ascii_case;
use crate::text::first_token;
use crate::text::lemma_first_token_of_list;
use crate::text::trim;
use crate::text::trimmed;
use http::header::HeaderMap;
use http::header::HeaderValue;
use vstd::prelude::*;
use vstd::string::*;

verus! {

/// A request method: one of the nine standard verbs, or any other token.
#[derive(Debug)]
pub enum HttpMethod {
    Connect,
    Delete,
    Get,
    Head,
    Options,
    Patch,
    Post,
    Put,
    Trace,
    Other(String),
}

/// A request method as a mathematical value.
pub enum HttpMethodView {
    Connect,
    Delete,
    Get,
    Head,
    Options,
    Patch,
    Post,
    Put,
    Trace,
    Other(Seq<char>),
}

impl View for HttpMethod {
    type V = HttpMethodView;

    open spec fn view(&self) -> HttpMethodView {
        match self {
            HttpMethod::Connect => HttpMethodView::Connect,
            HttpMethod::Delete => HttpMethodView::Delete,
            HttpMethod::Get => HttpMethodView::Get,
            HttpMethod::Head => HttpMethodView::Head,
            HttpMethod::Options => HttpMethodView::Options,
            HttpMethod::Patch => HttpMethodView::Patch,
            HttpMethod::Post => HttpMethodView::Post,
            HttpMethod::Put => HttpMethodView::Put,
            HttpMethod::Trace => HttpMethodView::Trace,
            HttpMethod::Other(token) => HttpMethodView::Other(token@),
        }
    }
}

/// A protocol version: one of the five known ones, or any other, held as the
/// text that describes it.
#[derive(Debug)]
pub enum HttpVersion {
    Http09,
    Http10,
    Http11,
    Http2,
    Http3,
    Other(String),
}

/// A protocol version as a mathematical value.
pub enum HttpVersionView {
    Http09,
    Http10,
    Http11,
    Http2,
    Http3,
    Other(Seq<char>),
}

impl View for HttpVersion {
    type V = HttpVersionView;

    open spec fn view(&self) -> HttpVersionView {
        match self {
            HttpVersion::Http09 => HttpVersionView::Http09,
            HttpVersion::Http10 => HttpVersionView::Http10,
            HttpVersion::Http11 => HttpVersionView::Http11,
            HttpVersion::Http2 => HttpVersionView::Http2,
            HttpVersion::Http3 => HttpVersionView::Http3,
            HttpVersion::Other(text) => HttpVersionView::Other(text@),
        }
    }
}

/// The parts of a URI that a span is made from.
#[derive(Debug)]
pub struct RequestUri {
    /// The scheme, where the URI has one.
    pub scheme: Option<String>,
    /// The path alone.
    pub path: String,
    /// The path with the query string, where the URI has a path.
    pub path_and_query: Option<String>,
}

/// The parts of a URI as a mathematical value.
pub struct RequestUriView {
    pub scheme: Option<Seq<char>>,
    pub path: Seq<char>,
    pub path_and_query: Option<Seq<char>>,
}

impl View for RequestUri {
    type V = RequestUriView;

    open spec fn view(&self) -> RequestUriView {
        RequestUriView {
            scheme: self.scheme.deep_view(),
            path: self.path@,
            path_and_query: self.path_and_query.deep_view(),
        }
    }
}

/// An inbound request as it stands when its span is made.
#[derive(Debug)]
pub struct RequestSnapshot<'a> {
    pub method: HttpMethod,
    /// The URI as the handler sees it.
    pub uri: RequestUri,
    /// The URI as it came in, where routing has rewritten it since and the
    /// server kept the first one.
    pub original_uri: Option<RequestUri>,
    pub version: HttpVersion,
    pub headers: &'a HeaderMap<HeaderValue>,
    /// The template of the route that matched, where one did.
    pub matched_path: Option<String>,
    /// The address of the peer's socket, where the server supplies it.
    pub peer_addr: Option<String>,
}

/// An inbound request as a mathematical value. The headers are the values
/// under each name in lower case.
pub struct RequestSnapshotView {
    pub method: HttpMethodView,
    pub uri: RequestUriView,
    pub original_uri: Option<RequestUriView>,
    pub version: HttpVersionView,
    pub headers: Map<Seq<char>, Seq<Seq<u8>>>,
    pub matched_path: Option<Seq<char>>,
    pub peer_addr: Option<Seq<char>>,
}

impl<'a> View for RequestSnapshot<'a> {
    type V = RequestSnapshotView;

    open spec fn view(&self) -> RequestSnapshotView {
        RequestSnapshotView {
            method: self.method@,
            uri: self.uri@,
            original_uri: match self.original_uri {
                Some(uri) => Some(uri@),
                None => None,
            },
            version: self.version@,
            headers: header_entries(*self.headers),
            matched_path: self.matched_path.deep_view(),
            peer_addr: self.peer_addr.deep_view(),
        }
    }
}

/// `http.method`: the upper-case token of a standard verb; any other verb as
/// it is.
pub open spec fn method_token(method: HttpMethodView) -> Seq<char> {
    match method {
        HttpMethodView::Connect => "CONNECT"@,
        HttpMethodView::Delete => "DELETE"@,
        HttpMethodView::Get => "GET"@,
        HttpMethodView::Head => "HEAD"@,
        HttpMethodView::Options => "OPTIONS"@,
        HttpMethodView::Patch => "PATCH"@,
        HttpMethodView::Post => "POST"@,
        HttpMethodView::Put => "PUT"@,
        HttpMethodView::Trace => "TRACE"@,
        HttpMethodView::Other(token) => token,
    }
}

/// `http.flavor`: the number of a known version; for any other, the text
/// that describes it.
pub open spec fn flavor_text(version: HttpVersionView) -> Seq<char> {
    match version {
        HttpVersionView::Http09 => "0.9"@,
        HttpVersionView::Http10 => "1.0"@,
        HttpVersionView::Http11 => "1.1"@,
        HttpVersionView::Http2 => "2.0"@,
        HttpVersionView::Http3 => "3.0"@,
        HttpVersionView::Other(text) => text,
    }
}

/// The attribute for a scheme: `http` and `https` in lower case, however
/// their letters were written; any other scheme as it is.
pub open spec fn scheme_text(scheme: Seq<char>) -> Seq<char> {
    if ascii_lower(scheme) == "http"@ {
        "http"@
    } else if ascii_lower(scheme) == "https"@ {
        "https"@
    } else {
        scheme
    }
}

/// `http.scheme`: the attribute for the URI's scheme, and `HTTP` for a URI
/// without one.
pub open spec fn scheme_of(uri: RequestUriView) -> Seq<char> {
    match uri.scheme {
        Some(scheme) => scheme_text(scheme),
        None => "HTTP"@,
    }
}

/// `http.route`: the template of the matched route, empty where none
/// matched.
pub open spec fn route_of(request: RequestSnapshotView) -> Seq<char> {
    match request.matched_path {
        Some(path) => path,
        None => Seq::empty(),
    }
}

/// The path with the query string of `uri`, or its bare path where it has
/// none.
pub open spec fn uri_target(uri: RequestUriView) -> Seq<char> {
    match uri.path_and_query {
        Some(path_and_query) => path_and_query,
        None => uri.path,
    }
}

/// `http.target`: the target of the URI as it came in, where the server
/// kept it, and of the current one otherwise.
pub open spec fn target_of(request: RequestSnapshotView) -> Seq<char> {
    match request.original_uri {
        Some(uri) => uri_target(uri),
        None => uri_target(request.uri),
    }
}

/// The text of the header `name`, empty where the request has none or its
/// first value is not visible ASCII.
pub open spec fn header_or_empty(headers: Map<Seq<char>, Seq<Seq<u8>>>, name: Seq<char>) -> Seq<
    char,
> {
    match first_text(headers, name) {
        Some(text) => text,
        None => Seq::empty(),
    }
}

/// The client that `X-Forwarded-For` names: the first entry of its
/// comma-separated list, trimmed. There is none where the header is missing,
/// is not visible ASCII, or begins with an empty entry.
pub open spec fn forwarded_for(headers: Map<Seq<char>, Seq<Seq<u8>>>) -> Option<Seq<char>> {
    match first_text(headers, "x-forwarded-for"@) {
        Some(list) => {
            let client = trimmed(first_token(list, ','));
            if client.len() > 0 {
                Some(client)
            } else {
                None
            }
        },
        None => None,
    }
}

/// `http.client_ip`: the client that `X-Forwarded-For` names; else the
/// peer's socket address; else empty.
pub open spec fn client_ip_of(request: RequestSnapshotView) -> Seq<char> {
    match forwarded_for(request.headers) {
        Some(client) => client,
        None => match request.peer_addr {
            Some(addr) => addr,
            None => Seq::empty(),
        },
    }
}

/// `http.method` for `method`.
pub fn http_method(method: &HttpMethod) -> (token: String)
    ensures
        token@ == method_token(method@),
{
    match method {
        HttpMethod::Connect => String::from_str("CONNECT"),
        HttpMethod::Delete => String::from_str("DELETE"),
        HttpMethod::Get => String::from_str("GET"),
        HttpMethod::Head => String::from_str("HEAD"),
        HttpMethod::Options => String::from_str("OPTIONS"),
        HttpMethod::Patch => String::from_str("PATCH"),
        HttpMethod::Post => String::from_str("POST"),
        HttpMethod::Put => String::from_str("PUT"),
        HttpMethod::Trace => String::from_str("TRACE"),
        HttpMethod::Other(other) => other.clone(),
    }
}

/// `http.flavor` for `version`.
pub fn http_flavor(version: &HttpVersion) -> (flavor: String)
    ensures
        flavor@ == flavor_text(version@),
{
    match version {
        HttpVersion::Http09 => String::from_str("0.9"),
        HttpVersion::Http10 => String::from_str("1.0"),
        HttpVersion::Http11 => String::from_str("1.1"),
        HttpVersion::Http2 => String::from_str("2.0"),
        HttpVersion::Http3 => String::from_str("3.0"),
        HttpVersion::Other(other) => other.clone(),
    }
}

/// The attribute for the scheme `scheme`.
pub fn http_scheme(scheme: &str) -> (text: String)
    ensures
        text@ == scheme_text(scheme@),
{
    proof {
        reveal_strlit("http");
        reveal_strlit("https");
        assert(ascii_lower("http"@) =~= "http"@);
        assert(ascii_lower("https"@) =~= "https"@);
    }
    if eq_ignore_ascii_case(scheme, "http") {
        String::from_str("http")
    } else if eq_ignore_ascii_case(scheme, "https") {
        String::from_str("https")
    } else {
        String::from_str(scheme)
    }
}

/// The client that the header `X-Forwarded-For` of `headers` names, if any.
pub fn parse_x_forwarded_for(headers: &HeaderMap<HeaderValue>) -> (client: Option<String>)
    ensures
        client.deep_view() == forwarded_for(header_entries(*headers)),
{
    match header_text(headers, "x-forwarded-for") {
        Some(list) => {
            let first = ascii_first_token(list, 44u8);
            let client = trim(first);
            if client.as_str().is_empty() {
                None
            } else {
                Some(client)
            }
        },
        None => None,
    }
}

impl<'a> RequestSnapshot<'a> {
    /// `http.scheme` of the request.
    pub fn scheme(&self) -> (text: String)
        ensures
            text@ == scheme_of(self@.uri),
    {
        match &self.uri.scheme {
            Some(scheme) => http_scheme(scheme.as_str()),
            None => String::from_str("HTTP"),
        }
    }

    /// `http.route` of the request.
    pub fn route(&self) -> (text: String)
        ensures
            text@ == route_of(self@),
    {
        match &self.matched_path {
            Some(path) => path.clone(),
            None => String::new(),
        }
    }

    /// `http.target` of the request.
    pub fn target(&self) -> (text: String)
        ensures
            text@ == target_of(self@),
    {
        let uri = match &self.original_uri {
            Some(uri) => uri,
            None => &self.uri,
        };
        match &uri.path_and_query {
            Some(path_and_query) => path_and_query.clone(),
            None => uri.path.clone(),
        }
    }

    /// The text of the header `name`, empty where the request has none or
    /// its first value is not visible ASCII.
    pub fn header_or_empty(&self, name: &str) -> (text: String)
        ensures
            text@ == header_or_empty(self@.headers, name@),
    {
        match header_text(self.headers, name) {
            Some(text) => text.to_owned(),
            None => String::new(),
        }
    }

    /// `http.client_ip` of the request.
    pub fn client_ip(&self) -> (text: String)
        ensures
            text@ == client_ip_of(self@),
    {
        match parse_x_forwarded_for(self.headers) {
            Some(client) => client,
            None => match &self.peer_addr {
                Some(addr) => addr.clone(),
                None => String::new(),
            },
        }
    }
}

/// Where `X-Forwarded-For` names a client, `http.client_ip` is that client,
/// whatever the address of the peer.
pub proof fn lemma_forwarded_client_wins(request: RequestSnapshotView, peer_addr: Option<Seq<char>>)
    requires
        forwarded_for(request.headers) is Some,
    ensures
        client_ip_of(request) == forwarded_for(request.headers)->0,
        client_ip_of(RequestSnapshotView { peer_addr, ..request }) == client_ip_of(request),
{
}

/// Without a client named by `X-Forwarded-For`, `http.client_ip` is the
/// peer's address, and empty where the server supplies none.
pub proof fn lemma_peer_is_the_fallback(request: RequestSnapshotView)
    requires
        forwarded_for(request.headers) is None,
    ensures
        request.peer_addr is Some ==> client_ip_of(request) == request.peer_addr->0,
        request.peer_addr is None ==> client_ip_of(request) == Seq::<char>::empty(),
{
}

/// Of a list in `X-Forwarded-For`, the leftmost entry is the client: where
/// the header's text is `first`, a comma and anything else, and `first`
/// holds no comma and is not blank, the client is `first`, trimmed.
pub proof fn lemma_leftmost_entry_wins(
    headers: Map<Seq<char>, Seq<Seq<u8>>>,
    first: Seq<char>,
    rest: Seq<char>,
)
    requires
        first_text(headers, "x-forwarded-for"@) == Some(first + seq![','] + rest),
        !first.contains(','),
        trimmed(first).len() > 0,
    ensures
        forwarded_for(headers) == Some(trimmed(first)),
{
    lemma_first_token_of_list(first, rest, ',');
}

} // verus!
