//! The record of a span: the attributes set when it is made, and those that
//! the response and its failures fill in later.

use crate::request::client_ip_of;
use crate::request::flavor_text;
use crate::request::header_or_empty;
use crate::request::method_token;
use crate::request::route_of;
use crate::request::scheme_of;
use crate::request::target_of;
use crate::request::RequestSnapshotView;
use crate::text::decimal;
use crate::text::trimmed;
use crate::trace_context::trace_id_hex;
use vstd::prelude::*;

verus! {

/// The protocol that a span is made for. It decides the span's name and
/// whether the span has the attribute `http.grpc_status`.
#[derive(Clone, Copy, Debug, PartialEq, Eq, Structural)]
pub enum Protocol {
    Http,
    Grpc,
}

/// Why a response, or the end of its stream, counts as a failure of an HTTP
/// server.
#[derive(Debug)]
pub enum HttpFailure {
    /// The response has this status code.
    StatusCode(u16),
    /// The handler or the body failed; the text says how.
    Error(String),
}

/// Why a response, or the end of its stream, counts as a failure of a gRPC
/// server.
#[derive(Debug)]
pub enum GrpcFailure {
    /// The call ended with this gRPC status code.
    Code(i32),
    /// The handler or the body failed without a status code; the text says
    /// how.
    Error(String),
}

/// Whether an HTTP failure marks the span as an error: every failure that is
/// no status code does, and a status code from 500 on.
pub open spec fn marks_error(failure: HttpFailure) -> bool {
    match failure {
        HttpFailure::StatusCode(code) => code >= 500,
        HttpFailure::Error(_) => true,
    }
}

/// The gRPC status that a failure records: its code, or 1 where it has none.
pub open spec fn grpc_status_of(failure: GrpcFailure) -> i32 {
    match failure {
        GrpcFailure::Code(code) => code,
        GrpcFailure::Error(_) => 1,
    }
}

/// The attributes of a span. The two status codes, and the gRPC status of a
/// gRPC span, are empty when the span is made.
#[derive(Debug)]
pub struct SpanRecord {
    pub protocol: Protocol,
    /// `otel.name`
    pub otel_name: String,
    /// `http.client_ip`
    pub http_client_ip: String,
    /// `http.flavor`
    pub http_flavor: String,
    /// `http.grpc_status`; only a gRPC span has it.
    pub http_grpc_status: Option<i32>,
    /// `http.host`
    pub http_host: String,
    /// `http.method`
    pub http_method: String,
    /// `http.route`
    pub http_route: String,
    /// `http.scheme`
    pub http_scheme: String,
    /// `http.status_code`
    pub http_status_code: Option<String>,
    /// `http.target`
    pub http_target: String,
    /// `http.user_agent`
    pub http_user_agent: String,
    /// `otel.kind`
    pub otel_kind: String,
    /// `otel.status_code`
    pub otel_status_code: Option<String>,
    /// `trace_id`
    pub trace_id: String,
}

/// The attributes of a span as a mathematical value.
pub struct SpanRecordView {
    pub protocol: Protocol,
    pub otel_name: Seq<char>,
    pub http_client_ip: Seq<char>,
    pub http_flavor: Seq<char>,
    pub http_grpc_status: Option<i32>,
    pub http_host: Seq<char>,
    pub http_method: Seq<char>,
    pub http_route: Seq<char>,
    pub http_scheme: Seq<char>,
    pub http_status_code: Option<Seq<char>>,
    pub http_target: Seq<char>,
    pub http_user_agent: Seq<char>,
    pub otel_kind: Seq<char>,
    pub otel_status_code: Option<Seq<char>>,
    pub trace_id: Seq<char>,
}

impl View for SpanRecord {
    type V = SpanRecordView;

    open spec fn view(&self) -> SpanRecordView {
        SpanRecordView {
            protocol: self.protocol,
            otel_name: self.otel_name@,
            http_client_ip: self.http_client_ip@,
            http_flavor: self.http_flavor@,
            http_grpc_status: self.http_grpc_status,
            http_host: self.http_host@,
            http_method: self.http_method@,
            http_route: self.http_route@,
            http_scheme: self.http_scheme@,
            http_status_code: self.http_status_code.deep_view(),
            http_target: self.http_target@,
            http_user_agent: self.http_user_agent@,
            otel_kind: self.otel_kind@,
            otel_status_code: self.otel_status_code.deep_view(),
            trace_id: self.trace_id@,
        }
    }
}

/// `otel.name`: for HTTP the method and the route with a space between,
/// trimmed; for gRPC the target, which names the service and its method.
pub open spec fn otel_name_of(protocol: Protocol, request: RequestSnapshotView) -> Seq<char> {
    match protocol {
        Protocol::Http => trimmed(method_token(request.method) + " "@ + route_of(request)),
        Protocol::Grpc => target_of(request),
    }
}

/// The record of the span made for `request` in the trace `trace_id`.
pub open spec fn span_fields(
    protocol: Protocol,
    request: RequestSnapshotView,
    trace_id: u128,
) -> SpanRecordView {
    SpanRecordView {
        protocol,
        otel_name: otel_name_of(protocol, request),
        http_client_ip: client_ip_of(request),
        http_flavor: flavor_text(request.version),
        http_grpc_status: None,
        http_host: header_or_empty(request.headers, "host"@),
        http_method: method_token(request.method),
        http_route: route_of(request),
        http_scheme: scheme_of(request.uri),
        http_status_code: None,
        http_target: target_of(request),
        http_user_agent: header_or_empty(request.headers, "user-agent"@),
        otel_kind: "server"@,
        otel_status_code: None,
        trace_id: trace_id_hex(trace_id),
    }
}

impl SpanRecordView {
    /// The record with nothing in it: every text empty, every status unset.
    pub open spec fn empty(protocol: Protocol) -> SpanRecordView {
        SpanRecordView {
            protocol,
            otel_name: Seq::empty(),
            http_client_ip: Seq::empty(),
            http_flavor: Seq::empty(),
            http_grpc_status: None,
            http_host: Seq::empty(),
            http_method: Seq::empty(),
            http_route: Seq::empty(),
            http_scheme: Seq::empty(),
            http_status_code: None,
            http_target: Seq::empty(),
            http_user_agent: Seq::empty(),
            otel_kind: Seq::empty(),
            otel_status_code: None,
            trace_id: Seq::empty(),
        }
    }

    /// Only a gRPC span holds a gRPC status.
    pub open spec fn wf(self) -> bool {
        self.protocol is Http ==> self.http_grpc_status is None
    }

    /// The record once the response's headers are there: the status code in
    /// decimal, and `OK` until a failure says otherwise.
    pub open spec fn with_response(self, status: u16) -> SpanRecordView {
        SpanRecordView {
            http_status_code: Some(decimal(status as nat)),
            otel_status_code: Some("OK"@),
            ..self
        }
    }

    /// The record once an HTTP failure is classified: `ERROR` where the
    /// failure marks an error, and unchanged where it does not.
    pub open spec fn with_http_failure(self, failure: HttpFailure) -> SpanRecordView {
        if marks_error(failure) {
            SpanRecordView { otel_status_code: Some("ERROR"@), ..self }
        } else {
            self
        }
    }

    /// The record once a gRPC failure is classified: a gRPC span holds the
    /// failure's status; any other span is unchanged.
    pub open spec fn with_grpc_failure(self, failure: GrpcFailure) -> SpanRecordView {
        if self.protocol is Grpc {
            SpanRecordView { http_grpc_status: Some(grpc_status_of(failure)), ..self }
        } else {
            self
        }
    }
}

impl SpanRecord {
    /// A record with nothing in it, for the callbacks to write to.
    pub fn empty(protocol: Protocol) -> (record: SpanRecord)
        ensures
            record@ == SpanRecordView::empty(protocol),
            record@.wf(),
    {
        SpanRecord {
            protocol,
            otel_name: String::new(),
            http_client_ip: String::new(),
            http_flavor: String::new(),
            http_grpc_status: None,
            http_host: String::new(),
            http_method: String::new(),
            http_route: String::new(),
            http_scheme: String::new(),
            http_status_code: None,
            http_target: String::new(),
            http_user_agent: String::new(),
            otel_kind: String::new(),
            otel_status_code: None,
            trace_id: String::new(),
        }
    }

    /// The name of the span.
    pub fn span_name(&self) -> (name: &'static str)
        ensures
            name@ == (match self.protocol {
                Protocol::Http => "HTTP request"@,
                Protocol::Grpc => "grpc request"@,
            }),
    {
        match self.protocol {
            Protocol::Http => "HTTP request",
            Protocol::Grpc => "grpc request",
        }
    }
}

/// Every attribute of a new span but `trace_id` depends on the request
/// alone: made twice for one request, in whatever traces, the two records
/// differ in `trace_id` at most, and in nothing where the trace is the same.
pub proof fn lemma_span_fields_repeatable(
    protocol: Protocol,
    request: RequestSnapshotView,
    first_trace_id: u128,
    second_trace_id: u128,
)
    ensures
        span_fields(protocol, request, first_trace_id) == (SpanRecordView {
            trace_id: trace_id_hex(first_trace_id),
            ..span_fields(protocol, request, second_trace_id)
        }),
        first_trace_id == second_trace_id ==> span_fields(protocol, request, first_trace_id)
            == span_fields(protocol, request, second_trace_id),
{
}

/// A request that no route matched has an empty `http.route`.
pub proof fn lemma_unmatched_route_is_empty(
    protocol: Protocol,
    request: RequestSnapshotView,
    trace_id: u128,
)
    requires
        request.matched_path is None,
    ensures
        span_fields(protocol, request, trace_id).http_route == Seq::<char>::empty(),
{
}

/// A new span is well formed, and its status codes and gRPC status are
/// empty.
pub proof fn lemma_new_span_is_unset(
    protocol: Protocol,
    request: RequestSnapshotView,
    trace_id: u128,
)
    ensures
        span_fields(protocol, request, trace_id).wf(),
        span_fields(protocol, request, trace_id).http_status_code is None,
        span_fields(protocol, request, trace_id).otel_status_code is None,
        span_fields(protocol, request, trace_id).http_grpc_status is None,
{
}

/// A failure wins over the response: once a failure that marks an error is
/// recorded after the response, `otel.status_code` is `ERROR`, whatever the
/// status was, and the status code stays as the response gave it.
pub proof fn lemma_failure_wins(span: SpanRecordView, status: u16, failure: HttpFailure)
    requires
        marks_error(failure),
    ensures
        span.with_response(status).with_http_failure(failure).otel_status_code == Some("ERROR"@),
        span.with_response(status).with_http_failure(failure).http_status_code == Some(
            decimal(status as nat),
        ),
{
}

/// A status code below 500 never marks an error: recorded after the
/// response, it leaves `otel.status_code` at `OK`.
pub proof fn lemma_low_status_keeps_ok(span: SpanRecordView, status: u16, code: u16)
    requires
        code < 500,
    ensures
        span.with_response(status).with_http_failure(HttpFailure::StatusCode(code))
            == span.with_response(status),
        span.with_response(status).otel_status_code == Some("OK"@),
{
}

/// The last write wins, so the order counts: a response recorded after a
/// failure puts `OK` back.
pub proof fn lemma_last_write_wins(span: SpanRecordView, status: u16, failure: HttpFailure)
    ensures
        span.with_http_failure(failure).with_response(status).otel_status_code == Some("OK"@),
{
}

/// In a gRPC span a failure records its own status code, and 1 where it has
/// none; it touches nothing else.
pub proof fn lemma_grpc_status(span: SpanRecordView, failure: GrpcFailure)
    requires
        span.protocol is Grpc,
    ensures
        failure matches GrpcFailure::Code(code) ==> span.with_grpc_failure(
            failure,
        ).http_grpc_status == Some(code),
        failure is Error ==> span.with_grpc_failure(failure).http_grpc_status == Some(1i32),
        span.with_grpc_failure(failure) == (SpanRecordView {
            http_grpc_status: span.with_grpc_failure(failure).http_grpc_status,
            ..span
        }),
{
}

/// The callbacks keep a well-formed span well formed.
pub proof fn lemma_callbacks_keep_wf(
    span: SpanRecordView,
    status: u16,
    http_failure: HttpFailure,
    grpc_failure: GrpcFailure,
)
    requires
        span.wf(),
    ensures
        span.with_response(status).wf(),
        span.with_http_failure(http_failure).wf(),
        span.with_grpc_failure(grpc_failure).wf(),
{
}

} // verus!
