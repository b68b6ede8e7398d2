//! Tracing middleware with OpenTelemetry's conventional attribute names: the
//! maker of the span for a request, and the callbacks that record in it what
//! becomes of the response.
//!
//! The following attributes are set on the span:
//!
//! - `http.client_ip`: the client's address
//! - `http.flavor`: the protocol version used (1.1, 2.0, and so on)
//! - `http.host`: the value of the `Host` header
//! - `http.method`: the request method
//! - `http.route`: the matched route
//! - `http.scheme`: the scheme of the URI
//! - `http.status_code`: the status code of the response
//! - `http.target`: the request target, with path and query
//! - `http.user_agent`: the value of the `User-Agent` header
//! - `otel.kind`: always `server`
//! - `otel.status_code`: `OK` for a response, `ERROR` once it has failed
//! - `trace_id`: the identifier of the trace that the span belongs to
//!
//! A gRPC span also has `http.grpc_status`.

use crate::request::http_flavor;
use crate::request::http_method;
use crate::request::RequestSnapshot;
use crate::request::RequestSnapshotView;
use crate::span::span_fields;
use crate::span::GrpcFailure;
use crate::span::HttpFailure;
use crate::span::Protocol;
use crate::span::SpanRecord;
use crate::span::SpanRecordView;
use crate::text::decimal_text;
use crate::text::trim;
use crate::trace_context::create_context_with_trace;
use crate::trace_context::resolved;
use crate::trace_context::trace_id_text;
use crate::trace_context::SpanContext;
use crate::trace_context::SpanContextView;
use crate::trace_context::TraceContext;
use crate::trace_context::TraceContextView;
use http::header::HeaderMap;
use http::header::HeaderValue;
use vstd::prelude::*;
use vstd::string::*;

verus! {

/// The record of the span made for `request` in the trace `trace_id`: every
/// attribute that is set when a span is made.
pub fn span_record(protocol: Protocol, request: &RequestSnapshot, trace_id: u128) -> (record:
    SpanRecord)
    ensures
        record@ == span_fields(protocol, request@, trace_id),
        record@.trace_id.len() == 32,
        record@.wf(),
{
    let http_method_v = http_method(&request.method);
    let http_route = request.route();
    let http_target = request.target();
    let otel_name = match protocol {
        Protocol::Http => {
            let mut name = http_method(&request.method);
            name.append(" ");
            name.append(http_route.as_str());
            trim(name.as_str())
        },
        Protocol::Grpc => http_target.clone(),
    };
    SpanRecord {
        protocol,
        otel_name,
        http_client_ip: request.client_ip(),
        http_flavor: http_flavor(&request.version),
        http_grpc_status: None,
        http_host: request.header_or_empty("host"),
        http_method: http_method_v,
        http_route,
        http_scheme: request.scheme(),
        http_status_code: None,
        http_target,
        http_user_agent: request.header_or_empty("user-agent"),
        otel_kind: String::from_str("server"),
        otel_status_code: None,
        trace_id: trace_id_text(trace_id),
    }
}

/// The span and the context for `request`, whose headers gave `remote`, where
/// `fresh_trace_id` and `fresh_span_id` are the identifiers to mint from.
pub open spec fn span_for(
    protocol: Protocol,
    request: RequestSnapshotView,
    remote: SpanContextView,
    fresh_trace_id: u128,
    fresh_span_id: u64,
) -> (SpanRecordView, TraceContextView) {
    let (trace_id, context) = resolved(remote, fresh_trace_id, fresh_span_id);
    (span_fields(protocol, request, trace_id), context)
}

/// Makes the span for a request: first the trace is decided, then the record
/// is made with the trace's identifier in it.
fn make_span_for(protocol: Protocol, request: &RequestSnapshot, remote_context: SpanContext) -> (r:
    (SpanRecord, TraceContext))
    ensures
        exists|fresh_trace_id: u128, fresh_span_id: u64|
            (r.0@, r.1@) == #[trigger] span_for(
                protocol,
                request@,
                remote_context@,
                fresh_trace_id,
                fresh_span_id,
            ),
        remote_context@.is_valid() ==> r.0@ == span_fields(
            protocol,
            request@,
            remote_context.trace_id,
        ) && r.1@ == TraceContextView::Remote(remote_context@),
        !remote_context@.is_valid() ==> r.1@ is Local,
        r.0@ == span_fields(protocol, request@, r.1@.span_context().trace_id),
        r.0@.trace_id.len() == 32,
        r.0@.wf(),
        r.1@.wf(),
{
    let (trace_id, context) = create_context_with_trace(remote_context);
    let record = span_record(protocol, request, trace_id);
    proof {
        let (t, s) = choose|t: u128, s: u64|
            (trace_id, context@) == #[trigger] resolved(remote_context@, t, s);
        assert((record@, context@) == span_for(protocol, request@, remote_context@, t, s));
    }
    (record, context)
}

/// Makes spans for HTTP requests.
#[derive(Clone, Copy, Debug)]
pub struct OtelMakeSpan;

impl OtelMakeSpan {
    /// The span for `request`, and the context to attach to it: as its
    /// parent where the context is `Remote`, as a link where it is `Local`.
    /// `remote_context` is what the propagator read from the request's
    /// headers.
    ///
    /// Every attribute but `trace_id` depends on `request` alone. A valid
    /// `remote_context` gives its own trace identifier; for any other, a
    /// trace identifier is drawn at random.
    pub fn make_span(&mut self, request: &RequestSnapshot, remote_context: SpanContext) -> (r: (
        SpanRecord,
        TraceContext,
    ))
        ensures
            exists|fresh_trace_id: u128, fresh_span_id: u64|
                (r.0@, r.1@) == #[trigger] span_for(
                    Protocol::Http,
                    request@,
                    remote_context@,
                    fresh_trace_id,
                    fresh_span_id,
                ),
            remote_context@.is_valid() ==> r.0@ == span_fields(
                Protocol::Http,
                request@,
                remote_context.trace_id,
            ) && r.1@ == TraceContextView::Remote(remote_context@),
            !remote_context@.is_valid() ==> r.1@ is Local,
            r.0@ == span_fields(Protocol::Http, request@, r.1@.span_context().trace_id),
            r.0@.trace_id.len() == 32,
            r.0@.wf(),
            r.1@.wf(),
    {
        make_span_for(Protocol::Http, request, remote_context)
    }
}

/// Makes spans for gRPC requests.
#[derive(Clone, Copy, Debug)]
pub struct OtelMakeGrpcSpan;

impl OtelMakeGrpcSpan {
    /// The span for `request`, and the context to attach to it: as its
    /// parent where the context is `Remote`, as a link where it is `Local`.
    /// `remote_context` is what the propagator read from the request's
    /// headers.
    ///
    /// The span is named by the request's target, and has an empty
    /// `http.grpc_status`.
    pub fn make_span(&mut self, request: &RequestSnapshot, remote_context: SpanContext) -> (r: (
        SpanRecord,
        TraceContext,
    ))
        ensures
            exists|fresh_trace_id: u128, fresh_span_id: u64|
                (r.0@, r.1@) == #[trigger] span_for(
                    Protocol::Grpc,
                    request@,
                    remote_context@,
                    fresh_trace_id,
                    fresh_span_id,
                ),
            remote_context@.is_valid() ==> r.0@ == span_fields(
                Protocol::Grpc,
                request@,
                remote_context.trace_id,
            ) && r.1@ == TraceContextView::Remote(remote_context@),
            !remote_context@.is_valid() ==> r.1@ is Local,
            r.0@ == span_fields(Protocol::Grpc, request@, r.1@.span_context().trace_id),
            r.0@.trace_id.len() == 32,
            r.0@.wf(),
            r.1@.wf(),
    {
        make_span_for(Protocol::Grpc, request, remote_context)
    }
}

/// Called when a request arrives.
#[derive(Clone, Copy, Debug)]
pub struct OtelOnRequest;

impl OtelOnRequest {
    /// Records nothing.
    pub fn on_request(&mut self, _request: &RequestSnapshot, span: &mut SpanRecord)
        ensures
            final(span)@ == old(span)@,
    {
    }
}

/// Called when the response's headers are there.
#[derive(Clone, Copy, Debug)]
pub struct OtelOnResponse;

impl OtelOnResponse {
    /// Records the status code, and `OK`: where the response turns out to
    /// have failed, the failure's callback comes later and overwrites it.
    pub fn on_response(self, status: u16, span: &mut SpanRecord)
        ensures
            final(span)@ == old(span)@.with_response(status),
    {
        span.http_status_code = Some(decimal_text(status));
        span.otel_status_code = Some(String::from_str("OK"));
    }
}

/// Called when the response's body produces a chunk.
#[derive(Clone, Copy, Debug)]
pub struct OtelOnBodyChunk;

impl OtelOnBodyChunk {
    /// Records nothing.
    pub fn on_body_chunk<B>(&mut self, _chunk: &B, span: &mut SpanRecord)
        ensures
            final(span)@ == old(span)@,
    {
    }
}

/// Called when a streaming response completes.
#[derive(Clone, Copy, Debug)]
pub struct OtelOnEos;

impl OtelOnEos {
    /// Records nothing, whatever the trailers hold.
    pub fn on_eos(self, _trailers: Option<&HeaderMap<HeaderValue>>, span: &mut SpanRecord)
        ensures
            final(span)@ == old(span)@,
    {
    }
}

/// Called when a response, or the end of its stream, is classified as a
/// failure of an HTTP server.
#[derive(Clone, Copy, Debug)]
pub struct OtelOnFailure;

impl OtelOnFailure {
    /// Records `ERROR` for a status code from 500 on and for every failure
    /// that is no status code. A lower status code leaves the span as it is.
    pub fn on_failure(&mut self, failure: HttpFailure, span: &mut SpanRecord)
        ensures
            final(span)@ == old(span)@.with_http_failure(failure),
    {
        match failure {
            HttpFailure::StatusCode(status) => {
                if status >= 500 {
                    span.otel_status_code = Some(String::from_str("ERROR"));
                }
            },
            HttpFailure::Error(_) => {
                span.otel_status_code = Some(String::from_str("ERROR"));
            },
        }
    }
}

/// Called when a response, or the end of its stream, is classified as a
/// failure of a gRPC server.
#[derive(Clone, Copy, Debug)]
pub struct OtelOnGrpcFailure;

impl OtelOnGrpcFailure {
    /// Records the failure's gRPC status code, or 1 where it has none, in a
    /// gRPC span. A span without `http.grpc_status` is left as it is.
    pub fn on_failure(&mut self, failure: GrpcFailure, span: &mut SpanRecord)
        ensures
            final(span)@ == old(span)@.with_grpc_failure(failure),
    {
        let status: i32 = match failure {
            GrpcFailure::Code(code) => code,
            GrpcFailure::Error(_) => 1,
        };
        match span.protocol {
            Protocol::Grpc => {
                span.http_grpc_status = Some(status);
            },
            Protocol::Http => {},
        }
    }
}

} // verus!
