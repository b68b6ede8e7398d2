//! Trace contexts: the one that a request brought with it, and the one that
//! the span made for the request is tied to.
//!
//! A propagator reads a span context out of the request's headers. Where
//! that context is valid the new span continues its trace, with the context
//! as parent. Where it is not, the span still needs a trace identifier at the
//! moment it is made, so one is minted, and the context that carries it is
//! attached as a link: nothing caused the span, and no parent may say so.

use crate::text::lemma_hex_capacity_of_u128;
use crate::text::lemma_lower_hex_injective;
use crate::text::lemma_lower_hex_len;
use crate::text::lower_hex;
use opentelemetry::trace::TraceId;
use opentelemetry_sdk::trace::IdGenerator;
use opentelemetry_sdk::trace::RandomIdGenerator;
use vstd::prelude::*;

verus! {

/// A span context: the identifiers of a trace and of a span in it, the trace
/// flags, whether it came from another process, and the trace state in its
/// header form.
#[derive(Debug)]
pub struct SpanContext {
    pub trace_id: u128,
    pub span_id: u64,
    pub trace_flags: u8,
    pub is_remote: bool,
    pub trace_state: String,
}

/// A span context as a mathematical value.
pub struct SpanContextView {
    pub trace_id: u128,
    pub span_id: u64,
    pub trace_flags: u8,
    pub is_remote: bool,
    pub trace_state: Seq<char>,
}

impl SpanContextView {
    /// A context is valid where its trace identifier is not zero and it is
    /// well formed, that is, its span identifier is not zero either.
    pub open spec fn is_valid(self) -> bool {
        self.trace_id != 0 && self.span_id != 0
    }
}

impl View for SpanContext {
    type V = SpanContextView;

    open spec fn view(&self) -> SpanContextView {
        SpanContextView {
            trace_id: self.trace_id,
            span_id: self.span_id,
            trace_flags: self.trace_flags,
            is_remote: self.is_remote,
            trace_state: self.trace_state@,
        }
    }
}

impl SpanContext {
    /// Whether the context is valid.
    pub fn is_valid(&self) -> (valid: bool)
        ensures
            valid == self@.is_valid(),
    {
        self.trace_id != 0 && self.span_id != 0
    }
}

/// The context that a new span is tied to.
#[derive(Debug)]
pub enum TraceContext {
    /// A valid context that the request brought: the span's parent.
    Remote(SpanContext),
    /// A context minted here: attached to the span as a link, never as its
    /// parent.
    Local(SpanContext),
}

/// A trace context as a mathematical value.
pub enum TraceContextView {
    Remote(SpanContextView),
    Local(SpanContextView),
}

impl TraceContextView {
    /// The span context inside, whichever the variant.
    pub open spec fn span_context(self) -> SpanContextView {
        match self {
            TraceContextView::Remote(context) => context,
            TraceContextView::Local(context) => context,
        }
    }

    /// Whether the context is to be the span's parent.
    pub open spec fn is_parent(self) -> bool {
        self is Remote
    }

    /// A parent is a valid context; a link is a context of this process.
    pub open spec fn wf(self) -> bool {
        match self {
            TraceContextView::Remote(context) => context.is_valid(),
            TraceContextView::Local(context) => !context.is_remote,
        }
    }
}

impl View for TraceContext {
    type V = TraceContextView;

    open spec fn view(&self) -> TraceContextView {
        match self {
            TraceContext::Remote(context) => TraceContextView::Remote(context@),
            TraceContext::Local(context) => TraceContextView::Local(context@),
        }
    }
}

impl TraceContext {
    /// Whether the context is to be the span's parent (else it is a link).
    pub fn is_parent(&self) -> (parent: bool)
        ensures
            parent == self@.is_parent(),
    {
        match self {
            TraceContext::Remote(_) => true,
            TraceContext::Local(_) => false,
        }
    }

    /// The span context inside, whichever the variant.
    pub fn span_context(&self) -> (context: &SpanContext)
        ensures
            context@ == self@.span_context(),
    {
        match self {
            TraceContext::Remote(context) => context,
            TraceContext::Local(context) => context,
        }
    }
}

/// The trace identifier and the context for a request whose headers gave
/// `remote`, where `fresh_trace_id` and `fresh_span_id` are the identifiers
/// to mint from. A valid `remote` is adopted: its trace identifier, and
/// itself as parent. Otherwise the fresh trace identifier is used, in a link
/// that keeps the flags and the state of `remote`.
pub open spec fn resolved(
    remote: SpanContextView,
    fresh_trace_id: u128,
    fresh_span_id: u64,
) -> (u128, TraceContextView) {
    if remote.is_valid() {
        (remote.trace_id, TraceContextView::Remote(remote))
    } else {
        (
            fresh_trace_id,
            TraceContextView::Local(
                SpanContextView {
                    trace_id: fresh_trace_id,
                    span_id: fresh_span_id,
                    trace_flags: remote.trace_flags,
                    is_remote: false,
                    trace_state: remote.trace_state,
                },
            ),
        )
    }
}

/// A trace identifier as it is written in a span: 32 hexadecimal digits.
pub open spec fn trace_id_hex(trace_id: u128) -> Seq<char> {
    lower_hex(trace_id as nat, 32)
}

/// Calls `new_trace_id` of `opentelemetry_sdk`'s `RandomIdGenerator`.
///
/// Trusted: nothing. The identifier is random.
#[verifier::external_body]
fn new_trace_id() -> (trace_id: u128) {
    u128::from_be_bytes(RandomIdGenerator::default().new_trace_id().to_bytes())
}

/// Calls `new_span_id` of `opentelemetry_sdk`'s `RandomIdGenerator`.
///
/// Trusted: nothing. The identifier is random.
#[verifier::external_body]
fn new_span_id() -> (span_id: u64) {
    u64::from_be_bytes(RandomIdGenerator::default().new_span_id().to_bytes())
}

/// Formats a trace identifier with the `Display` impl of
/// `opentelemetry::trace::TraceId`.
///
/// Trusted: that impl writes the identifier in hexadecimal, in lower case,
/// padded with zeros to 32 digits.
#[verifier::external_body]
fn format_trace_id(trace_id: u128) -> (text: String)
    ensures
        text@ == trace_id_hex(trace_id),
{
    TraceId::from(trace_id).to_string()
}

/// The trace identifier as it is written in a span. It is never empty.
pub fn trace_id_text(trace_id: u128) -> (text: String)
    ensures
        text@ == trace_id_hex(trace_id),
        text@.len() == 32,
{
    proof {
        lemma_lower_hex_len(trace_id as nat, 32);
    }
    format_trace_id(trace_id)
}

/// Decides, with the identifiers to mint from already in hand, what trace a
/// request belongs to and how its span is tied to `remote`.
pub fn resolve_trace_context(remote: SpanContext, fresh_trace_id: u128, fresh_span_id: u64) -> (r:
    (u128, TraceContext))
    ensures
        (r.0, r.1@) == resolved(remote@, fresh_trace_id, fresh_span_id),
        r.1@.wf(),
        r.1@.span_context().trace_id == r.0,
{
    if remote.is_valid() {
        let trace_id: u128 = remote.trace_id;
        (trace_id, TraceContext::Remote(remote))
    } else {
        let local = SpanContext {
            trace_id: fresh_trace_id,
            span_id: fresh_span_id,
            trace_flags: remote.trace_flags,
            is_remote: false,
            trace_state: remote.trace_state,
        };
        (fresh_trace_id, TraceContext::Local(local))
    }
}

/// Decides what trace a request belongs to and how its span is tied to
/// `remote_context`, the context that the propagator read from the request.
///
/// A valid context is adopted. For any other, a trace identifier and a span
/// identifier are drawn at random; which ones, no contract can say, so the
/// result is `resolved` for some pair of identifiers.
pub fn create_context_with_trace(remote_context: SpanContext) -> (r: (u128, TraceContext))
    ensures
        exists|fresh_trace_id: u128, fresh_span_id: u64|
            (r.0, r.1@) == #[trigger] resolved(remote_context@, fresh_trace_id, fresh_span_id),
        remote_context@.is_valid() ==> r.0 == remote_context.trace_id && r.1@
            == TraceContextView::Remote(remote_context@),
        !remote_context@.is_valid() ==> r.1@ is Local,
        r.1@.wf(),
        r.1@.span_context().trace_id == r.0,
{
    if remote_context.is_valid() {
        let trace_id: u128 = remote_context.trace_id;
        let ghost adopted = (trace_id, TraceContextView::Remote(remote_context@));
        assert(adopted == resolved(remote_context@, 0, 0));
        (trace_id, TraceContext::Remote(remote_context))
    } else {
        let trace_id: u128 = new_trace_id();
        let span_id: u64 = new_span_id();
        let r = resolve_trace_context(remote_context, trace_id, span_id);
        assert((r.0, r.1@) == resolved(remote_context@, trace_id, span_id));
        r
    }
}

/// Adoption: a valid context gives its own trace identifier and is the
/// span's parent, whatever identifiers were at hand to mint from.
pub proof fn lemma_valid_context_is_adopted(
    remote: SpanContextView,
    fresh_trace_id: u128,
    fresh_span_id: u64,
)
    requires
        remote.is_valid(),
    ensures
        resolved(remote, fresh_trace_id, fresh_span_id) == (
            remote.trace_id,
            TraceContextView::Remote(remote),
        ),
        resolved(remote, fresh_trace_id, fresh_span_id).1.is_parent(),
{
}

/// Without a valid context the trace is a new one: its identifier is the
/// minted one, its context is a link and no parent, and the identifier as it
/// is written in the span is not empty.
pub proof fn lemma_invalid_context_is_replaced(
    remote: SpanContextView,
    fresh_trace_id: u128,
    fresh_span_id: u64,
)
    requires
        !remote.is_valid(),
    ensures
        resolved(remote, fresh_trace_id, fresh_span_id).0 == fresh_trace_id,
        resolved(remote, fresh_trace_id, fresh_span_id).1 is Local,
        !resolved(remote, fresh_trace_id, fresh_span_id).1.is_parent(),
        resolved(remote, fresh_trace_id, fresh_span_id).1.span_context().trace_id
            == fresh_trace_id,
        trace_id_hex(fresh_trace_id).len() == 32,
{
    lemma_lower_hex_len(fresh_trace_id as nat, 32);
}

/// Whatever the request brought, the context that is decided on is well
/// formed and carries the trace identifier that is decided on.
pub proof fn lemma_resolved_is_wf(remote: SpanContextView, fresh_trace_id: u128, fresh_span_id: u64)
    ensures
        resolved(remote, fresh_trace_id, fresh_span_id).1.wf(),
        resolved(remote, fresh_trace_id, fresh_span_id).1.span_context().trace_id == resolved(
            remote,
            fresh_trace_id,
            fresh_span_id,
        ).0,
{
}

/// Two trace identifiers that differ are written differently: where the
/// minted identifiers vary from one request to the next, so does `trace_id`.
pub proof fn lemma_trace_id_hex_injective(first: u128, second: u128)
    requires
        trace_id_hex(first) == trace_id_hex(second),
    ensures
        first == second,
{
    lemma_hex_capacity_of_u128();
    lemma_lower_hex_injective(first as nat, second as nat, 32);
}

} // verus!
