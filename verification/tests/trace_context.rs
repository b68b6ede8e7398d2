use axum_tracing_opentelemetry::trace_context::{
    create_context_with_trace, resolve_trace_context, trace_id_text, SpanContext, TraceContext,
};
use opentelemetry::trace::TraceId;

fn context(trace_id: u128, span_id: u64, trace_flags: u8, trace_state: &str) -> SpanContext {
    SpanContext {
        trace_id,
        span_id,
        trace_flags,
        is_remote: true,
        trace_state: trace_state.to_string(),
    }
}

fn no_context() -> SpanContext {
    SpanContext {
        trace_id: 0,
        span_id: 0,
        trace_flags: 0,
        is_remote: false,
        trace_state: String::new(),
    }
}

const TRACE_ID: u128 = 0xb2611246a58fd7ea623d2264c5a1e226;
const SPAN_ID: u64 = 0xb2c9b811f2f424af;

#[test]
fn a_context_is_valid_with_both_identifiers() {
    assert!(context(1, 1, 0, "").is_valid());
    assert!(context(TRACE_ID, SPAN_ID, 1, "").is_valid());
    assert!(context(u128::MAX, u64::MAX, 0xff, "a=b").is_valid());
}

#[test]
fn a_context_is_not_valid_with_a_zero_identifier() {
    assert!(!no_context().is_valid());
    assert!(!context(0, SPAN_ID, 1, "").is_valid());
    assert!(!context(TRACE_ID, 0, 1, "").is_valid());
}

#[test]
fn trace_id_text_is_32_hexadecimal_digits() {
    assert_eq!(trace_id_text(TRACE_ID), "b2611246a58fd7ea623d2264c5a1e226");
    assert_eq!(trace_id_text(0), "00000000000000000000000000000000");
    assert_eq!(trace_id_text(1), "00000000000000000000000000000001");
    assert_eq!(trace_id_text(0xABCDEF), "00000000000000000000000000abcdef");
    assert_eq!(trace_id_text(u128::MAX), "ffffffffffffffffffffffffffffffff");
    assert_eq!(trace_id_text(1 << 127), "80000000000000000000000000000000");
}

#[test]
fn trace_id_text_is_what_opentelemetry_parses() {
    for id in [1u128, 0x42, TRACE_ID, u128::MAX, 0x1000_0000_0000_0000_0000] {
        let text = trace_id_text(id);
        assert_eq!(text.len(), 32);
        assert_eq!(TraceId::from_hex(&text).unwrap(), TraceId::from(id));
    }
}

#[test]
fn a_valid_context_is_adopted() {
    let (trace_id, resolved) = resolve_trace_context(context(TRACE_ID, SPAN_ID, 1, "k=v"), 7, 9);
    assert_eq!(trace_id, TRACE_ID);
    assert!(resolved.is_parent());
    match resolved {
        TraceContext::Remote(adopted) => {
            assert_eq!(adopted.trace_id, TRACE_ID);
            assert_eq!(adopted.span_id, SPAN_ID);
            assert_eq!(adopted.trace_flags, 1);
            assert!(adopted.is_remote);
            assert_eq!(adopted.trace_state, "k=v");
        }
        TraceContext::Local(_) => panic!("a valid context is the parent"),
    }
}

#[test]
fn an_invalid_context_is_replaced_by_a_link() {
    let (trace_id, resolved) = resolve_trace_context(no_context(), 7, 9);
    assert_eq!(trace_id, 7);
    assert!(!resolved.is_parent());
    match resolved {
        TraceContext::Local(minted) => {
            assert_eq!(minted.trace_id, 7);
            assert_eq!(minted.span_id, 9);
            assert_eq!(minted.trace_flags, 0);
            assert!(!minted.is_remote);
            assert_eq!(minted.trace_state, "");
        }
        TraceContext::Remote(_) => panic!("an invalid context is no parent"),
    }
}

#[test]
fn a_link_keeps_the_flags_and_state_of_what_it_replaces() {
    let (trace_id, resolved) = resolve_trace_context(context(0, SPAN_ID, 1, "k=v"), 0x77, 0x99);
    assert_eq!(trace_id, 0x77);
    let minted = resolved.span_context();
    assert_eq!(minted.trace_id, 0x77);
    assert_eq!(minted.span_id, 0x99);
    assert_eq!(minted.trace_flags, 1);
    assert!(!minted.is_remote);
    assert_eq!(minted.trace_state, "k=v");
    assert!(!resolved.is_parent());
}

#[test]
fn a_context_without_span_identifier_is_replaced() {
    let (trace_id, resolved) = resolve_trace_context(context(TRACE_ID, 0, 1, ""), 0x77, 0x99);
    assert_eq!(trace_id, 0x77);
    assert!(!resolved.is_parent());
}

#[test]
fn span_context_is_the_one_inside() {
    let (_, resolved) = resolve_trace_context(context(TRACE_ID, SPAN_ID, 0, ""), 7, 9);
    assert_eq!(resolved.span_context().trace_id, TRACE_ID);
    assert_eq!(resolved.span_context().span_id, SPAN_ID);
}

#[test]
fn create_context_adopts_a_valid_context() {
    let (trace_id, resolved) = create_context_with_trace(context(TRACE_ID, SPAN_ID, 1, "k=v"));
    assert_eq!(trace_id, TRACE_ID);
    assert!(resolved.is_parent());
    assert_eq!(resolved.span_context().span_id, SPAN_ID);
    assert_eq!(resolved.span_context().trace_state, "k=v");
}

#[test]
fn create_context_mints_a_trace_without_a_valid_context() {
    let (trace_id, resolved) = create_context_with_trace(no_context());
    assert!(!resolved.is_parent());
    let minted = resolved.span_context();
    assert_eq!(minted.trace_id, trace_id);
    assert!(!minted.is_remote);
    assert_eq!(minted.trace_flags, 0);
    assert_eq!(minted.trace_state, "");
    assert_eq!(trace_id_text(trace_id).len(), 32);
}

#[test]
fn minted_trace_identifiers_vary() {
    let (first, _) = create_context_with_trace(no_context());
    let (second, _) = create_context_with_trace(no_context());
    let (third, _) = create_context_with_trace(context(0, SPAN_ID, 0, ""));
    assert_ne!(first, second);
    assert_ne!(second, third);
    assert_ne!(first, third);
    assert_ne!(trace_id_text(first), trace_id_text(second));
}

#[test]
fn minted_span_identifiers_vary() {
    let (_, first) = create_context_with_trace(no_context());
    let (_, second) = create_context_with_trace(no_context());
    assert_ne!(first.span_context().span_id, second.span_context().span_id);
}
