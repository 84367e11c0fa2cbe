use hoptrace::carrier::{extract, Carrier, TRACE_HEADER};
use hoptrace::codec::encode;
use hoptrace::propagation::{start_inbound, start_outbound};
use hoptrace::span::SpanContext;
use hoptrace::tracer::Tracer;

const HEADER: &str = "v1-4bf92f3577b34da6a3ce929d0e0e4736-00f067aa0ba902b7-01";

#[test]
fn header_name_is_canonical() {
    assert_eq!(TRACE_HEADER, "traceparent");
}

#[test]
fn extract_reads_valid_header() {
    let ctx = extract(Some(HEADER.as_bytes())).unwrap();
    assert_eq!(ctx.trace_id, 0x4bf92f3577b34da6a3ce929d0e0e4736u128);
    assert_eq!(ctx.span_id, 0x00f067aa0ba902b7u64);
    assert!(ctx.sampled);
}

#[test]
fn extract_degrades_gracefully() {
    assert!(extract(None).is_none());
    assert!(extract(Some(b"not a header")).is_none());
    assert!(extract(Some(b"")).is_none());
}

#[test]
fn inject_writes_current_span_context() {
    let tracer = Tracer::new("svc".to_string());
    let span = tracer.start_span_with_ids(
        "work".to_string(),
        None,
        0x4bf92f3577b34da6a3ce929d0e0e4736,
        0x00f067aa0ba902b7,
        10,
    );
    let cx = Carrier::empty().with_span(span);
    let value = cx.inject().unwrap();
    assert_eq!(String::from_utf8(value).unwrap(), HEADER);
}

#[test]
fn inject_empty_carrier_writes_nothing() {
    assert!(Carrier::empty().inject().is_none());
}

#[test]
fn inject_then_extract_round_trips() {
    let tracer = Tracer::new("svc".to_string());
    let span = tracer.start_span("work".to_string(), None);
    let ctx = span.context;
    let cx = Carrier::empty().with_span(span);
    let value = cx.inject().unwrap();
    assert_eq!(extract(Some(&value)), Some(ctx));
}

#[test]
fn carrier_hands_its_span_back() {
    let tracer = Tracer::new("svc".to_string());
    let span = tracer.start_span("work".to_string(), None);
    let ctx = span.context;
    let cx = Carrier::empty().with_span(span);
    assert_eq!(cx.current_span().as_ref().unwrap().context, ctx);
    let back = cx.into_span().unwrap();
    assert_eq!(back.context, ctx);
}

#[test]
fn inbound_with_header_resumes_the_trace() {
    let tracer = Tracer::new("repeater-api".to_string());
    let s = start_inbound(&tracer, Some(HEADER.as_bytes()), "HTTP GET /".to_string());
    assert_eq!(s.context.trace_id, 0x4bf92f3577b34da6a3ce929d0e0e4736u128);
    assert_eq!(s.parent_span_id, Some(0x00f067aa0ba902b7u64));
    assert!(s.context.sampled);
}

#[test]
fn inbound_without_header_starts_a_root() {
    let tracer = Tracer::new("awesome-api".to_string());
    let a = start_inbound(&tracer, None, "HTTP GET /".to_string());
    assert!(a.parent_span_id.is_none());
    assert!(a.context.sampled);
    let b = start_inbound(&tracer, None, "HTTP GET /".to_string());
    assert_ne!(a.context.trace_id, b.context.trace_id);
}

#[test]
fn inbound_with_malformed_header_starts_a_root() {
    let tracer = Tracer::new("svc".to_string());
    let s = start_inbound(&tracer, Some(b"v1-garbage"), "HTTP GET /".to_string());
    assert!(s.parent_span_id.is_none());
    assert!(s.context.sampled);
}

#[test]
fn outbound_carries_the_child_context() {
    let tracer = Tracer::new("awesome-api".to_string());
    let parent = start_inbound(&tracer, Some(HEADER.as_bytes()), "HTTP GET /".to_string());
    let parent_span_id = parent.context.span_id;
    let (child, header) = start_outbound(
        &tracer,
        &Some(parent),
        "Call repeater-api".to_string(),
    );
    assert_eq!(child.context.trace_id, 0x4bf92f3577b34da6a3ce929d0e0e4736u128);
    assert_eq!(child.parent_span_id, Some(parent_span_id));
    assert_eq!(header, encode(&child.context));
    let decoded = extract(Some(&header)).unwrap();
    assert_eq!(decoded, child.context);
}

#[test]
fn outbound_without_current_span_starts_a_root() {
    let tracer = Tracer::new("svc".to_string());
    let (child, header) = start_outbound(&tracer, &None, "call".to_string());
    assert!(child.parent_span_id.is_none());
    assert_eq!(extract(Some(&header)), Some(child.context));
}

#[test]
fn distinct_requests_do_not_share_context() {
    let tracer = Tracer::new("svc".to_string());
    let one = Carrier::empty().with_span(tracer.start_span("one".to_string(), None));
    let two = Carrier::empty().with_span(tracer.start_span("two".to_string(), None));
    let c1 = one.current_span().as_ref().unwrap().context;
    let c2 = two.current_span().as_ref().unwrap().context;
    assert_ne!(c1.trace_id, c2.trace_id);
}

#[test]
fn context_for_unknown_parent() {
    // A parent context built by hand, as a remote service would have sent it.
    let parent = SpanContext { trace_id: 3, span_id: 4, sampled: false };
    let tracer = Tracer::new("svc".to_string());
    let s = tracer.start_span("w".to_string(), Some(parent));
    assert_eq!(s.context.trace_id, 3);
    assert!(!s.context.sampled);
}
