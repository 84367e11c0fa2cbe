//! The boundary glue between the codec, the tracer and the HTTP layer:
//! resume a trace from an inbound request's header, and carry one onto an
//! outgoing request. The route handlers around these calls are not part of
//! the library; they only pass header values in and out.

use vstd::prelude::*;
use crate::carrier::{extract, extract_spec};
use crate::codec::{encode, encode_spec};
use crate::span::Span;
use crate::tracer::{child_of, fresh_span_shape, is_root, Tracer};

verus! {

/// Start the span for an inbound request. With a present, well-formed
/// propagation header the new span resumes that trace as a child; with an
/// absent or malformed header it is a fresh sampled root.
pub fn start_inbound(tracer: &Tracer, header: Option<&[u8]>, name: String) -> (s: Span)
    ensures
        fresh_span_shape(s, *tracer, name@),
        (match header {
            Some(h) => (match extract_spec(h@) {
                Some(p) => child_of(s, p),
                None => is_root(s),
            }),
            None => is_root(s),
        }),
{
    let parent = extract(header);
    tracer.start_span(name, parent)
}

/// Start the child span for a call to a downstream service, and the
/// header value that carries its context onto the outgoing request. With
/// no current span the child is a fresh sampled root.
pub fn start_outbound(tracer: &Tracer, current: &Option<Span>, name: String) -> (r: (Span, Vec<u8>))
    ensures
        fresh_span_shape(r.0, *tracer, name@),
        (match current {
            Some(parent) => child_of(r.0, parent.context),
            None => is_root(r.0),
        }),
        r.1@ == encode_spec(r.0.context),
{
    let parent = match current {
        Some(sp) => Some(sp.context),
        None => None,
    };
    let s = tracer.start_span(name, parent);
    let h = encode(&s.context);
    (s, h)
}

} // verus!
