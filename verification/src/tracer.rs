//! The factory that creates spans and links them into a parent/child tree
//! per logical request. Sampling is always-on: a root span is sampled; a
//! child propagates its parent's flag unchanged.

use vstd::prelude::*;
use crate::host::{now_micros, random_u128, random_u64};
use crate::span::{Span, SpanContext, SpanStatus};

verus! {

/// Creates spans, stamping each with the service's name tag.
pub struct Tracer {
    pub service_name: String,
}

/// The fields of a span as `start_span` leaves them, apart from the
/// identifiers and the start time: open, status unset, one attribute
/// carrying the service name under the `service.name` key.
pub open spec fn fresh_span_shape(s: Span, t: Tracer, name: Seq<char>) -> bool {
    &&& s.name@ == name
    &&& s.end_time is None
    &&& s.status == SpanStatus::Unset
    &&& s.attributes@.len() == 1
    &&& s.attributes@[0].0@ == "service.name"@
    &&& s.attributes@[0].1@ == t.service_name@
    &&& s.wf()
}

/// A span context as a child span copies it: same trace, same sampling.
pub open spec fn child_of(s: Span, parent: SpanContext) -> bool {
    &&& s.context.trace_id == parent.trace_id
    &&& s.parent_span_id == Some(parent.span_id)
    &&& s.context.sampled == parent.sampled
}

/// A root span: no parent link, always sampled.
pub open spec fn is_root(s: Span) -> bool {
    &&& s.parent_span_id is None
    &&& s.context.sampled
}

impl Tracer {
    pub fn new(service_name: String) -> (t: Tracer)
        ensures
            t.service_name == service_name,
    {
        Tracer { service_name }
    }

    /// Build a span from identifiers chosen by the caller: with a parent
    /// context the trace id, the parent link and the sampling flag come
    /// from it; without one the span is a sampled root under
    /// `root_trace_id`. The span id is always the given fresh one.
    pub fn start_span_with_ids(
        &self,
        name: String,
        parent: Option<SpanContext>,
        root_trace_id: u128,
        fresh_span_id: u64,
        start_time: u64,
    ) -> (s: Span)
        ensures
            fresh_span_shape(s, *self, name@),
            s.start_time == start_time,
            s.context.span_id == fresh_span_id,
            (match parent {
                Some(p) => child_of(s, p),
                None => is_root(s) && s.context.trace_id == root_trace_id,
            }),
    {
        let (trace_id, parent_span_id, sampled) = match parent {
            Some(p) => (p.trace_id, Some(p.span_id), p.sampled),
            None => (root_trace_id, None, true),
        };
        let mut attributes: Vec<(String, String)> = Vec::new();
        attributes.push((String::from_str("service.name"), self.service_name.clone()));
        Span {
            context: SpanContext { trace_id, span_id: fresh_span_id, sampled },
            parent_span_id,
            name,
            start_time,
            end_time: None,
            attributes,
            status: SpanStatus::Unset,
        }
    }

    /// Start a span for a unit of work that begins now. The trace id of a
    /// root and the span id are drawn fresh at random; their values carry
    /// no promise beyond what every outcome satisfies.
    pub fn start_span(&self, name: String, parent: Option<SpanContext>) -> (s: Span)
        ensures
            fresh_span_shape(s, *self, name@),
            (match parent {
                Some(p) => child_of(s, p),
                None => is_root(s),
            }),
    {
        let root_trace_id = random_u128();
        let fresh_span_id = random_u64();
        let start_time = now_micros();
        self.start_span_with_ids(name, parent, root_trace_id, fresh_span_id, start_time)
    }
}

} // verus!
