//! The immutable handle that makes "the current span" available to nested
//! operations of one request without any global mutable lookup: it is
//! passed explicitly along the call path, so concurrent requests cannot
//! interfere. It can be written into an outgoing request's headers and
//! read back from an incoming one.

use vstd::prelude::*;
use crate::codec::{decode, decode_spec, encode, encode_spec};
use crate::span::{Span, SpanContext};

verus! {

/// The canonical header that carries an encoded `SpanContext`.
pub const TRACE_HEADER: &'static str = "traceparent";

/// What extraction yields for a present header value: the decoded context,
/// or nothing when the value is malformed — propagation degrades
/// gracefully, it never breaks the request path.
pub open spec fn extract_spec(h: Seq<u8>) -> Option<SpanContext> {
    match decode_spec(h) {
        Ok(ctx) => Some(ctx),
        Err(_) => None,
    }
}

/// An immutable snapshot holding the current span, possibly none. A
/// derived carrier is a new, independent value; the one it was derived
/// from is never touched.
pub struct Carrier {
    pub current: Option<Span>,
}

impl Carrier {
    /// A carrier with no current span: the state outside any traced work.
    pub fn empty() -> (c: Carrier)
        ensures
            c.current is None,
    {
        Carrier { current: None }
    }

    /// A new carrier whose current span is `span`; `self` is unchanged.
    pub fn with_span(&self, span: Span) -> (c: Carrier)
        ensures
            c.current == Some(span),
    {
        Carrier { current: Some(span) }
    }

    /// The span nested operations should attach to, if any.
    pub fn current_span(&self) -> (s: &Option<Span>)
        ensures
            *s == self.current,
    {
        &self.current
    }

    /// Give up the carrier and hand its span back to the caller, so the
    /// span can be ended when the unit of work is over.
    pub fn into_span(self) -> (s: Option<Span>)
        ensures
            s == self.current,
    {
        self.current
    }

    /// The header value to write into an outgoing request: the encoded
    /// context of the current span, or nothing when no span is current.
    pub fn inject(&self) -> (h: Option<Vec<u8>>)
        ensures
            (match self.current {
                Some(sp) => h matches Some(v) && v@ == encode_spec(sp.context),
                None => h is None,
            }),
    {
        match &self.current {
            Some(sp) => Some(encode(&sp.context)),
            None => None,
        }
    }
}

/// Read a parent context out of an incoming request's header value. An
/// absent or malformed header yields `None` — "no parent", never an error.
pub fn extract(header: Option<&[u8]>) -> (r: Option<SpanContext>)
    ensures
        (match header {
            Some(h) => r == extract_spec(h@),
            None => r is None,
        }),
{
    match header {
        Some(h) => match decode(h) {
            Ok(ctx) => Some(ctx),
            Err(_) => None,
        },
        None => None,
    }
}

} // verus!
