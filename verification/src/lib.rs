//! Trace-context propagation and batched span export for a chain of HTTP
//! services.
//!
//! A logical request crossing several services is reconstructed as one
//! distributed trace: a span is created per unit of work, its identity is
//! carried across network hops inside a textual header, and finished spans
//! are buffered and flushed to a collector in batches without blocking the
//! request path.

pub mod carrier;
pub mod codec;
pub mod host;
pub mod processor;
pub mod propagation;
pub mod span;
pub mod tracer;
