//! In-process data model: the identity of a span, and the span record that
//! is handed to the export pipeline once the unit of work has ended.

use vstd::prelude::*;

verus! {

/// The identity of "where we are" in a trace: the trace the work belongs
/// to, the span doing the work, and whether the trace is sampled. Immutable;
/// passed by value across process boundaries.
#[derive(Clone, Copy, PartialEq, Eq, Structural, Debug)]
pub struct SpanContext {
    /// 128-bit value shared by every span of one logical request.
    pub trace_id: u128,
    /// 64-bit value identifying one unit of work within the trace.
    pub span_id: u64,
    /// Whether the trace is recorded; propagated unchanged to children.
    pub sampled: bool,
}

/// Outcome recorded on a span by the owning execution path.
#[derive(Clone, Copy, PartialEq, Eq, Structural, Debug)]
pub enum SpanStatus {
    Unset,
    Okay,
    Failed,
}

/// One timed unit of work. Open while `end_time` is `None`; ending it sets
/// `end_time` and hands the record to the processor exactly once, after
/// which it is never mutated again.
#[derive(Clone, PartialEq, Eq, Debug)]
pub struct Span {
    pub context: SpanContext,
    /// Identity link to the parent span, never a live reference; `None` for
    /// a root span.
    pub parent_span_id: Option<u64>,
    pub name: String,
    /// Microseconds since the Unix epoch.
    pub start_time: u64,
    /// `None` while the span is open.
    pub end_time: Option<u64>,
    /// Insertion order is irrelevant; keys are unique.
    pub attributes: Vec<(String, String)>,
    pub status: SpanStatus,
}

/// Keys of an attribute list are pairwise distinct.
pub open spec fn keys_unique(attrs: Seq<(String, String)>) -> bool {
    forall|i: int, j: int|
        0 <= i < j < attrs.len() ==> attrs[i].0@ != attrs[j].0@
}

impl Span {
    /// A span with an `end_time` is finished and read-only.
    pub open spec fn is_ended(self) -> bool {
        self.end_time is Some
    }

    pub open spec fn wf(self) -> bool {
        keys_unique(self.attributes@)
    }

    /// Record the outcome of the unit of work; every other field is kept.
    pub fn set_status(&mut self, status: SpanStatus)
        ensures
            *final(self) == (Span { status, ..*old(self) }),
    {
        self.status = status;
    }

    /// Set `key` to `value`: the entry with the same key is replaced if one
    /// exists, else the pair is appended. Keys stay unique.
    pub fn set_attribute(&mut self, key: String, value: String)
        requires
            old(self).wf(),
        ensures
            final(self).wf(),
            final(self).context == old(self).context,
            final(self).parent_span_id == old(self).parent_span_id,
            final(self).name == old(self).name,
            final(self).start_time == old(self).start_time,
            final(self).end_time == old(self).end_time,
            final(self).status == old(self).status,
            (forall|i: int|
                0 <= i < old(self).attributes@.len() ==> old(self).attributes@[i].0@ != key@)
                ==> final(self).attributes@ == old(self).attributes@.push((key, value)),
            forall|i: int|
                0 <= i < old(self).attributes@.len() && old(self).attributes@[i].0@ == key@
                    ==> final(self).attributes@ == old(self).attributes@.update(i, (key, value)),
    {
        let n = self.attributes.len();
        let mut i: usize = 0;
        while i < n
            invariant
                *self == *old(self),
                self.wf(),
                n == self.attributes@.len(),
                i <= n,
                forall|k: int| 0 <= k < i ==> self.attributes@[k].0@ != key@,
            decreases n - i,
        {
            if self.attributes[i].0 == key {
                self.attributes[i] = (key, value);
                proof {
                    let oldseq = old(self).attributes@;
                    let newseq = self.attributes@;
                    assert(newseq == oldseq.update(i as int, (key, value)));
                    assert forall|k: int|
                        0 <= k < oldseq.len() && oldseq[k].0@ == key@
                            implies newseq == oldseq.update(k, (key, value)) by {
                        if k != i as int {
                            assert(oldseq[k].0@ != oldseq[i as int].0@);
                        }
                    };
                    assert(newseq.len() == oldseq.len());
                    assert forall|a: int, b: int|
                        0 <= a < b < newseq.len() implies newseq[a].0@ != newseq[b].0@ by {
                        assert(0 <= a < oldseq.len() && 0 <= b < oldseq.len());
                        assert(oldseq[a].0@ != oldseq[b].0@);
                        assert(oldseq[i as int].0@ == key@);
                        if a == i as int {
                            assert(newseq[b] == oldseq[b]);
                        } else if b == i as int {
                            assert(newseq[a] == oldseq[a]);
                        } else {
                            assert(newseq[a] == oldseq[a] && newseq[b] == oldseq[b]);
                        }
                    };
                }
                return ;
            }
            i = i + 1;
        }
        self.attributes.push((key, value));
    }
}

} // verus!
