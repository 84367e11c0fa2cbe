//! The batch span processor: a bounded buffer of finished spans, flushed
//! in batches, with counted overflow and export-failure drops. The network
//! call itself is the caller's: the processor only decides — it buffers,
//! hands out batches, computes retry backoffs and accounts for every span
//! it was given, so submission never blocks a request thread.

use vstd::prelude::*;
use crate::span::Span;

verus! {

/// Double end of a span: a caller bug, reported, never submitted twice.
#[derive(Clone, Copy, PartialEq, Eq, Structural, Debug)]
pub struct InvalidState;

/// What became of one submitted span.
#[derive(Clone, Copy, PartialEq, Eq, Structural, Debug)]
pub enum SubmitOutcome {
    /// Appended to the buffer; it will leave with some later batch.
    Accepted,
    /// The buffer was at capacity: the incoming span is rejected and
    /// counted (drop-newest overflow policy).
    DroppedOverflow,
    /// Submitted after shutdown began: rejected and counted.
    DroppedShutdown,
}

/// Where the pipeline stands. A fresh processor is already buffering.
#[derive(Clone, Copy, PartialEq, Eq, Structural, Debug)]
pub enum ProcState {
    /// Accepting spans into the buffer.
    Buffering,
    /// A batch is out with the exporter; new spans still buffer.
    Flushing,
    /// No longer accepting; the final flush is under way.
    ShuttingDown,
    /// Shut down; every later submission is dropped and counted.
    Stopped,
}

/// The configuration surface the pipeline consumes.
#[derive(Clone, Copy, PartialEq, Eq, Structural, Debug)]
pub struct ProcessorConfig {
    /// Bound of the submission buffer; beyond it spans are dropped.
    pub capacity: usize,
    /// Buffer size at which a flush is due before the interval elapses.
    pub batch_threshold: usize,
    /// A flush is due whenever this much time has passed since the last.
    pub flush_interval_micros: u64,
    /// How many times a failed export is retried before the batch is dropped.
    pub max_retries: u32,
    /// Backoff before the first retry; it doubles with each further one.
    pub backoff_base_micros: u64,
    /// Bound on how long shutdown may wait for its final flush.
    pub shutdown_timeout_micros: u64,
}

impl ProcessorConfig {
    pub open spec fn wf(self) -> bool {
        self.capacity >= 1 && self.batch_threshold >= 1
    }
}

/// The backoff before retry number `attempt + 1`: the base doubled
/// `attempt` times, saturating at `u64::MAX`.
pub open spec fn backoff_spec(base: u64, attempt: nat) -> int
    decreases attempt,
{
    if attempt == 0 {
        base as int
    } else {
        let p = backoff_spec(base, (attempt - 1) as nat);
        if p > u64::MAX / 2 {
            u64::MAX as int
        } else {
            2 * p
        }
    }
}

/// Buffers finished spans and accounts for every one of them.
pub struct BatchProcessor {
    pub config: ProcessorConfig,
    pub state: ProcState,
    /// Finished spans awaiting export; owned exclusively by the processor.
    pub buffer: Vec<Span>,
    /// How many spans were ever submitted.
    pub submitted: u64,
    /// How many submissions entered the buffer.
    pub accepted: u64,
    /// How many submissions were rejected, by overflow or after shutdown.
    pub dropped: u64,
    /// How many batches were abandoned after their retries ran out.
    pub export_failures: u64,
    /// How many spans left in successfully exported batches.
    pub exported_spans: u64,
}

impl BatchProcessor {
    /// The buffer respects its bound, and no span is lost from the count:
    /// every submission was either accepted or dropped.
    pub open spec fn wf(self) -> bool {
        &&& self.config.wf()
        &&& self.buffer@.len() <= self.config.capacity
        &&& self.accepted as int + self.dropped as int == self.submitted as int
    }

    /// The processor is accepting submissions into its buffer.
    pub open spec fn accepting(self) -> bool {
        self.state == ProcState::Buffering || self.state == ProcState::Flushing
    }

    /// No span is ever lost silently, however many submissions raced for
    /// the buffer: in every reachable processor state the accepted and the
    /// dropped (observable) counts add up to everything ever submitted.
    /// Reachable states satisfy `wf`: `new` establishes it and every
    /// method keeps it.
    pub proof fn lemma_submission_accounting(self)
        requires
            self.wf(),
        ensures
            self.accepted as int + self.dropped as int == self.submitted as int,
    {
    }

    pub fn new(config: ProcessorConfig) -> (p: BatchProcessor)
        requires
            config.wf(),
        ensures
            p.wf(),
            p.config == config,
            p.state == ProcState::Buffering,
            p.buffer@.len() == 0,
            p.submitted == 0 && p.accepted == 0 && p.dropped == 0,
            p.export_failures == 0 && p.exported_spans == 0,
    {
        BatchProcessor {
            config,
            state: ProcState::Buffering,
            buffer: Vec::new(),
            submitted: 0,
            accepted: 0,
            dropped: 0,
            export_failures: 0,
            exported_spans: 0,
        }
    }

    /// Offer one finished span to the pipeline. Never blocks: the span is
    /// appended if the processor accepts and the bounded buffer has room,
    /// and otherwise rejected and counted. Exactly one of `accepted` and
    /// `dropped` grows, by one, on every call.
    pub fn submit(&mut self, span: Span) -> (r: SubmitOutcome)
        requires
            old(self).wf(),
            old(self).submitted < u64::MAX,
        ensures
            final(self).wf(),
            final(self).config == old(self).config,
            final(self).state == old(self).state,
            final(self).submitted == old(self).submitted + 1,
            final(self).export_failures == old(self).export_failures,
            final(self).exported_spans == old(self).exported_spans,
            !old(self).accepting() ==> r == SubmitOutcome::DroppedShutdown
                && final(self).buffer == old(self).buffer
                && final(self).dropped == old(self).dropped + 1
                && final(self).accepted == old(self).accepted,
            old(self).accepting() && old(self).buffer@.len() == old(self).config.capacity ==> r
                == SubmitOutcome::DroppedOverflow
                && final(self).buffer == old(self).buffer
                && final(self).dropped == old(self).dropped + 1
                && final(self).accepted == old(self).accepted,
            old(self).accepting() && old(self).buffer@.len() < old(self).config.capacity ==> r
                == SubmitOutcome::Accepted
                && final(self).buffer@ == old(self).buffer@.push(span)
                && final(self).accepted == old(self).accepted + 1
                && final(self).dropped == old(self).dropped,
    {
        self.submitted = self.submitted + 1;
        match self.state {
            ProcState::ShuttingDown | ProcState::Stopped => {
                self.dropped = self.dropped + 1;
                SubmitOutcome::DroppedShutdown
            },
            ProcState::Buffering | ProcState::Flushing => {
                if self.buffer.len() == self.config.capacity {
                    self.dropped = self.dropped + 1;
                    SubmitOutcome::DroppedOverflow
                } else {
                    self.buffer.push(span);
                    self.accepted = self.accepted + 1;
                    SubmitOutcome::Accepted
                }
            },
        }
    }

    /// Whether the flush loop should wake: the buffer reached the batch
    /// threshold, or the flush interval elapsed since the last flush.
    pub fn flush_due(&self, elapsed_micros: u64) -> (r: bool)
        ensures
            r == (self.buffer@.len() >= self.config.batch_threshold || elapsed_micros
                >= self.config.flush_interval_micros),
    {
        self.buffer.len() >= self.config.batch_threshold || elapsed_micros
            >= self.config.flush_interval_micros
    }

    /// Swap the buffer out for an empty one and move to `Flushing`. The
    /// swap is the whole exclusive-access window: the caller exports the
    /// returned batch outside of it.
    pub fn take_batch(&mut self) -> (batch: Vec<Span>)
        requires
            old(self).wf(),
            old(self).state == ProcState::Buffering,
        ensures
            final(self).wf(),
            batch == old(self).buffer,
            final(self).buffer@.len() == 0,
            final(self).state == ProcState::Flushing,
            final(self).config == old(self).config,
            final(self).submitted == old(self).submitted,
            final(self).accepted == old(self).accepted,
            final(self).dropped == old(self).dropped,
            final(self).export_failures == old(self).export_failures,
            final(self).exported_spans == old(self).exported_spans,
    {
        let mut batch: Vec<Span> = Vec::new();
        core::mem::swap(&mut batch, &mut self.buffer);
        self.state = ProcState::Flushing;
        batch
    }

    /// The batch out for export reached the collector: discard it for good
    /// and return to buffering.
    pub fn export_succeeded(&mut self, batch_len: u64)
        requires
            old(self).wf(),
            old(self).state == ProcState::Flushing,
            old(self).exported_spans as int + batch_len as int <= u64::MAX,
        ensures
            final(self).wf(),
            final(self).state == ProcState::Buffering,
            final(self).exported_spans == old(self).exported_spans + batch_len,
            final(self).config == old(self).config,
            final(self).buffer == old(self).buffer,
            final(self).submitted == old(self).submitted,
            final(self).accepted == old(self).accepted,
            final(self).dropped == old(self).dropped,
            final(self).export_failures == old(self).export_failures,
    {
        self.exported_spans = self.exported_spans + batch_len;
        self.state = ProcState::Buffering;
    }

    /// Every retry of the batch out for export failed: the batch is
    /// dropped, the failure is counted, and buffering resumes — export
    /// failure never propagates back to request handling.
    pub fn export_failed(&mut self)
        requires
            old(self).wf(),
            old(self).state == ProcState::Flushing,
            old(self).export_failures < u64::MAX,
        ensures
            final(self).wf(),
            final(self).state == ProcState::Buffering,
            final(self).export_failures == old(self).export_failures + 1,
            final(self).config == old(self).config,
            final(self).buffer == old(self).buffer,
            final(self).submitted == old(self).submitted,
            final(self).accepted == old(self).accepted,
            final(self).dropped == old(self).dropped,
            final(self).exported_spans == old(self).exported_spans,
    {
        self.export_failures = self.export_failures + 1;
        self.state = ProcState::Buffering;
    }

    /// How long to wait before retry number `attempt + 1` of a failed
    /// export: exponential backoff from the configured base, `None` once
    /// the bounded retry count is exhausted.
    pub fn retry_backoff(&self, attempt: u32) -> (r: Option<u64>)
        ensures
            attempt < self.config.max_retries ==> r == Some(
                backoff_spec(self.config.backoff_base_micros, attempt as nat) as u64,
            ),
            attempt >= self.config.max_retries ==> r is None,
    {
        if attempt >= self.config.max_retries {
            return None;
        }
        let mut wait: u64 = self.config.backoff_base_micros;
        let mut k: u32 = 0;
        while k < attempt
            invariant
                k <= attempt,
                wait as int == backoff_spec(self.config.backoff_base_micros, k as nat),
            decreases attempt - k,
        {
            if wait > u64::MAX / 2 {
                wait = u64::MAX;
            } else {
                wait = wait * 2;
            }
            k = k + 1;
        }
        Some(wait)
    }

    /// Stop accepting new submissions and hand back whatever is still
    /// buffered for one final, best-effort flush.
    pub fn begin_shutdown(&mut self) -> (pending: Vec<Span>)
        requires
            old(self).wf(),
            old(self).state == ProcState::Buffering || old(self).state == ProcState::Flushing,
        ensures
            final(self).wf(),
            final(self).state == ProcState::ShuttingDown,
            pending == old(self).buffer,
            final(self).buffer@.len() == 0,
            final(self).config == old(self).config,
            final(self).submitted == old(self).submitted,
            final(self).accepted == old(self).accepted,
            final(self).dropped == old(self).dropped,
            final(self).export_failures == old(self).export_failures,
            final(self).exported_spans == old(self).exported_spans,
    {
        let mut pending: Vec<Span> = Vec::new();
        core::mem::swap(&mut pending, &mut self.buffer);
        self.state = ProcState::ShuttingDown;
        pending
    }

    /// The final flush is over (delivered, failed, or timed out): the
    /// pipeline reaches `Stopped`.
    pub fn finish_shutdown(&mut self)
        requires
            old(self).wf(),
            old(self).state == ProcState::ShuttingDown,
        ensures
            final(self).wf(),
            final(self).state == ProcState::Stopped,
            final(self).config == old(self).config,
            final(self).buffer == old(self).buffer,
            final(self).submitted == old(self).submitted,
            final(self).accepted == old(self).accepted,
            final(self).dropped == old(self).dropped,
            final(self).export_failures == old(self).export_failures,
            final(self).exported_spans == old(self).exported_spans,
    {
        self.state = ProcState::Stopped;
    }

    /// How ending an open span `span` with end time `et` moves the
    /// processor from `pre` to `post`: exactly one submission of the
    /// ended span, whose outcome tells truthfully what became of it.
    pub open spec fn end_submit_step(
        pre: BatchProcessor,
        post: BatchProcessor,
        span: Span,
        et: u64,
        outcome: SubmitOutcome,
    ) -> bool {
        let ended = Span { end_time: Some(et), ..span };
        &&& post.submitted == pre.submitted + 1
        &&& post.state == pre.state
        &&& post.config == pre.config
        &&& post.export_failures == pre.export_failures
        &&& post.exported_spans == pre.exported_spans
        &&& (match outcome {
            SubmitOutcome::Accepted => pre.accepting() && pre.buffer@.len() < pre.config.capacity
                && post.buffer@ == pre.buffer@.push(ended) && post.accepted == pre.accepted + 1
                && post.dropped == pre.dropped,
            SubmitOutcome::DroppedOverflow => pre.accepting() && pre.buffer@.len()
                == pre.config.capacity && post.buffer == pre.buffer && post.dropped == pre.dropped
                + 1 && post.accepted == pre.accepted,
            SubmitOutcome::DroppedShutdown => !pre.accepting() && post.buffer == pre.buffer
                && post.dropped == pre.dropped + 1 && post.accepted == pre.accepted,
        })
    }

    /// End an open span and hand it to the pipeline: its end time is set,
    /// it is submitted exactly once, and it is never touched again — the
    /// processor takes ownership. A span that is already ended (only a
    /// copy of an ended one can be) is `InvalidState`: nothing is
    /// submitted and the processor does not change.
    pub fn end_span_at(&mut self, span: Span, end_time: u64) -> (r: Result<
        SubmitOutcome,
        InvalidState,
    >)
        requires
            old(self).wf(),
            old(self).submitted < u64::MAX,
        ensures
            final(self).wf(),
            span.is_ended() ==> r == Err::<SubmitOutcome, InvalidState>(InvalidState)
                && *final(self) == *old(self),
            !span.is_ended() ==> (match r {
                Ok(outcome) => BatchProcessor::end_submit_step(
                    *old(self),
                    *final(self),
                    span,
                    end_time,
                    outcome,
                ),
                Err(_) => false,
            }),
    {
        if span.end_time.is_some() {
            return Err(InvalidState);
        }
        let mut ended = span;
        ended.end_time = Some(end_time);
        let outcome = self.submit(ended);
        Ok(outcome)
    }

    /// End an open span now and hand it to the pipeline; the end time is
    /// read from the wall clock, so only its exact value is left open
    /// here — the span is submitted exactly once, and the outcome tells
    /// truthfully what became of it.
    pub fn end_span(&mut self, span: Span) -> (r: Result<SubmitOutcome, InvalidState>)
        requires
            old(self).wf(),
            old(self).submitted < u64::MAX,
        ensures
            final(self).wf(),
            span.is_ended() ==> r == Err::<SubmitOutcome, InvalidState>(InvalidState)
                && *final(self) == *old(self),
            !span.is_ended() ==> (match r {
                Ok(outcome) => (exists|et: u64|
                    BatchProcessor::end_submit_step(*old(self), *final(self), span, et, outcome)),
                Err(_) => false,
            }),
    {
        let end_time = crate::host::now_micros();
        self.end_span_at(span, end_time)
    }
}

} // verus!
