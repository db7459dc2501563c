//! The per-stream state machine: buffer every chunk, extract once at the end.

use vstd::prelude::*;
use crate::metrics::{report_of, report_usage, MetricHandles, MetricIncrement};
use crate::usage::{body_usage, parse_usage};

verus! {

/// The abstract state of an extractor.
pub struct ExtractorState {
    pub handles: MetricHandles,
    /// Every byte received so far, in arrival order.
    pub buffer: Seq<u8>,
    /// Set once the final chunk has been processed; no further change follows.
    pub completed: bool,
}

/// A fresh extractor's state: nothing buffered, still accumulating.
pub open spec fn fresh(h: MetricHandles) -> ExtractorState {
    ExtractorState { handles: h, buffer: Seq::empty(), completed: false }
}

/// One chunk delivery: the next state and the increments to report.
///
/// While accumulating, the chunk is appended; on the final chunk the whole
/// body is extracted and reported once. A completed extractor ignores
/// further chunks.
pub open spec fn step(s: ExtractorState, chunk: Seq<u8>, is_final: bool) -> (ExtractorState, Seq<
    MetricIncrement,
>) {
    if s.completed {
        (s, Seq::empty())
    } else if !is_final {
        (ExtractorState { handles: s.handles, buffer: s.buffer + chunk, completed: false }, Seq::empty())
    } else {
        let body = s.buffer + chunk;
        (
            ExtractorState { handles: s.handles, buffer: body, completed: true },
            report_of(s.handles, body_usage(body)),
        )
    }
}

/// Usage extraction for one HTTP response stream.
pub struct StreamUsageExtractor {
    handles: MetricHandles,
    buffer: Vec<u8>,
    completed: bool,
}

impl View for StreamUsageExtractor {
    type V = ExtractorState;

    closed spec fn view(&self) -> ExtractorState {
        ExtractorState { handles: self.handles, buffer: self.buffer@, completed: self.completed }
    }
}

impl StreamUsageExtractor {
    /// An extractor for a new stream that reports through `handles`.
    pub fn new(handles: MetricHandles) -> (r: StreamUsageExtractor)
        ensures
            r@ == fresh(handles),
    {
        let r = StreamUsageExtractor { handles, buffer: Vec::new(), completed: false };
        proof {
            assert(r@.buffer =~= Seq::<u8>::empty());
        }
        r
    }

    /// Whether the final chunk has been processed.
    pub fn is_completed(&self) -> (r: bool)
        ensures
            r == self@.completed,
    {
        self.completed
    }

    /// The bytes buffered so far.
    pub fn buffered(&self) -> (r: &[u8])
        ensures
            r@ == self@.buffer,
    {
        self.buffer.as_slice()
    }

    /// Delivers one chunk of the response body. Returns the increments that
    /// the host should apply: none before the final chunk, and after it the
    /// report of the whole body's usage, exactly once.
    pub fn on_chunk(&mut self, chunk: &[u8], is_final: bool) -> (r: Vec<MetricIncrement>)
        ensures
            (final(self)@, r@) == step(old(self)@, chunk@, is_final),
    {
        if self.completed {
            return Vec::new();
        }
        let mut i: usize = 0;
        while i < chunk.len()
            invariant
                0 <= i <= chunk@.len(),
                self.buffer@ == old(self).buffer@ + chunk@.subrange(0, i as int),
                self.handles == old(self).handles,
                self.completed == old(self).completed,
            decreases chunk@.len() - i,
        {
            self.buffer.push(chunk[i]);
            proof {
                assert(chunk@.subrange(0, i + 1) =~= chunk@.subrange(0, i as int).push(chunk@[i as int]));
            }
            i = i + 1;
        }
        proof {
            assert(chunk@.subrange(0, i as int) =~= chunk@);
        }
        if !is_final {
            return Vec::new();
        }
        self.completed = true;
        let usage = parse_usage(self.buffer.as_slice());
        report_usage(&self.handles, usage)
    }
}

} // verus!
