//! Counter handles and the increments that report a usage record.

use vstd::prelude::*;
use crate::usage::UsageRecord;

verus! {

/// The host's handles of the three token counters. Registered once at
/// startup and shared read-only by every extractor.
#[derive(Clone, Copy, Debug, PartialEq, Eq, Structural)]
pub struct MetricHandles {
    pub prompt: u32,
    pub completion: u32,
    pub total: u32,
}

/// One request to the host: add `amount` to the counter behind `handle`.
#[derive(Clone, Copy, Debug, PartialEq, Eq, Structural)]
pub struct MetricIncrement {
    pub handle: u32,
    pub amount: i64,
}

impl MetricHandles {
    /// Whether the three handles name three different counters.
    pub open spec fn distinct(self) -> bool {
        &&& self.prompt != self.completion
        &&& self.prompt != self.total
        &&& self.completion != self.total
    }

    pub fn new(prompt: u32, completion: u32, total: u32) -> (r: MetricHandles)
        ensures
            r == (MetricHandles { prompt, completion, total }),
    {
        MetricHandles { prompt, completion, total }
    }

    /// Gathers the outcome of registering the three counters. Any rejected
    /// registration makes the whole set unusable, and gives `None`.
    pub fn from_registrations(prompt: Option<u32>, completion: Option<u32>, total: Option<u32>) -> (r:
        Option<MetricHandles>)
        ensures
            r == (match (prompt, completion, total) {
                (Some(p), Some(c), Some(t)) => Some(
                    MetricHandles { prompt: p, completion: c, total: t },
                ),
                _ => None,
            }),
    {
        match (prompt, completion, total) {
            (Some(p), Some(c), Some(t)) => Some(MetricHandles::new(p, c, t)),
            _ => None,
        }
    }
}

/// The increments that report a usage record: prompt, completion, total, in
/// that order; none when there is no record.
pub open spec fn report_of(h: MetricHandles, usage: Option<UsageRecord>) -> Seq<MetricIncrement> {
    match usage {
        Some(u) => seq![
            MetricIncrement { handle: h.prompt, amount: u.prompt_tokens },
            MetricIncrement { handle: h.completion, amount: u.completion_tokens },
            MetricIncrement { handle: h.total, amount: u.total_tokens },
        ],
        None => Seq::empty(),
    }
}

/// How much a sequence of increments adds to the counter behind `handle`.
pub open spec fn counter_delta(incs: Seq<MetricIncrement>, handle: u32) -> int
    decreases incs.len(),
{
    if incs.len() == 0 {
        0
    } else {
        let last = incs.last();
        counter_delta(incs.drop_last(), handle) + if last.handle == handle {
            last.amount as int
        } else {
            0
        }
    }
}

/// Builds the increments that report `usage` through the handles `h`.
pub fn report_usage(h: &MetricHandles, usage: Option<UsageRecord>) -> (r: Vec<MetricIncrement>)
    ensures
        r@ == report_of(*h, usage),
{
    let mut out: Vec<MetricIncrement> = Vec::new();
    if let Some(u) = usage {
        out.push(MetricIncrement { handle: h.prompt, amount: u.prompt_tokens });
        out.push(MetricIncrement { handle: h.completion, amount: u.completion_tokens });
        out.push(MetricIncrement { handle: h.total, amount: u.total_tokens });
    }
    proof {
        assert(out@ =~= report_of(*h, usage));
    }
    out
}

} // verus!
