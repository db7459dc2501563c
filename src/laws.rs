//! Properties of the extractor that hold for all inputs.

use vstd::prelude::*;
use crate::extractor::{fresh, step, ExtractorState};
use crate::json::{json_of, members, utf8_text};
use crate::metrics::{counter_delta, report_of, MetricHandles, MetricIncrement};
use crate::usage::{body_usage, completion_key, int_member, prompt_key, total_key, usage_key, UsageRecord};

verus! {

/// The bytes of a sequence of chunks, joined in order.
pub open spec fn joined(chunks: Seq<Seq<u8>>) -> Seq<u8>
    decreases chunks.len(),
{
    if chunks.len() == 0 {
        Seq::empty()
    } else {
        joined(chunks.drop_last()) + chunks.last()
    }
}

/// Delivers the chunks in order, none of them final: the resulting state and
/// every increment reported on the way.
pub open spec fn feed(s: ExtractorState, chunks: Seq<Seq<u8>>) -> (ExtractorState, Seq<MetricIncrement>)
    decreases chunks.len(),
{
    if chunks.len() == 0 {
        (s, Seq::empty())
    } else {
        let (s1, out1) = feed(s, chunks.drop_last());
        let (s2, out2) = step(s1, chunks.last(), false);
        (s2, out1 + out2)
    }
}

/// The prompt tokens that a usage record adds; zero without a record.
pub open spec fn prompt_count(u: Option<UsageRecord>) -> int {
    match u {
        Some(r) => r.prompt_tokens as int,
        None => 0,
    }
}

/// The completion tokens that a usage record adds; zero without a record.
pub open spec fn completion_count(u: Option<UsageRecord>) -> int {
    match u {
        Some(r) => r.completion_tokens as int,
        None => 0,
    }
}

/// The total tokens that a usage record adds; zero without a record.
pub open spec fn total_count(u: Option<UsageRecord>) -> int {
    match u {
        Some(r) => r.total_tokens as int,
        None => 0,
    }
}

proof fn lemma_feed_accumulates(s: ExtractorState, chunks: Seq<Seq<u8>>)
    requires
        !s.completed,
    ensures
        feed(s, chunks) == (
        ExtractorState { handles: s.handles, buffer: s.buffer + joined(chunks), completed: false },
        Seq::<MetricIncrement>::empty()),
    decreases chunks.len(),
{
    if chunks.len() == 0 {
        assert(s.buffer + joined(chunks) =~= s.buffer);
    } else {
        lemma_feed_accumulates(s, chunks.drop_last());
        assert(s.buffer + joined(chunks.drop_last()) + chunks.last() =~= s.buffer + joined(chunks));
        assert(Seq::<MetricIncrement>::empty() + Seq::<MetricIncrement>::empty() =~= Seq::<
            MetricIncrement,
        >::empty());
    }
}

/// Buffering does not depend on chunk boundaries: delivering a body as any
/// number of non-final chunks followed by a final one reports nothing before
/// the end, and ends in the same state with the same increments as
/// delivering the whole body as one final chunk.
pub proof fn lemma_chunk_boundaries_invisible(h: MetricHandles, chunks: Seq<Seq<u8>>, last: Seq<u8>)
    ensures
        feed(fresh(h), chunks).1 == Seq::<MetricIncrement>::empty(),
        step(feed(fresh(h), chunks).0, last, true) == step(fresh(h), joined(chunks) + last, true),
{
    lemma_feed_accumulates(fresh(h), chunks);
    assert(fresh(h).buffer + joined(chunks) =~= joined(chunks));
    assert(fresh(h).buffer + (joined(chunks) + last) =~= joined(chunks) + last);
}

/// A body that is not UTF-8, or not JSON, increments no counter.
pub proof fn lemma_malformed_body_reports_nothing(s: ExtractorState, chunk: Seq<u8>)
    requires
        match utf8_text(s.buffer + chunk) {
            None => true,
            Some(text) => json_of(text) is None,
        },
    ensures
        step(s, chunk, true).1 == Seq::<MetricIncrement>::empty(),
{
}

/// A JSON body without a `usage` member increments no counter.
pub proof fn lemma_missing_usage_reports_nothing(s: ExtractorState, chunk: Seq<u8>)
    requires
        match utf8_text(s.buffer + chunk) {
            None => true,
            Some(text) => match json_of(text) {
                None => true,
                Some(doc) => !members(doc).contains_key(usage_key()),
            },
        },
    ensures
        step(s, chunk, true).1 == Seq::<MetricIncrement>::empty(),
{
}

/// A usage object that lacks one of the three integer counts increments no
/// counter: the report is all three increments or none.
pub proof fn lemma_partial_usage_reports_nothing(s: ExtractorState, chunk: Seq<u8>, doc: serde_json::Value)
    requires
        utf8_text(s.buffer + chunk) matches Some(text) && json_of(text) == Some(doc),
        members(doc).contains_key(usage_key()),
        ({
            let u = members(doc)[usage_key()];
            int_member(u, prompt_key()) is None || int_member(u, completion_key()) is None
                || int_member(u, total_key()) is None
        }),
    ensures
        step(s, chunk, true).1 == Seq::<MetricIncrement>::empty(),
{
}

/// The report always holds no increment or exactly three.
pub proof fn lemma_report_all_or_nothing(s: ExtractorState, chunk: Seq<u8>, is_final: bool)
    ensures
        step(s, chunk, is_final).1.len() == 0 || step(s, chunk, is_final).1.len() == 3,
{
}

/// With three distinct counters, a body whose usage record is `u` adds
/// exactly its prompt, completion and total counts to the respective
/// counters, once each, on the final chunk.
pub proof fn lemma_usage_reported_once(s: ExtractorState, chunk: Seq<u8>, u: UsageRecord)
    requires
        !s.completed,
        s.handles.distinct(),
        body_usage(s.buffer + chunk) == Some(u),
    ensures
        step(s, chunk, true).1.len() == 3,
        counter_delta(step(s, chunk, true).1, s.handles.prompt) == u.prompt_tokens,
        counter_delta(step(s, chunk, true).1, s.handles.completion) == u.completion_tokens,
        counter_delta(step(s, chunk, true).1, s.handles.total) == u.total_tokens,
{
    lemma_report_deltas(s.handles, Some(u));
}

/// Once the final chunk has been processed the extractor is terminal: any
/// further chunk, final or not, changes nothing and reports nothing.
pub proof fn lemma_completed_is_terminal(s: ExtractorState, chunk: Seq<u8>, next: Seq<u8>, is_final: bool)
    ensures
        step(s, chunk, true).0.completed,
        step(step(s, chunk, true).0, next, is_final) == (step(s, chunk, true).0, Seq::<
            MetricIncrement,
        >::empty()),
{
}

/// The increments of one sequence followed by another add up per counter.
pub proof fn lemma_delta_additive(a: Seq<MetricIncrement>, b: Seq<MetricIncrement>, handle: u32)
    ensures
        counter_delta(a + b, handle) == counter_delta(a, handle) + counter_delta(b, handle),
    decreases b.len(),
{
    if b.len() == 0 {
        assert(a + b =~= a);
    } else {
        lemma_delta_additive(a, b.drop_last(), handle);
        assert((a + b).drop_last() =~= a + b.drop_last());
    }
}

proof fn lemma_report_deltas(h: MetricHandles, u: Option<UsageRecord>)
    requires
        h.distinct(),
    ensures
        counter_delta(report_of(h, u), h.prompt) == prompt_count(u),
        counter_delta(report_of(h, u), h.completion) == completion_count(u),
        counter_delta(report_of(h, u), h.total) == total_count(u),
{
    let r = report_of(h, u);
    if u is Some {
        assert(r.drop_last().drop_last().drop_last() =~= Seq::<MetricIncrement>::empty());
        reveal_with_fuel(counter_delta, 4);
    }
}

/// Two exchanges reported through the same three distinct counters add up
/// independently: each counter grows by the sum of the two bodies' counts,
/// whatever order their increments reach the host in.
pub proof fn lemma_exchanges_add_up(h: MetricHandles, body1: Seq<u8>, body2: Seq<u8>)
    requires
        h.distinct(),
    ensures
        ({
            let out1 = step(fresh(h), body1, true).1;
            let out2 = step(fresh(h), body2, true).1;
            &&& counter_delta(out1 + out2, h.prompt) == prompt_count(body_usage(body1)) + prompt_count(
                body_usage(body2),
            )
            &&& counter_delta(out1 + out2, h.completion) == completion_count(body_usage(body1))
                + completion_count(body_usage(body2))
            &&& counter_delta(out1 + out2, h.total) == total_count(body_usage(body1)) + total_count(
                body_usage(body2),
            )
            &&& counter_delta(out2 + out1, h.prompt) == counter_delta(out1 + out2, h.prompt)
            &&& counter_delta(out2 + out1, h.completion) == counter_delta(out1 + out2, h.completion)
            &&& counter_delta(out2 + out1, h.total) == counter_delta(out1 + out2, h.total)
        }),
{
    let out1 = step(fresh(h), body1, true).1;
    let out2 = step(fresh(h), body2, true).1;
    assert(fresh(h).buffer + body1 =~= body1);
    assert(fresh(h).buffer + body2 =~= body2);
    lemma_report_deltas(h, body_usage(body1));
    lemma_report_deltas(h, body_usage(body2));
    lemma_delta_additive(out1, out2, h.prompt);
    lemma_delta_additive(out1, out2, h.completion);
    lemma_delta_additive(out1, out2, h.total);
    lemma_delta_additive(out2, out1, h.prompt);
    lemma_delta_additive(out2, out1, h.completion);
    lemma_delta_additive(out2, out1, h.total);
}

} // verus!
