use vstd::prelude::*;
use vstd::string::StringSliceAdditionalSpecFns;

use crate::services::NetworkDiagnostics;
use crate::text::{hex_field, push_hex_field, push_str};

verus! {

/// Number of slots in each ring of the transmit timeline.
pub const TX_TIMELINE_SLOTS: usize = 18;

/// A snapshot of the access point's transmit timeline: two rings of recent
/// submissions and completions, indexed by a running total modulo the ring size.
#[derive(Clone, Copy, Debug, PartialEq, Eq)]
pub struct TxTimeline {
    pub submission_total: u32,
    pub completion_total: u32,
    pub submissions: [u32; 18],
    pub submission_time_ms: [u32; 18],
    pub completions: [u32; 18],
    pub packet_number_lsb: [u32; 18],
    pub completion_time_ms: [u32; 18],
    pub completion_echo: [u32; 18],
}

/// Where reporting resumes: the saved cursor, unless entries up to it have
/// already been overwritten in the ring, in which case the oldest entry still held.
pub open spec fn resume_index(cursor: u32, total: u32) -> u32 {
    let oldest = if total >= 18 {
        (total - 18) as u32
    } else {
        0
    };
    if cursor >= oldest {
        cursor
    } else {
        oldest
    }
}

/// The line that reports submission number `index`.
pub open spec fn submit_line(t: TxTimeline, index: u32) -> Seq<u8> {
    hex_field("RFDBG_SOFTAP_TX_SUBMIT index=0x", index) + hex_field(
        " time_ms=0x",
        t.submission_time_ms@[index as int % 18],
    ) + hex_field(" echo=0x", t.submissions@[index as int % 18]) + "\r\n".spec_bytes()
}

/// The line that reports completion number `index`.
pub open spec fn complete_line(t: TxTimeline, index: u32) -> Seq<u8> {
    hex_field("RFDBG_SOFTAP_TX_COMPLETE index=0x", index) + hex_field(
        " time_ms=0x",
        t.completion_time_ms@[index as int % 18],
    ) + hex_field(" descriptor=0x", t.completions@[index as int % 18]) + hex_field(
        " packet_number=0x",
        t.packet_number_lsb@[index as int % 18],
    ) + hex_field(" echo=0x", t.completion_echo@[index as int % 18]) + "\r\n".spec_bytes()
}

/// The submission lines for indices `from` up to (not including) `to`.
pub open spec fn submit_lines(t: TxTimeline, from: u32, to: u32) -> Seq<u8>
    decreases to,
{
    if to <= from {
        Seq::empty()
    } else {
        submit_lines(t, from, (to - 1) as u32) + submit_line(t, (to - 1) as u32)
    }
}

/// The completion lines for indices `from` up to (not including) `to`.
pub open spec fn complete_lines(t: TxTimeline, from: u32, to: u32) -> Seq<u8>
    decreases to,
{
    if to <= from {
        Seq::empty()
    } else {
        complete_lines(t, from, (to - 1) as u32) + complete_line(t, (to - 1) as u32)
    }
}

/// The larger of two counters.
pub open spec fn max_u32(a: u32, b: u32) -> u32 {
    if a >= b {
        a
    } else {
        b
    }
}

fn resume(cursor: u32, total: u32) -> (index: u32)
    ensures
        index == resume_index(cursor, total),
{
    let slots = TX_TIMELINE_SLOTS as u32;
    let oldest = total.saturating_sub(slots);
    if cursor >= oldest {
        cursor
    } else {
        oldest
    }
}

fn push_submit_line(out: &mut Vec<u8>, t: &TxTimeline, index: u32)
    ensures
        final(out)@ == old(out)@ + submit_line(*t, index),
{
    let slot = (index as usize) % TX_TIMELINE_SLOTS;
    push_hex_field(out, "RFDBG_SOFTAP_TX_SUBMIT index=0x", index);
    push_hex_field(out, " time_ms=0x", t.submission_time_ms[slot]);
    push_hex_field(out, " echo=0x", t.submissions[slot]);
    push_str(out, "\r\n");
    assert(final(out)@ =~= old(out)@ + submit_line(*t, index));
}

fn push_complete_line(out: &mut Vec<u8>, t: &TxTimeline, index: u32)
    ensures
        final(out)@ == old(out)@ + complete_line(*t, index),
{
    let slot = (index as usize) % TX_TIMELINE_SLOTS;
    push_hex_field(out, "RFDBG_SOFTAP_TX_COMPLETE index=0x", index);
    push_hex_field(out, " time_ms=0x", t.completion_time_ms[slot]);
    push_hex_field(out, " descriptor=0x", t.completions[slot]);
    push_hex_field(out, " packet_number=0x", t.packet_number_lsb[slot]);
    push_hex_field(out, " echo=0x", t.completion_echo[slot]);
    push_str(out, "\r\n");
    assert(final(out)@ =~= old(out)@ + complete_line(*t, index));
}

fn write_submissions(out: &mut Vec<u8>, t: &TxTimeline, cursor: u32) -> (next: u32)
    ensures
        next == max_u32(resume_index(cursor, t.submission_total), t.submission_total),
        final(out)@ == old(out)@ + submit_lines(
            *t,
            resume_index(cursor, t.submission_total),
            t.submission_total,
        ),
{
    let total = t.submission_total;
    let start = resume(cursor, total);
    let mut index = start;
    let ghost before = out@;
    if start >= total {
        assert(submit_lines(*t, start, total) =~= Seq::<u8>::empty());
        assert(out@ =~= before + submit_lines(*t, start, total));
        return start;
    }
    assert(submit_lines(*t, start, start) =~= Seq::<u8>::empty());
    while index < total
        invariant
            start <= index <= total,
            out@ == before + submit_lines(*t, start, index),
        decreases total - index,
    {
        push_submit_line(out, t, index);
        assert(submit_lines(*t, start, (index + 1) as u32) == submit_lines(*t, start, index)
            + submit_line(*t, index));
        assert(out@ =~= before + submit_lines(*t, start, (index + 1) as u32));
        index = index + 1;
    }
    index
}

fn write_completions(out: &mut Vec<u8>, t: &TxTimeline, cursor: u32) -> (next: u32)
    ensures
        next == max_u32(resume_index(cursor, t.completion_total), t.completion_total),
        final(out)@ == old(out)@ + complete_lines(
            *t,
            resume_index(cursor, t.completion_total),
            t.completion_total,
        ),
{
    let total = t.completion_total;
    let start = resume(cursor, total);
    let mut index = start;
    let ghost before = out@;
    if start >= total {
        assert(complete_lines(*t, start, total) =~= Seq::<u8>::empty());
        assert(out@ =~= before + complete_lines(*t, start, total));
        return start;
    }
    assert(complete_lines(*t, start, start) =~= Seq::<u8>::empty());
    while index < total
        invariant
            start <= index <= total,
            out@ == before + complete_lines(*t, start, index),
        decreases total - index,
    {
        push_complete_line(out, t, index);
        assert(complete_lines(*t, start, (index + 1) as u32) == complete_lines(*t, start, index)
            + complete_line(*t, index));
        assert(out@ =~= before + complete_lines(*t, start, (index + 1) as u32));
        index = index + 1;
    }
    index
}

/// Report the timeline entries not reported yet (as far as the rings still
/// hold them), submissions first, and move both cursors past them.
pub fn write_new_tx_timeline(
    out: &mut Vec<u8>,
    timeline: &TxTimeline,
    diagnostics: &mut NetworkDiagnostics,
)
    ensures
        ({
            let s = resume_index(old(diagnostics).tx_submission_cursor, timeline.submission_total);
            let c = resume_index(old(diagnostics).tx_completion_cursor, timeline.completion_total);
            &&& *final(diagnostics) == NetworkDiagnostics {
                tx_submission_cursor: max_u32(s, timeline.submission_total),
                tx_completion_cursor: max_u32(c, timeline.completion_total),
                ..*old(diagnostics)
            }
            &&& final(out)@ == old(out)@ + submit_lines(*timeline, s, timeline.submission_total)
                + complete_lines(*timeline, c, timeline.completion_total)
        }),
{
    let next_submission = write_submissions(out, timeline, diagnostics.tx_submission_cursor);
    diagnostics.tx_submission_cursor = next_submission;
    let next_completion = write_completions(out, timeline, diagnostics.tx_completion_cursor);
    diagnostics.tx_completion_cursor = next_completion;
}

/// One call reports at most one ring's worth of entries, each from a different
/// slot, and leaves the cursor at or past the running total.
pub proof fn lemma_timeline_reports_each_slot_once(cursor: u32, total: u32, i: u32, j: u32)
    requires
        resume_index(cursor, total) <= i < j < total,
    ensures
        total - resume_index(cursor, total) <= TX_TIMELINE_SLOTS,
        i % 18 != j % 18,
        max_u32(resume_index(cursor, total), total) >= total,
{
}

/// Reporting the same snapshot again reports nothing and leaves the cursors
/// where the first report put them.
pub proof fn lemma_timeline_reported_once(t: TxTimeline, submission_cursor: u32, completion_cursor: u32)
    ensures
        ({
            let s = max_u32(resume_index(submission_cursor, t.submission_total), t.submission_total);
            let c = max_u32(resume_index(completion_cursor, t.completion_total), t.completion_total);
            &&& resume_index(s, t.submission_total) == s
            &&& max_u32(resume_index(s, t.submission_total), t.submission_total) == s
            &&& submit_lines(t, resume_index(s, t.submission_total), t.submission_total)
                == Seq::<u8>::empty()
            &&& resume_index(c, t.completion_total) == c
            &&& max_u32(resume_index(c, t.completion_total), t.completion_total) == c
            &&& complete_lines(t, resume_index(c, t.completion_total), t.completion_total)
                == Seq::<u8>::empty()
        }),
{
}

} // verus!
