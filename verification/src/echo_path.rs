use vstd::prelude::*;
use vstd::string::StringSliceAdditionalSpecFns;
use vstd::wrapping::u32_specs::wrapping_sub;

use crate::services::{bump, NetworkDiagnostics};
use crate::text::{hex_field, push_hex_field, push_str};

verus! {

/// Number of transmit-completion status buckets the access point keeps.
pub const TX_STATUS_BUCKETS: usize = 16;

/// Transmit-path counters of the access point, sampled around one echo.
#[derive(Clone, Copy, Debug, PartialEq, Eq)]
pub struct EchoPathCounters {
    pub vendor_tx_frames: u32,
    pub tx_completions: u32,
    pub mac_normal_priority_mpdu: u32,
    pub mac_complete_interrupts: u32,
    pub completion_status: [u32; 16],
}

/// The counters after the MAC counters seen before an echo are offered as the
/// baseline: taken before the first echo sample, ignored afterwards.
pub open spec fn spec_echo_baseline(d: NetworkDiagnostics, before: EchoPathCounters) -> NetworkDiagnostics {
    if d.echo_mac_samples == 0 {
        NetworkDiagnostics {
            echo_mac_normal_baseline: before.mac_normal_priority_mpdu,
            echo_mac_complete_baseline: before.mac_complete_interrupts,
            ..d
        }
    } else {
        d
    }
}

/// The counters after one echo sample: one more sample, and the MAC counters
/// seen after it as the latest.
pub open spec fn spec_echo_sample(d: NetworkDiagnostics, after: EchoPathCounters) -> NetworkDiagnostics {
    NetworkDiagnostics {
        echo_mac_samples: bump(d.echo_mac_samples),
        echo_mac_normal_latest: after.mac_normal_priority_mpdu,
        echo_mac_complete_latest: after.mac_complete_interrupts,
        ..d
    }
}

/// The counters after a periodic refresh: once an echo has been sampled, the
/// latest MAC counters follow the current ones.
pub open spec fn spec_echo_refresh(d: NetworkDiagnostics, latest: EchoPathCounters) -> NetworkDiagnostics {
    if d.echo_mac_samples != 0 {
        NetworkDiagnostics {
            echo_mac_normal_latest: latest.mac_normal_priority_mpdu,
            echo_mac_complete_latest: latest.mac_complete_interrupts,
            ..d
        }
    } else {
        d
    }
}

/// Before the first echo sample, remember the MAC counters as the baseline;
/// afterwards the baseline stays.
pub fn record_echo_baseline(diagnostics: &mut NetworkDiagnostics, before: &EchoPathCounters)
    ensures
        *final(diagnostics) == spec_echo_baseline(*old(diagnostics), *before),
{
    if diagnostics.echo_mac_samples == 0 {
        diagnostics.echo_mac_normal_baseline = before.mac_normal_priority_mpdu;
        diagnostics.echo_mac_complete_baseline = before.mac_complete_interrupts;
    }
}

/// Count one echo sample and keep the MAC counters seen after it.
pub fn record_echo_sample(diagnostics: &mut NetworkDiagnostics, after: &EchoPathCounters)
    ensures
        *final(diagnostics) == spec_echo_sample(*old(diagnostics), *after),
{
    diagnostics.echo_mac_samples = diagnostics.echo_mac_samples.saturating_add(1);
    diagnostics.echo_mac_normal_latest = after.mac_normal_priority_mpdu;
    diagnostics.echo_mac_complete_latest = after.mac_complete_interrupts;
}

/// Once an echo has been sampled, keep the latest MAC counters up to date.
pub fn refresh_echo_latest(diagnostics: &mut NetworkDiagnostics, latest: &EchoPathCounters)
    ensures
        *final(diagnostics) == spec_echo_refresh(*old(diagnostics), *latest),
{
    if diagnostics.echo_mac_samples != 0 {
        diagnostics.echo_mac_normal_latest = latest.mac_normal_priority_mpdu;
        diagnostics.echo_mac_complete_latest = latest.mac_complete_interrupts;
    }
}

/// The baseline is taken once: after an echo has been sampled, offering a new
/// baseline changes nothing, and a refresh moves only the latest MAC counters.
pub proof fn lemma_echo_baseline_taken_once(
    d: NetworkDiagnostics,
    after: EchoPathCounters,
    later: EchoPathCounters,
)
    ensures
        spec_echo_baseline(spec_echo_sample(d, after), later) == spec_echo_sample(d, after),
        spec_echo_refresh(spec_echo_sample(d, after), later).echo_mac_normal_baseline
            == d.echo_mac_normal_baseline,
        spec_echo_refresh(spec_echo_sample(d, after), later).echo_mac_complete_baseline
            == d.echo_mac_complete_baseline,
        spec_echo_refresh(spec_echo_sample(d, after), later).echo_mac_normal_latest
            == later.mac_normal_priority_mpdu,
{
}

/// `s` followed by the per-bucket completion-status deltas of buckets `0..n`,
/// each as eight hex digits and a comma.
pub open spec fn append_status_deltas(
    s: Seq<u8>,
    before: EchoPathCounters,
    after: EchoPathCounters,
    n: int,
) -> Seq<u8>
    decreases n,
{
    if n <= 0 {
        s
    } else {
        append_status_deltas(s, before, after, n - 1) + hex_field(
            "",
            wrapping_sub(after.completion_status@[n - 1], before.completion_status@[n - 1]),
        ) + ",".spec_bytes()
    }
}

/// `s` followed by the echo-path line: the echo's sequence byte and how much
/// each transmit counter moved across it.
pub open spec fn append_echo_path_line(
    s: Seq<u8>,
    sequence: u8,
    before: EchoPathCounters,
    after: EchoPathCounters,
) -> Seq<u8> {
    let head = s + hex_field("RFDBG_SOFTAP_ECHO_PATH sequence=0x", sequence as u32) + hex_field(
        " vendor_tx_delta=0x",
        wrapping_sub(after.vendor_tx_frames, before.vendor_tx_frames),
    ) + hex_field(" tx_complete_delta=0x", wrapping_sub(after.tx_completions, before.tx_completions))
        + hex_field(
        " mac_norm_delta=0x",
        wrapping_sub(after.mac_normal_priority_mpdu, before.mac_normal_priority_mpdu),
    ) + hex_field(
        " mac_irq_delta=0x",
        wrapping_sub(after.mac_complete_interrupts, before.mac_complete_interrupts),
    ) + " tx_status_delta=".spec_bytes();
    append_status_deltas(head, before, after, 16) + "\r\n".spec_bytes()
}

/// Append the line describing what the transmit path did around one echo.
pub fn write_echo_path_diagnostics(
    out: &mut Vec<u8>,
    sequence: u8,
    before: &EchoPathCounters,
    after: &EchoPathCounters,
)
    ensures
        final(out)@ == append_echo_path_line(old(out)@, sequence, *before, *after),
{
    push_hex_field(out, "RFDBG_SOFTAP_ECHO_PATH sequence=0x", sequence as u32);
    push_hex_field(
        out,
        " vendor_tx_delta=0x",
        after.vendor_tx_frames.wrapping_sub(before.vendor_tx_frames),
    );
    push_hex_field(
        out,
        " tx_complete_delta=0x",
        after.tx_completions.wrapping_sub(before.tx_completions),
    );
    push_hex_field(
        out,
        " mac_norm_delta=0x",
        after.mac_normal_priority_mpdu.wrapping_sub(before.mac_normal_priority_mpdu),
    );
    push_hex_field(
        out,
        " mac_irq_delta=0x",
        after.mac_complete_interrupts.wrapping_sub(before.mac_complete_interrupts),
    );
    push_str(out, " tx_status_delta=");
    let ghost head = out@;
    let mut index: usize = 0;
    while index < TX_STATUS_BUCKETS
        invariant
            index <= TX_STATUS_BUCKETS,
            out@ == append_status_deltas(head, *before, *after, index as int),
        decreases TX_STATUS_BUCKETS - index,
    {
        push_hex_field(
            out,
            "",
            after.completion_status[index].wrapping_sub(before.completion_status[index]),
        );
        push_str(out, ",");
        index += 1;
    }
    push_str(out, "\r\n");
}

} // verus!
