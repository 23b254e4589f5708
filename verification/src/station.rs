use vstd::prelude::*;

use vstd::string::StringSliceAdditionalSpecFns;
use vstd::utf8::encode_utf8;

use crate::decimal::{decimal_text, ipv4_text, ipv4_text_prefix, lemma_ipv4_text_prefix_complete};
use crate::services::bump;
use crate::text::{hex_field, push_hex_field, push_str};
use crate::timing::saturate_to_u32;

verus! {

/// Append the decimal text of one octet (hundreds, tens, ones; no leading zeros).
fn write_octet(out: &mut Vec<u8>, octet: u8)
    ensures
        final(out)@ == old(out)@ + decimal_text(octet as nat),
{
    let hundreds = octet / 100;
    let tens = (octet % 100) / 10;
    let ones = octet % 10;
    let ghost n = octet as nat;
    if hundreds != 0 {
        out.push(48 + hundreds);
    }
    if hundreds != 0 || tens != 0 {
        out.push(48 + tens);
    }
    out.push(48 + ones);
    proof {
        if n >= 100 {
            assert(decimal_text(n / 100) =~= seq![(48 + hundreds) as u8]);
            assert(n / 10 / 10 == n / 100);
            assert((n / 10) % 10 == tens);
            assert(decimal_text(n / 10) =~= seq![(48 + hundreds) as u8, (48 + tens) as u8]);
        } else if n >= 10 {
            assert(decimal_text(n / 10) =~= seq![(48 + tens) as u8]);
        }
    }
    assert(final(out)@ =~= old(out)@ + decimal_text(n));
}

/// Append the dotted-decimal text of an IPv4 address.
pub fn write_ipv4(out: &mut Vec<u8>, octets: [u8; 4])
    ensures
        final(out)@ == old(out)@ + ipv4_text(octets@),
{
    let ghost start = out@;
    let mut index: usize = 0;
    while index < 4
        invariant
            octets@.len() == 4,
            index <= 4,
            out@ == start + ipv4_text_prefix(octets@, index as int),
        decreases 4 - index,
    {
        if index != 0 {
            out.push(46);
        }
        write_octet(out, octets[index]);
        assert(out@ =~= start + ipv4_text_prefix(octets@, index + 1));
        index += 1;
    }
    proof {
        lemma_ipv4_text_prefix_complete(octets@);
    }
}

/// Scheduler state of an RTOS task.
#[derive(Clone, Copy, Debug, PartialEq, Eq, Structural)]
pub enum TaskState {
    Free,
    Ready,
    Running,
    Blocked,
    Sleeping,
    Throttled,
}

/// The name a task state is reported under.
pub open spec fn spec_task_state_name(state: TaskState) -> Seq<char> {
    match state {
        TaskState::Free => "free"@,
        TaskState::Ready => "ready"@,
        TaskState::Running => "running"@,
        TaskState::Blocked => "blocked"@,
        TaskState::Sleeping => "sleeping"@,
        TaskState::Throttled => "throttled"@,
    }
}

/// The name a task state is reported under.
pub fn task_state_name(state: TaskState) -> (name: &'static str)
    ensures
        name@ == spec_task_state_name(state),
{
    match state {
        TaskState::Free => "free",
        TaskState::Ready => "ready",
        TaskState::Running => "running",
        TaskState::Blocked => "blocked",
        TaskState::Sleeping => "sleeping",
        TaskState::Throttled => "throttled",
    }
}

/// Kinds of transition the incremental radio runner reports.
#[derive(Clone, Copy, Debug, PartialEq, Eq, Structural)]
pub enum RunnerEventKind {
    Idle,
    Started,
    Waiting,
    Pending,
    BudgetExhausted,
    CancelRequested,
    Completed,
    Cancelled,
    Failed,
}

/// The name a runner transition is reported under.
pub open spec fn spec_runner_event_name(kind: RunnerEventKind) -> Seq<char> {
    match kind {
        RunnerEventKind::Idle => "idle"@,
        RunnerEventKind::Started => "started"@,
        RunnerEventKind::Waiting => "waiting"@,
        RunnerEventKind::Pending => "pending"@,
        RunnerEventKind::BudgetExhausted => "budget-exhausted"@,
        RunnerEventKind::CancelRequested => "cancel-requested"@,
        RunnerEventKind::Completed => "completed"@,
        RunnerEventKind::Cancelled => "cancelled"@,
        RunnerEventKind::Failed => "failed"@,
    }
}

fn runner_event_name(kind: RunnerEventKind) -> (name: &'static str)
    ensures
        name@ == spec_runner_event_name(kind),
{
    match kind {
        RunnerEventKind::Idle => "idle",
        RunnerEventKind::Started => "started",
        RunnerEventKind::Waiting => "waiting",
        RunnerEventKind::Pending => "pending",
        RunnerEventKind::BudgetExhausted => "budget-exhausted",
        RunnerEventKind::CancelRequested => "cancel-requested",
        RunnerEventKind::Completed => "completed",
        RunnerEventKind::Cancelled => "cancelled",
        RunnerEventKind::Failed => "failed",
    }
}

/// `s` followed by the line that reports a runner transition.
pub open spec fn append_runner_event(s: Seq<u8>, kind: RunnerEventKind) -> Seq<u8> {
    s + "RFDBG_A5B_RUNNER_EVENT kind=".spec_bytes() + encode_utf8(spec_runner_event_name(kind))
        + "\r\n".spec_bytes()
}

/// Append the line that reports a runner transition.
pub fn write_runner_event(out: &mut Vec<u8>, kind: RunnerEventKind)
    ensures
        final(out)@ == append_runner_event(old(out)@, kind),
{
    push_str(out, "RFDBG_A5B_RUNNER_EVENT kind=");
    push_str(out, runner_event_name(kind));
    push_str(out, "\r\n");
}

/// Counters of the incremental radio runner.
#[derive(Clone, Copy, Debug, PartialEq, Eq)]
pub struct RunnerDiagnostics {
    pub run_once_calls: u32,
    pub wait_ready_calls: u32,
    pub wait_ready_completions: u32,
    pub immediate_ready_completions: u32,
    pub operations_started: u32,
    pub operations_completed: u32,
    pub pending_polls: u32,
    pub budget_exhaustions: u32,
    pub driver_errors: u32,
    pub protocol_errors: u32,
    pub wait_ready_errors: u32,
}

/// The sum of two counters, capped at `u32::MAX`.
pub open spec fn saturating_sum(a: u32, b: u32) -> u32 {
    if a + b > u32::MAX {
        u32::MAX
    } else {
        (a + b) as u32
    }
}

/// All runner errors together (driver, protocol and wait errors), capped at `u32::MAX`.
pub open spec fn spec_runner_error_total(d: RunnerDiagnostics) -> u32 {
    saturating_sum(saturating_sum(d.driver_errors, d.protocol_errors), d.wait_ready_errors)
}

/// All runner errors together, capped at `u32::MAX`.
pub fn runner_error_total(diagnostics: &RunnerDiagnostics) -> (total: u32)
    ensures
        total == spec_runner_error_total(*diagnostics),
        total == (if diagnostics.driver_errors + diagnostics.protocol_errors
            + diagnostics.wait_ready_errors > u32::MAX {
            u32::MAX as int
        } else {
            diagnostics.driver_errors + diagnostics.protocol_errors + diagnostics.wait_ready_errors
        }),
{
    diagnostics.driver_errors.saturating_add(diagnostics.protocol_errors).saturating_add(
        diagnostics.wait_ready_errors,
    )
}

/// `s` followed by the runner-counter line.
pub open spec fn append_runner_diagnostics(s: Seq<u8>, d: RunnerDiagnostics) -> Seq<u8> {
    s + hex_field("RFDBG_A5B_RUNNER run=0x", d.run_once_calls) + hex_field(
        " waits=0x",
        d.wait_ready_calls,
    ) + hex_field(" wake=0x", d.wait_ready_completions) + hex_field(
        " immediate=0x",
        d.immediate_ready_completions,
    ) + hex_field(" operations=0x", d.operations_started) + hex_field(
        " completed=0x",
        d.operations_completed,
    ) + hex_field(" pending=0x", d.pending_polls) + hex_field(
        " exhausted=0x",
        d.budget_exhaustions,
    ) + hex_field(" errors=0x", spec_runner_error_total(d)) + "\r\n".spec_bytes()
}

/// Append the runner-counter line.
pub fn write_runner_diagnostics(out: &mut Vec<u8>, diagnostics: &RunnerDiagnostics)
    ensures
        final(out)@ == append_runner_diagnostics(old(out)@, *diagnostics),
{
    let d = diagnostics;
    push_hex_field(out, "RFDBG_A5B_RUNNER run=0x", d.run_once_calls);
    push_hex_field(out, " waits=0x", d.wait_ready_calls);
    push_hex_field(out, " wake=0x", d.wait_ready_completions);
    push_hex_field(out, " immediate=0x", d.immediate_ready_completions);
    push_hex_field(out, " operations=0x", d.operations_started);
    push_hex_field(out, " completed=0x", d.operations_completed);
    push_hex_field(out, " pending=0x", d.pending_polls);
    push_hex_field(out, " exhausted=0x", d.budget_exhaustions);
    push_hex_field(out, " errors=0x", runner_error_total(d));
    push_str(out, "\r\n");
}

/// Counters of the radio's wait machinery.
#[derive(Clone, Copy, Debug, PartialEq, Eq)]
pub struct WaitDiagnostics {
    pub backend_signals: u32,
    pub l2_rx_signals: u32,
    pub waker_notifications: u32,
    pub poll_calls: u32,
    pub pending_polls: u32,
    pub ready_polls: u32,
    pub timer_ready_polls: u32,
}

/// `s` followed by the wait-counter line.
pub open spec fn append_wait_diagnostics(s: Seq<u8>, d: WaitDiagnostics) -> Seq<u8> {
    s + hex_field("RFDBG_A5B_WAIT backend=0x", d.backend_signals) + hex_field(
        " l2=0x",
        d.l2_rx_signals,
    ) + hex_field(" waker=0x", d.waker_notifications) + hex_field(" polls=0x", d.poll_calls)
        + hex_field(" pending=0x", d.pending_polls) + hex_field(" ready=0x", d.ready_polls)
        + hex_field(" timer=0x", d.timer_ready_polls) + "\r\n".spec_bytes()
}

/// Append the wait-counter line.
pub fn write_wait_diagnostics(out: &mut Vec<u8>, diagnostics: &WaitDiagnostics)
    ensures
        final(out)@ == append_wait_diagnostics(old(out)@, *diagnostics),
{
    let d = diagnostics;
    push_hex_field(out, "RFDBG_A5B_WAIT backend=0x", d.backend_signals);
    push_hex_field(out, " l2=0x", d.l2_rx_signals);
    push_hex_field(out, " waker=0x", d.waker_notifications);
    push_hex_field(out, " polls=0x", d.poll_calls);
    push_hex_field(out, " pending=0x", d.pending_polls);
    push_hex_field(out, " ready=0x", d.ready_polls);
    push_hex_field(out, " timer=0x", d.timer_ready_polls);
    push_str(out, "\r\n");
}

/// Scan state the radio captured at an operation boundary.
#[derive(Clone, Copy, Debug, PartialEq, Eq)]
pub struct ScanDiagnostics {
    pub native_starts: u32,
    pub native_results: u32,
    pub native_done: u32,
    pub native_active: bool,
    pub queue_pending: bool,
    pub queue_dropped: u32,
    pub native_start_ms: u32,
    pub native_done_ms: u32,
    pub driver_active: bool,
    pub driver_done: bool,
    pub driver_results: u32,
    pub driver_status: u32,
    pub driver_done_ms: u32,
}

/// A flag as a counter value: 1 when set, 0 when clear.
pub open spec fn flag(value: bool) -> u32 {
    if value {
        1
    } else {
        0
    }
}

/// `s` followed by the scan-state line of scan attempt number `attempt`.
pub open spec fn append_scan_diagnostics(s: Seq<u8>, attempt: u32, d: ScanDiagnostics) -> Seq<u8> {
    s + hex_field("RFDBG_SCAN_DIAG attempt=0x", attempt) + hex_field(
        " native_starts=0x",
        d.native_starts,
    ) + hex_field(" native_results=0x", d.native_results) + hex_field(
        " native_done=0x",
        d.native_done,
    ) + hex_field(" native_active=0x", flag(d.native_active)) + hex_field(
        " queue_pending=0x",
        flag(d.queue_pending),
    ) + hex_field(" queue_dropped=0x", d.queue_dropped) + hex_field(
        " native_start_ms=0x",
        d.native_start_ms,
    ) + hex_field(" native_observed_ms=0x", d.native_done_ms) + hex_field(
        " driver_active=0x",
        flag(d.driver_active),
    ) + hex_field(" driver_done=0x", flag(d.driver_done)) + hex_field(
        " driver_results=0x",
        d.driver_results,
    ) + hex_field(" driver_status=0x", d.driver_status) + hex_field(
        " driver_observed_ms=0x",
        d.driver_done_ms,
    ) + "\r\n".spec_bytes()
}

fn flag_value(value: bool) -> (counter: u32)
    ensures
        counter == flag(value),
{
    if value {
        1
    } else {
        0
    }
}

/// Append the scan-state line of scan attempt number `attempt`.
pub fn write_scan_diagnostics(out: &mut Vec<u8>, attempt: u32, diagnostics: &ScanDiagnostics)
    ensures
        final(out)@ == append_scan_diagnostics(old(out)@, attempt, *diagnostics),
{
    let d = diagnostics;
    push_hex_field(out, "RFDBG_SCAN_DIAG attempt=0x", attempt);
    push_hex_field(out, " native_starts=0x", d.native_starts);
    push_hex_field(out, " native_results=0x", d.native_results);
    push_hex_field(out, " native_done=0x", d.native_done);
    push_hex_field(out, " native_active=0x", flag_value(d.native_active));
    push_hex_field(out, " queue_pending=0x", flag_value(d.queue_pending));
    push_hex_field(out, " queue_dropped=0x", d.queue_dropped);
    push_hex_field(out, " native_start_ms=0x", d.native_start_ms);
    push_hex_field(out, " native_observed_ms=0x", d.native_done_ms);
    push_hex_field(out, " driver_active=0x", flag_value(d.driver_active));
    push_hex_field(out, " driver_done=0x", flag_value(d.driver_done));
    push_hex_field(out, " driver_results=0x", d.driver_results);
    push_hex_field(out, " driver_status=0x", d.driver_status);
    push_hex_field(out, " driver_observed_ms=0x", d.driver_done_ms);
    push_str(out, "\r\n");
}

/// `s` followed by the lines that report a scan that found the network: how
/// long the scan took, how many results it returned (capped at `u32::MAX`)
/// and whether the list was cut short, then the radio event.
pub open spec fn append_scan_completed(s: Seq<u8>, elapsed_ms: u32, count: usize, truncated: bool) -> Seq<u8> {
    let reported = if count > u32::MAX { u32::MAX } else { count as u32 };
    s + hex_field("RFDBG_A5B_SCAN_OK elapsed_ms=0x", elapsed_ms) + hex_field(" count=0x", reported)
        + hex_field(" truncated=0x", flag(truncated)) + "\r\n".spec_bytes() + hex_field(
        "RF3_SCAN_OK count=0x",
        reported,
    ) + hex_field(" truncated=0x", flag(truncated)) + "\r\n".spec_bytes()
        + "A4_RADIO_EVENT kind=scan-completed\r\n".spec_bytes()
}

/// Append the report of a scan that found the network.
pub fn write_scan_completed(out: &mut Vec<u8>, elapsed_ms: u32, count: usize, truncated: bool)
    ensures
        final(out)@ == append_scan_completed(old(out)@, elapsed_ms, count, truncated),
{
    let reported = saturate_to_u32(count);
    let truncated = flag_value(truncated);
    push_hex_field(out, "RFDBG_A5B_SCAN_OK elapsed_ms=0x", elapsed_ms);
    push_hex_field(out, " count=0x", reported);
    push_hex_field(out, " truncated=0x", truncated);
    push_str(out, "\r\n");
    push_hex_field(out, "RF3_SCAN_OK count=0x", reported);
    push_hex_field(out, " truncated=0x", truncated);
    push_str(out, "\r\n");
    push_str(out, "A4_RADIO_EVENT kind=scan-completed\r\n");
}

/// How the network stage of a connection ended.
#[derive(Clone, Copy, Debug, PartialEq, Eq, Structural)]
pub enum NetworkExit {
    /// The access point dropped the station, with this reason code.
    Disconnected { reason: u16 },
    /// The radio backend failed.
    BackendFailed,
}

/// What follows the end of a connection's network stage: after a disconnect
/// the station reconnects, with the reconnect count raised (capped at
/// `u32::MAX`) and the disconnect reported; after a backend failure it stops
/// (`None`) and the failure is reported.
pub fn after_network_exit(out: &mut Vec<u8>, reconnects: u32, exit: NetworkExit) -> (next:
    Option<u32>)
    ensures
        next == (match exit {
            NetworkExit::Disconnected { .. } => Some(bump(reconnects)),
            NetworkExit::BackendFailed => None::<u32>,
        }),
        final(out)@ == (match exit {
            NetworkExit::Disconnected { reason } => old(out)@ + hex_field(
                "A4_RECONNECT reason=disconnected code=0x",
                reason as u32,
            ) + "\r\n".spec_bytes(),
            NetworkExit::BackendFailed => old(out)@ + "A4_NET_ERR:backend-failed\r\n".spec_bytes(),
        }),
{
    match exit {
        NetworkExit::Disconnected { reason } => {
            push_hex_field(out, "A4_RECONNECT reason=disconnected code=0x", reason as u32);
            push_str(out, "\r\n");
            Some(reconnects.saturating_add(1))
        },
        NetworkExit::BackendFailed => {
            push_str(out, "A4_NET_ERR:backend-failed\r\n");
            None
        },
    }
}

/// The error count the runner line reports is the sum of the driver, protocol
/// and wait errors, capped at `u32::MAX`.
pub proof fn lemma_runner_errors_are_capped_sum(d: RunnerDiagnostics)
    ensures
        spec_runner_error_total(d) == (if d.driver_errors + d.protocol_errors + d.wait_ready_errors
            > u32::MAX {
            u32::MAX as int
        } else {
            d.driver_errors + d.protocol_errors + d.wait_ready_errors
        }),
{
}

} // verus!
