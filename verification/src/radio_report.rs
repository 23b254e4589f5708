use vstd::prelude::*;
use vstd::string::StringSliceAdditionalSpecFns;

use crate::text::{hex_field, push_hex_field, push_str};
use crate::timing::saturate_to_u32;

verus! {

/// A count as reported: capped at `u32::MAX`.
pub open spec fn capped_count(value: usize) -> u32 {
    if value > u32::MAX {
        u32::MAX
    } else {
        value as u32
    }
}

/// Occupancy of the radio's event and command queues.
#[derive(Clone, Copy, Debug, PartialEq, Eq)]
pub struct QueueReport {
    pub event_pending: usize,
    pub event_high_water: usize,
    pub event_dropped: u32,
    pub command_pending: usize,
    pub command_high_water: usize,
}

/// `s` followed by the event-queue line and the command-queue line.
pub open spec fn append_queue_report(s: Seq<u8>, q: QueueReport) -> Seq<u8> {
    s + hex_field("RFDBG_A5B_EVENT pending=0x", capped_count(q.event_pending)) + hex_field(
        " high_water=0x",
        capped_count(q.event_high_water),
    ) + hex_field(" dropped=0x", q.event_dropped) + "\r\n".spec_bytes() + hex_field(
        "RFDBG_A5B_CONTROL pending=0x",
        capped_count(q.command_pending),
    ) + hex_field(" high_water=0x", capped_count(q.command_high_water)) + "\r\n".spec_bytes()
}

/// Append the event-queue line and the command-queue line.
pub fn write_queue_report(out: &mut Vec<u8>, queues: &QueueReport)
    ensures
        final(out)@ == append_queue_report(old(out)@, *queues),
{
    push_hex_field(out, "RFDBG_A5B_EVENT pending=0x", saturate_to_u32(queues.event_pending));
    push_hex_field(out, " high_water=0x", saturate_to_u32(queues.event_high_water));
    push_hex_field(out, " dropped=0x", queues.event_dropped);
    push_str(out, "\r\n");
    push_hex_field(out, "RFDBG_A5B_CONTROL pending=0x", saturate_to_u32(queues.command_pending));
    push_hex_field(out, " high_water=0x", saturate_to_u32(queues.command_high_water));
    push_str(out, "\r\n");
}

/// `s` followed by the first `n` values, each as ` 0x` and eight hex digits.
pub open spec fn append_hex_values(s: Seq<u8>, values: Seq<u32>, n: int) -> Seq<u8>
    decreases n,
{
    if n <= 0 {
        s
    } else {
        append_hex_values(s, values, n - 1) + hex_field(" 0x", values[n - 1])
    }
}

/// Append `prefix`, then each value as ` 0x` and eight hex digits, then a line end.
pub fn write_hex_list(out: &mut Vec<u8>, prefix: &str, values: &[u32])
    ensures
        final(out)@ == append_hex_values(old(out)@ + prefix.spec_bytes(), values@, values@.len() as int)
            + "\r\n".spec_bytes(),
{
    push_str(out, prefix);
    let ghost head = out@;
    let mut index: usize = 0;
    while index < values.len()
        invariant
            index <= values@.len(),
            out@ == append_hex_values(head, values@, index as int),
        decreases values@.len() - index,
    {
        push_hex_field(out, " 0x", values[index]);
        index += 1;
    }
    push_str(out, "\r\n");
}

/// Append the supplicant's event counters and its EAPOL counters, one line each.
pub fn write_supplicant_event_diagnostics(out: &mut Vec<u8>, events: &[u32], eapol: &[u32])
    ensures
        final(out)@ == append_hex_values(
            append_hex_values(old(out)@ + "RFDBG_SUPPLICANT_EVENT".spec_bytes(), events@, events@.len() as int)
                + "\r\n".spec_bytes() + "RFDBG_SUPPLICANT_EAPOL".spec_bytes(),
            eapol@,
            eapol@.len() as int,
        ) + "\r\n".spec_bytes(),
{
    write_hex_list(out, "RFDBG_SUPPLICANT_EVENT", events);
    write_hex_list(out, "RFDBG_SUPPLICANT_EAPOL", eapol);
}

/// One entry of a radio error's backend trace: the entry's kind name and value.
#[derive(Clone, Copy, Debug, PartialEq, Eq)]
pub struct TraceEntry<'a> {
    pub kind: &'a str,
    pub value: u32,
}

/// `s` followed by the first `n` trace entries, each as ` kind=0x` and eight hex digits.
pub open spec fn append_trace(s: Seq<u8>, trace: Seq<TraceEntry>, n: int) -> Seq<u8>
    decreases n,
{
    if n <= 0 {
        s
    } else {
        append_trace(s, trace, n - 1) + " ".spec_bytes() + trace[n - 1].kind.spec_bytes()
            + hex_field("=0x", trace[n - 1].value)
    }
}

/// `s` followed by the line that reports a radio error: its stable code and
/// stage names, the backend code when there is one, the backend trace, and a
/// marker when the trace was cut short.
pub open spec fn append_diagnostic(
    s: Seq<u8>,
    prefix: &str,
    code: &str,
    stage: &str,
    backend_code: Option<u32>,
    trace: Seq<TraceEntry>,
    truncated: bool,
) -> Seq<u8> {
    let head = s + prefix.spec_bytes() + " code=".spec_bytes() + code.spec_bytes()
        + " stage=".spec_bytes() + stage.spec_bytes() + match backend_code {
        Some(value) => hex_field(" backend=0x", value),
        None => Seq::empty(),
    };
    append_trace(head, trace, trace.len() as int) + (if truncated {
        " trace_truncated=1".spec_bytes()
    } else {
        Seq::empty()
    }) + "\r\n".spec_bytes()
}

/// Append the line that reports a radio error.
pub fn write_diagnostic(
    out: &mut Vec<u8>,
    prefix: &str,
    code: &str,
    stage: &str,
    backend_code: Option<u32>,
    trace: &[TraceEntry],
    truncated: bool,
)
    ensures
        final(out)@ == append_diagnostic(
            old(out)@,
            prefix,
            code,
            stage,
            backend_code,
            trace@,
            truncated,
        ),
{
    push_str(out, prefix);
    push_str(out, " code=");
    push_str(out, code);
    push_str(out, " stage=");
    push_str(out, stage);
    let ghost before_backend = out@;
    if let Some(value) = backend_code {
        push_hex_field(out, " backend=0x", value);
    }
    assert(out@ =~= before_backend + match backend_code {
        Some(value) => hex_field(" backend=0x", value),
        None => Seq::empty(),
    });
    let ghost head = out@;
    let mut index: usize = 0;
    while index < trace.len()
        invariant
            index <= trace@.len(),
            out@ == append_trace(head, trace@, index as int),
        decreases trace@.len() - index,
    {
        push_str(out, " ");
        push_str(out, trace[index].kind);
        push_hex_field(out, "=0x", trace[index].value);
        index += 1;
    }
    let ghost after_trace = out@;
    if truncated {
        push_str(out, " trace_truncated=1");
    }
    assert(out@ =~= after_trace + (if truncated {
        " trace_truncated=1".spec_bytes()
    } else {
        Seq::empty()
    }));
    push_str(out, "\r\n");
}

/// Blocking-call counters of the radio backend.
#[derive(Clone, Copy, Debug, PartialEq, Eq)]
pub struct BlockingReport {
    pub initialize_calls: u32,
    pub initialize_max_ms: u32,
    pub scan_calls: u32,
    pub poll_calls: u32,
    pub internal_sleep_calls: u32,
    pub supplicant_poll_calls: u32,
}

/// Counters of the radio's synchronous message posts.
#[derive(Clone, Copy, Debug, PartialEq, Eq)]
pub struct FrwSyncReport {
    pub calls: u32,
    pub last_msg_id: u32,
    pub last_timeout_ms: u32,
    pub last_elapsed_ms: u32,
    pub last_result: u32,
    pub max_msg_id: u32,
    pub max_elapsed_ms: u32,
    pub last_wait_blocks: u32,
    pub last_wait_wakeups: u32,
    pub last_wait_ready_checks: u32,
}

/// `s` followed by the blocking-call line and the synchronous-post line.
pub open spec fn append_blocking_report(s: Seq<u8>, b: BlockingReport, f: FrwSyncReport) -> Seq<u8> {
    let blocking = s + hex_field("RFDBG_A5B_BLOCKING init_calls=0x", b.initialize_calls)
        + hex_field(" init_max_ms=0x", b.initialize_max_ms) + hex_field(" scan_calls=0x", b.scan_calls)
        + hex_field(" poll_calls=0x", b.poll_calls) + hex_field(
        " internal_sleep=0x",
        b.internal_sleep_calls,
    ) + hex_field(" supplicant_poll=0x", b.supplicant_poll_calls) + "\r\n".spec_bytes();
    blocking + hex_field("RFDBG_A5B_FRW_SYNC calls=0x", f.calls) + hex_field(" last_id=0x", f.last_msg_id)
        + hex_field(" last_timeout_ms=0x", f.last_timeout_ms) + hex_field(
        " last_elapsed_ms=0x",
        f.last_elapsed_ms,
    ) + hex_field(" last_ret=0x", f.last_result) + hex_field(" max_id=0x", f.max_msg_id) + hex_field(
        " max_elapsed_ms=0x",
        f.max_elapsed_ms,
    ) + hex_field(" wait_blocks=0x", f.last_wait_blocks) + hex_field(
        " wait_wakeups=0x",
        f.last_wait_wakeups,
    ) + hex_field(" wait_ready=0x", f.last_wait_ready_checks) + "\r\n".spec_bytes()
}

/// Append the blocking-call line and the synchronous-post line.
pub fn write_blocking_report(out: &mut Vec<u8>, blocking: &BlockingReport, frw: &FrwSyncReport)
    ensures
        final(out)@ == append_blocking_report(old(out)@, *blocking, *frw),
{
    push_hex_field(out, "RFDBG_A5B_BLOCKING init_calls=0x", blocking.initialize_calls);
    push_hex_field(out, " init_max_ms=0x", blocking.initialize_max_ms);
    push_hex_field(out, " scan_calls=0x", blocking.scan_calls);
    push_hex_field(out, " poll_calls=0x", blocking.poll_calls);
    push_hex_field(out, " internal_sleep=0x", blocking.internal_sleep_calls);
    push_hex_field(out, " supplicant_poll=0x", blocking.supplicant_poll_calls);
    push_str(out, "\r\n");
    push_hex_field(out, "RFDBG_A5B_FRW_SYNC calls=0x", frw.calls);
    push_hex_field(out, " last_id=0x", frw.last_msg_id);
    push_hex_field(out, " last_timeout_ms=0x", frw.last_timeout_ms);
    push_hex_field(out, " last_elapsed_ms=0x", frw.last_elapsed_ms);
    push_hex_field(out, " last_ret=0x", frw.last_result);
    push_hex_field(out, " max_id=0x", frw.max_msg_id);
    push_hex_field(out, " max_elapsed_ms=0x", frw.max_elapsed_ms);
    push_hex_field(out, " wait_blocks=0x", frw.last_wait_blocks);
    push_hex_field(out, " wait_wakeups=0x", frw.last_wait_wakeups);
    push_hex_field(out, " wait_ready=0x", frw.last_wait_ready_checks);
    push_str(out, "\r\n");
}

/// One OS-abstraction wait object as the radio reports it. Handles and
/// addresses are reported in their low 32 bits.
#[derive(Clone, Copy, Debug, PartialEq, Eq)]
pub struct OsalWaitReport {
    pub wait: usize,
    pub semaphore: usize,
    pub predicate: usize,
    pub parameter: usize,
    pub predicate_result: usize,
    pub blocks: u32,
    pub wakeups: u32,
    pub ready_checks: u32,
    pub last_wait_task: usize,
    pub last_wake_task: usize,
    pub last_wait_caller: usize,
    pub last_wake_caller: usize,
}

/// One OS-abstraction event object as the radio reports it.
#[derive(Clone, Copy, Debug, PartialEq, Eq)]
pub struct OsalEventReport {
    pub event: usize,
    pub bits: u32,
    pub reads: u32,
    pub writes: u32,
    pub matches: u32,
    pub last_read_mask: u32,
    pub last_write_mask: u32,
    pub last_mode: u32,
}

/// `s` followed by the line for one wait object.
pub open spec fn append_osal_wait(s: Seq<u8>, w: OsalWaitReport) -> Seq<u8> {
    s + hex_field("RFDBG_A5B_OSAL_WAIT wait=0x", w.wait as u32) + hex_field(" sem=0x", w.semaphore as u32)
        + hex_field(" pred=0x", w.predicate as u32) + hex_field(" param=0x", w.parameter as u32)
        + hex_field(" pred_now=0x", w.predicate_result as u32) + hex_field(" blocks=0x", w.blocks)
        + hex_field(" wakeups=0x", w.wakeups) + hex_field(" ready=0x", w.ready_checks) + hex_field(
        " wait_task=0x",
        w.last_wait_task as u32,
    ) + hex_field(" wake_task=0x", w.last_wake_task as u32) + hex_field(
        " wait_ra=0x",
        w.last_wait_caller as u32,
    ) + hex_field(" wake_ra=0x", w.last_wake_caller as u32) + "\r\n".spec_bytes()
}

/// `s` followed by the line for one event object.
pub open spec fn append_osal_event(s: Seq<u8>, e: OsalEventReport) -> Seq<u8> {
    s + hex_field("RFDBG_A5B_OSAL_EVENT event=0x", e.event as u32) + hex_field(" bits=0x", e.bits)
        + hex_field(" reads=0x", e.reads) + hex_field(" writes=0x", e.writes) + hex_field(
        " matches=0x",
        e.matches,
    ) + hex_field(" read_mask=0x", e.last_read_mask) + hex_field(" write_mask=0x", e.last_write_mask)
        + hex_field(" mode=0x", e.last_mode) + "\r\n".spec_bytes()
}

/// `s` followed by the lines for the first `n` wait objects.
pub open spec fn append_osal_waits(s: Seq<u8>, waits: Seq<OsalWaitReport>, n: int) -> Seq<u8>
    decreases n,
{
    if n <= 0 {
        s
    } else {
        append_osal_wait(append_osal_waits(s, waits, n - 1), waits[n - 1])
    }
}

/// `s` followed by the lines for the first `n` event objects.
pub open spec fn append_osal_events(s: Seq<u8>, events: Seq<OsalEventReport>, n: int) -> Seq<u8>
    decreases n,
{
    if n <= 0 {
        s
    } else {
        append_osal_event(append_osal_events(s, events, n - 1), events[n - 1])
    }
}

fn push_osal_wait(out: &mut Vec<u8>, w: &OsalWaitReport)
    ensures
        final(out)@ == append_osal_wait(old(out)@, *w),
{
    push_hex_field(out, "RFDBG_A5B_OSAL_WAIT wait=0x", w.wait as u32);
    push_hex_field(out, " sem=0x", w.semaphore as u32);
    push_hex_field(out, " pred=0x", w.predicate as u32);
    push_hex_field(out, " param=0x", w.parameter as u32);
    push_hex_field(out, " pred_now=0x", w.predicate_result as u32);
    push_hex_field(out, " blocks=0x", w.blocks);
    push_hex_field(out, " wakeups=0x", w.wakeups);
    push_hex_field(out, " ready=0x", w.ready_checks);
    push_hex_field(out, " wait_task=0x", w.last_wait_task as u32);
    push_hex_field(out, " wake_task=0x", w.last_wake_task as u32);
    push_hex_field(out, " wait_ra=0x", w.last_wait_caller as u32);
    push_hex_field(out, " wake_ra=0x", w.last_wake_caller as u32);
    push_str(out, "\r\n");
}

fn push_osal_event(out: &mut Vec<u8>, e: &OsalEventReport)
    ensures
        final(out)@ == append_osal_event(old(out)@, *e),
{
    push_hex_field(out, "RFDBG_A5B_OSAL_EVENT event=0x", e.event as u32);
    push_hex_field(out, " bits=0x", e.bits);
    push_hex_field(out, " reads=0x", e.reads);
    push_hex_field(out, " writes=0x", e.writes);
    push_hex_field(out, " matches=0x", e.matches);
    push_hex_field(out, " read_mask=0x", e.last_read_mask);
    push_hex_field(out, " write_mask=0x", e.last_write_mask);
    push_hex_field(out, " mode=0x", e.last_mode);
    push_str(out, "\r\n");
}

/// Append one line per wait object, then one line per event object.
pub fn write_osal_diagnostics(out: &mut Vec<u8>, waits: &[OsalWaitReport], events: &[OsalEventReport])
    ensures
        final(out)@ == append_osal_events(
            append_osal_waits(old(out)@, waits@, waits@.len() as int),
            events@,
            events@.len() as int,
        ),
{
    let ghost start = out@;
    let mut index: usize = 0;
    while index < waits.len()
        invariant
            index <= waits@.len(),
            out@ == append_osal_waits(start, waits@, index as int),
        decreases waits@.len() - index,
    {
        push_osal_wait(out, &waits[index]);
        index += 1;
    }
    let ghost middle = out@;
    let mut index: usize = 0;
    while index < events.len()
        invariant
            index <= events@.len(),
            out@ == append_osal_events(middle, events@, index as int),
        decreases events@.len() - index,
    {
        push_osal_event(out, &events[index]);
        index += 1;
    }
}

/// Occupancy of one memory arena. Sizes are reported in their low 32 bits.
#[derive(Clone, Copy, Debug, PartialEq, Eq)]
pub struct ArenaMetrics {
    pub arena_bytes: usize,
    pub used_bytes: usize,
    pub free_bytes: usize,
    pub peak_used_bytes: usize,
    pub allocation_attempts: usize,
    pub allocation_failures: usize,
}

/// The radio profile's resource plan.
#[derive(Clone, Copy, Debug, PartialEq, Eq)]
pub struct ResourceReport<'a> {
    pub schema: &'a str,
    pub profile_revision: &'a str,
    pub runtime_arena_bytes: Option<usize>,
    pub shared_rf_arena_bytes: Option<usize>,
    pub runtime_resources_calibrated: bool,
}

/// An optional size as reported: its low 32 bits, or 0 when absent.
pub open spec fn size_or_zero(size: Option<usize>) -> u32 {
    match size {
        Some(value) => value as u32,
        None => 0,
    }
}

/// `s` followed by the resource-plan line and the heap line for the
/// scheduler arena and the radio arena.
pub open spec fn append_heap_report(
    s: Seq<u8>,
    r: ResourceReport,
    scheduler: ArenaMetrics,
    radio: ArenaMetrics,
) -> Seq<u8> {
    let resources = s + "RFDBG_RESOURCE schema=".spec_bytes() + r.schema.spec_bytes()
        + " revision=".spec_bytes() + r.profile_revision.spec_bytes() + hex_field(
        " runtime_arena=0x",
        size_or_zero(r.runtime_arena_bytes),
    ) + hex_field(" rf_arena=0x", size_or_zero(r.shared_rf_arena_bytes)) + hex_field(
        " calibrated=0x",
        if r.runtime_resources_calibrated {
            1u32
        } else {
            0u32
        },
    ) + "\r\n".spec_bytes();
    resources + hex_field("RFDBG_HEAP rtos_arena=0x", scheduler.arena_bytes as u32) + hex_field(
        " rtos_used=0x",
        scheduler.used_bytes as u32,
    ) + hex_field(" rtos_free=0x", scheduler.free_bytes as u32) + hex_field(
        " rtos_peak=0x",
        scheduler.peak_used_bytes as u32,
    ) + hex_field(" rtos_allocs=0x", scheduler.allocation_attempts as u32) + hex_field(
        " rtos_failures=0x",
        scheduler.allocation_failures as u32,
    ) + hex_field(" rf_arena=0x", radio.arena_bytes as u32) + hex_field(
        " rf_used=0x",
        radio.used_bytes as u32,
    ) + hex_field(" rf_free=0x", radio.free_bytes as u32) + hex_field(
        " rf_peak=0x",
        radio.peak_used_bytes as u32,
    ) + hex_field(" rf_failures=0x", radio.allocation_failures as u32) + "\r\n".spec_bytes()
}

fn optional_size(size: Option<usize>) -> (reported: u32)
    ensures
        reported == size_or_zero(size),
{
    match size {
        Some(value) => value as u32,
        None => 0,
    }
}

/// Append the resource-plan line and the heap line.
pub fn write_heap_diagnostics(
    out: &mut Vec<u8>,
    resources: &ResourceReport,
    scheduler: &ArenaMetrics,
    radio: &ArenaMetrics,
)
    ensures
        final(out)@ == append_heap_report(old(out)@, *resources, *scheduler, *radio),
{
    push_str(out, "RFDBG_RESOURCE schema=");
    push_str(out, resources.schema);
    push_str(out, " revision=");
    push_str(out, resources.profile_revision);
    push_hex_field(out, " runtime_arena=0x", optional_size(resources.runtime_arena_bytes));
    push_hex_field(out, " rf_arena=0x", optional_size(resources.shared_rf_arena_bytes));
    let calibrated: u32 = if resources.runtime_resources_calibrated {
        1
    } else {
        0
    };
    push_hex_field(out, " calibrated=0x", calibrated);
    push_str(out, "\r\n");
    push_hex_field(out, "RFDBG_HEAP rtos_arena=0x", scheduler.arena_bytes as u32);
    push_hex_field(out, " rtos_used=0x", scheduler.used_bytes as u32);
    push_hex_field(out, " rtos_free=0x", scheduler.free_bytes as u32);
    push_hex_field(out, " rtos_peak=0x", scheduler.peak_used_bytes as u32);
    push_hex_field(out, " rtos_allocs=0x", scheduler.allocation_attempts as u32);
    push_hex_field(out, " rtos_failures=0x", scheduler.allocation_failures as u32);
    push_hex_field(out, " rf_arena=0x", radio.arena_bytes as u32);
    push_hex_field(out, " rf_used=0x", radio.used_bytes as u32);
    push_hex_field(out, " rf_free=0x", radio.free_bytes as u32);
    push_hex_field(out, " rf_peak=0x", radio.peak_used_bytes as u32);
    push_hex_field(out, " rf_failures=0x", radio.allocation_failures as u32);
    push_str(out, "\r\n");
}

/// `s` followed by the supplicant driver-event line: calls, last event kind
/// and length, and the connect calls, rejections and queued connects.
pub open spec fn append_driver_events(s: Seq<u8>, v: [u32; 6]) -> Seq<u8> {
    s + hex_field("RFDBG_DRIVER_EVENT calls=0x", v@[0]) + hex_field(" last_kind=0x", v@[1])
        + hex_field(" last_length=0x", v@[2]) + hex_field(" connect_calls=0x", v@[3]) + hex_field(
        " connect_reject=0x",
        v@[4],
    ) + hex_field(" connect_queued=0x", v@[5]) + "\r\n".spec_bytes()
}

/// Append the supplicant driver-event line.
pub fn write_driver_event_diagnostics(out: &mut Vec<u8>, values: &[u32; 6])
    ensures
        final(out)@ == append_driver_events(old(out)@, *values),
{
    push_hex_field(out, "RFDBG_DRIVER_EVENT calls=0x", values[0]);
    push_hex_field(out, " last_kind=0x", values[1]);
    push_hex_field(out, " last_length=0x", values[2]);
    push_hex_field(out, " connect_calls=0x", values[3]);
    push_hex_field(out, " connect_reject=0x", values[4]);
    push_hex_field(out, " connect_queued=0x", values[5]);
    push_str(out, "\r\n");
}

/// `s` followed by the P-256 accelerator line: requests and failures of point,
/// field and curve operations.
pub open spec fn append_p256_counters(s: Seq<u8>, point: [u32; 2], field: [u32; 2], curve: [u32; 2]) -> Seq<u8> {
    s + hex_field("RFDBG_SOFTAP_SAE p256_req=", point@[0]) + hex_field(" p256_fail=", point@[1])
        + hex_field(" field_req=", field@[0]) + hex_field(" field_fail=", field@[1]) + hex_field(
        " curve_req=",
        curve@[0],
    ) + hex_field(" curve_fail=", curve@[1]) + "\r\n".spec_bytes()
}

/// Append the P-256 accelerator line of the WPA3 SoftAP.
pub fn write_wpa3_crypto_diagnostics(out: &mut Vec<u8>, point: &[u32; 2], field: &[u32; 2], curve: &[u32; 2])
    ensures
        final(out)@ == append_p256_counters(old(out)@, *point, *field, *curve),
{
    push_hex_field(out, "RFDBG_SOFTAP_SAE p256_req=", point[0]);
    push_hex_field(out, " p256_fail=", point[1]);
    push_hex_field(out, " field_req=", field[0]);
    push_hex_field(out, " field_fail=", field[1]);
    push_hex_field(out, " curve_req=", curve[0]);
    push_hex_field(out, " curve_fail=", curve[1]);
    push_str(out, "\r\n");
}

} // verus!
