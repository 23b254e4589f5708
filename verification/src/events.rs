use vstd::prelude::*;
use vstd::string::StringSliceAdditionalSpecFns;
use vstd::utf8::encode_utf8;

use crate::radio_report::TraceEntry;
use crate::scan::bytes_equal;
use crate::text::push_str;

verus! {

/// The stable class of a backend failure.
#[derive(Clone, Copy, Debug, PartialEq, Eq, Structural)]
pub enum BackendClass {
    Initialize,
    Busy,
    OperationTimeout,
    BackendTimeout,
    Cancelled,
    ResourceUnavailable,
    UnsupportedSecurity,
    Connect,
    Other,
}

/// Number of entries a backend failure's trace holds.
pub const BACKEND_TRACE_CAPACITY: usize = 4;

/// A backend failure as the radio reports it: its class, its backend code,
/// the name of the stage it happened in, the profile revision that produced
/// it, its trace (the entries in order, then empty slots) and whether further
/// trace entries were dropped.
#[derive(Clone, Copy, Debug, PartialEq, Eq)]
pub struct BackendFailure<'a> {
    pub class: BackendClass,
    pub code: u32,
    pub stage: &'a str,
    pub profile_revision: Option<&'a str>,
    pub trace: [Option<TraceEntry<'a>>; 4],
    pub trace_truncated: bool,
}

/// A radio event.
#[derive(Clone, Copy, Debug, PartialEq, Eq)]
pub enum RadioEvent<'a> {
    Initialized,
    ScanCompleted { count: usize, truncated: bool },
    Connected,
    Disconnected { reason: u16 },
    Failed(BackendFailure<'a>),
}

/// How a scan call returned.
#[derive(Clone, Copy, Debug, PartialEq, Eq)]
pub enum ScanReport<'a> {
    Completed { count: usize, truncated: bool },
    AlreadyInitialized,
    Backend(BackendFailure<'a>),
    Protocol,
}

/// Whether two texts are the same bytes.
pub open spec fn same_text(a: &str, b: &str) -> bool {
    a.spec_bytes() == b.spec_bytes()
}

/// Whether two trace slots hold the same entry, or are both empty.
pub open spec fn same_trace_slot(a: Option<TraceEntry>, b: Option<TraceEntry>) -> bool {
    match (a, b) {
        (None, None) => true,
        (Some(x), Some(y)) => same_text(x.kind, y.kind) && x.value == y.value,
        _ => false,
    }
}

/// Whether two backend failures are the same failure: every field agrees.
pub open spec fn same_failure(a: BackendFailure, b: BackendFailure) -> bool {
    &&& a.class == b.class
    &&& a.code == b.code
    &&& same_text(a.stage, b.stage)
    &&& match (a.profile_revision, b.profile_revision) {
        (None, None) => true,
        (Some(x), Some(y)) => same_text(x, y),
        _ => false,
    }
    &&& forall|i: int| 0 <= i < 4 ==> same_trace_slot(#[trigger] a.trace[i], b.trace[i])
    &&& a.trace_truncated == b.trace_truncated
}

fn texts_equal(a: &str, b: &str) -> (equal: bool)
    ensures
        equal == same_text(a, b),
{
    bytes_equal(a.as_bytes(), b.as_bytes())
}

fn trace_slots_equal(a: &Option<TraceEntry>, b: &Option<TraceEntry>) -> (equal: bool)
    ensures
        equal == same_trace_slot(*a, *b),
{
    match (a, b) {
        (None, None) => true,
        (Some(x), Some(y)) => x.value == y.value && texts_equal(x.kind, y.kind),
        _ => false,
    }
}

/// Whether two backend failures are the same failure.
pub fn failures_equal(a: &BackendFailure, b: &BackendFailure) -> (equal: bool)
    ensures
        equal == same_failure(*a, *b),
{
    let revisions = match (a.profile_revision, b.profile_revision) {
        (None, None) => true,
        (Some(x), Some(y)) => texts_equal(x, y),
        _ => false,
    };
    let mut slots = true;
    let mut i: usize = 0;
    while i < BACKEND_TRACE_CAPACITY
        invariant
            i <= 4,
            slots == (forall|k: int| 0 <= k < i ==> same_trace_slot(#[trigger] a.trace[k], b.trace[k])),
        decreases 4 - i,
    {
        let same = trace_slots_equal(&a.trace[i], &b.trace[i]);
        slots = slots && same;
        i += 1;
    }
    a.class == b.class && a.code == b.code && texts_equal(a.stage, b.stage) && revisions && slots
        && a.trace_truncated == b.trace_truncated
}

/// The event the connection sequence waits for next.
#[derive(Clone, Copy, Debug, PartialEq, Eq, Structural)]
pub enum ExpectedEvent {
    Initialized,
    Connected,
}

/// Whether `event` is the one a scan that returned `report` must announce: a
/// completion with the same count and truncation, the same backend failure, or
/// any failure after a protocol error.
pub open spec fn spec_scan_event_matches(report: ScanReport, event: RadioEvent) -> bool {
    match (report, event) {
        (
            ScanReport::Completed { count, truncated },
            RadioEvent::ScanCompleted { count: event_count, truncated: event_truncated },
        ) => count == event_count && truncated == event_truncated,
        (ScanReport::Backend(expected), RadioEvent::Failed(actual)) => same_failure(expected, actual),
        (ScanReport::Protocol, RadioEvent::Failed(_)) => true,
        _ => false,
    }
}

/// The name an event kind is reported under.
pub open spec fn spec_event_name(event: RadioEvent) -> Seq<char> {
    match event {
        RadioEvent::Initialized => "initialized"@,
        RadioEvent::ScanCompleted { .. } => "scan-completed"@,
        RadioEvent::Connected => "connected"@,
        RadioEvent::Disconnected { .. } => "disconnected"@,
        RadioEvent::Failed(_) => "failed"@,
    }
}

/// The name an event kind is reported under.
pub fn event_name(event: &RadioEvent) -> (name: &'static str)
    ensures
        name@ == spec_event_name(*event),
{
    match event {
        RadioEvent::Initialized => "initialized",
        RadioEvent::ScanCompleted { .. } => "scan-completed",
        RadioEvent::Connected => "connected",
        RadioEvent::Disconnected { .. } => "disconnected",
        RadioEvent::Failed(_) => "failed",
    }
}

/// `s` followed by the line that reports an event nobody waited for.
pub open spec fn append_unexpected_event(s: Seq<u8>, event: RadioEvent) -> Seq<u8> {
    s + "RFDBG_A4_EVENT_ERR reason=unexpected kind=".spec_bytes() + encode_utf8(
        spec_event_name(event),
    ) + "\r\n".spec_bytes()
}

/// Append the line that reports an event nobody waited for.
pub fn write_unexpected_event(out: &mut Vec<u8>, event: &RadioEvent)
    ensures
        final(out)@ == append_unexpected_event(old(out)@, *event),
{
    push_str(out, "RFDBG_A4_EVENT_ERR reason=unexpected kind=");
    push_str(out, event_name(event));
    push_str(out, "\r\n");
}

/// Check the event that follows a scan. A mismatch is reported on `out`.
pub fn check_scan_event(out: &mut Vec<u8>, report: &ScanReport, event: &RadioEvent) -> (matches:
    bool)
    ensures
        matches == spec_scan_event_matches(*report, *event),
        final(out)@ == (if matches {
            old(out)@
        } else {
            append_unexpected_event(old(out)@, *event)
        }),
{
    let matches = match (report, event) {
        (
            ScanReport::Completed { count, truncated },
            RadioEvent::ScanCompleted { count: event_count, truncated: event_truncated },
        ) => *count == *event_count && *truncated == *event_truncated,
        (ScanReport::Backend(expected), RadioEvent::Failed(actual)) => failures_equal(expected, actual),
        (ScanReport::Protocol, RadioEvent::Failed(_)) => true,
        _ => false,
    };
    if !matches {
        write_unexpected_event(out, event);
    }
    matches
}

/// Whether `event` is the event `expected`.
pub open spec fn spec_expected_event_matches(expected: ExpectedEvent, event: RadioEvent) -> bool {
    match (expected, event) {
        (ExpectedEvent::Initialized, RadioEvent::Initialized) => true,
        (ExpectedEvent::Connected, RadioEvent::Connected) => true,
        _ => false,
    }
}

/// `s` followed by the line that reports the awaited event.
pub open spec fn append_expected_event(s: Seq<u8>, event: RadioEvent) -> Seq<u8> {
    s + "A4_RADIO_EVENT kind=".spec_bytes() + encode_utf8(spec_event_name(event))
        + "\r\n".spec_bytes()
}

/// Check the event that follows initialization or connection. The awaited
/// event is reported on `out`, and so is a mismatch.
pub fn check_expected_event(out: &mut Vec<u8>, expected: ExpectedEvent, event: &RadioEvent) -> (matches: bool)
    ensures
        matches == spec_expected_event_matches(expected, *event),
        final(out)@ == (if matches {
            append_expected_event(old(out)@, *event)
        } else {
            append_unexpected_event(old(out)@, *event)
        }),
{
    let matches = match (expected, event) {
        (ExpectedEvent::Initialized, RadioEvent::Initialized) => true,
        (ExpectedEvent::Connected, RadioEvent::Connected) => true,
        _ => false,
    };
    if matches {
        push_str(out, "A4_RADIO_EVENT kind=");
        push_str(out, event_name(event));
        push_str(out, "\r\n");
    } else {
        write_unexpected_event(out, event);
    }
    matches
}

} // verus!
