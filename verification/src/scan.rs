use vstd::prelude::*;
use vstd::string::StringSliceAdditionalSpecFns;

use crate::fnv::{fnv1a32, spec_fnv1a32};
use crate::text::{hex_field, push_hex_field, push_str};

verus! {

/// Link-layer security a scanned network advertises.
#[derive(Clone, Copy, Debug, PartialEq, Eq, Structural)]
pub enum Security {
    Open,
    Wpa2Personal,
    Wpa3Personal,
    Wpa2Wpa3PersonalTransition,
    OtherProtected,
}

/// The name a security mode is reported under.
pub open spec fn spec_security_name(security: Security) -> Seq<char> {
    match security {
        Security::Open => "open"@,
        Security::Wpa2Personal => "wpa2"@,
        Security::Wpa3Personal => "wpa3"@,
        Security::Wpa2Wpa3PersonalTransition => "wpa2-wpa3"@,
        Security::OtherProtected => "other"@,
    }
}

/// The name a security mode is reported under.
pub fn security_name(security: Security) -> (name: &'static str)
    ensures
        name@ == spec_security_name(security),
{
    match security {
        Security::Open => "open",
        Security::Wpa2Personal => "wpa2",
        Security::Wpa3Personal => "wpa3",
        Security::Wpa2Wpa3PersonalTransition => "wpa2-wpa3",
        Security::OtherProtected => "other",
    }
}

/// One network found by a scan.
#[derive(Clone, Debug, PartialEq, Eq)]
pub struct ScanEntry {
    pub ssid: Vec<u8>,
    pub channel: u8,
    pub security: Security,
}

/// Whether two byte strings are equal.
pub fn bytes_equal(a: &[u8], b: &[u8]) -> (equal: bool)
    ensures
        equal == (a@ == b@),
{
    if a.len() != b.len() {
        return false;
    }
    let mut index: usize = 0;
    while index < a.len()
        invariant
            a@.len() == b@.len(),
            index <= a@.len(),
            forall|k: int| 0 <= k < index ==> a@[k] == b@[k],
        decreases a@.len() - index,
    {
        if a[index] != b[index] {
            return false;
        }
        index += 1;
    }
    assert(a@ =~= b@);
    true
}

/// The first network in `results` whose SSID is `target`.
pub fn find_network(results: &[ScanEntry], target: &[u8]) -> (found: Option<usize>)
    ensures
        found matches Some(i) ==> i < results@.len() && results@[i as int].ssid@ == target@ && (
        forall|j: int| 0 <= j < i ==> results@[j].ssid@ != target@),
        found is None ==> forall|j: int| 0 <= j < results@.len() ==> results@[j].ssid@ != target@,
{
    let mut index: usize = 0;
    while index < results.len()
        invariant
            index <= results@.len(),
            forall|j: int| 0 <= j < index ==> results@[j].ssid@ != target@,
        decreases results@.len() - index,
    {
        if bytes_equal(results[index].ssid.as_slice(), target) {
            return Some(index);
        }
        index += 1;
    }
    None
}

/// `s` followed by the line that identifies the network being looked for.
pub open spec fn append_scan_target(s: Seq<u8>, target: Seq<u8>) -> Seq<u8> {
    s + hex_field("RFDBG_SCAN_TARGET len=0x", target.len() as u32) + hex_field(
        " hash=0x",
        spec_fnv1a32(target),
    ) + "\r\n".spec_bytes()
}

/// The line that describes scan result number `index`.
pub open spec fn scan_result_line(index: int, entry: ScanEntry) -> Seq<u8> {
    hex_field("RFDBG_SCAN_RESULT index=0x", index as u32) + hex_field(
        " len=0x",
        entry.ssid@.len() as u32,
    ) + hex_field(" hash=0x", spec_fnv1a32(entry.ssid@)) + hex_field(
        " channel=0x",
        entry.channel as u32,
    ) + " security=".spec_bytes() + spec_security_name(entry.security).map_values(
        |c: char| c as u8,
    ) + "\r\n".spec_bytes()
}

/// `s` followed by the lines for the first `n` scan results.
pub open spec fn append_scan_results(s: Seq<u8>, results: Seq<ScanEntry>, n: int) -> Seq<u8>
    decreases n,
{
    if n <= 0 {
        s
    } else {
        append_scan_results(s, results, n - 1) + scan_result_line(n - 1, results[n - 1])
    }
}

proof fn lemma_security_name_bytes(security: Security, name: &str)
    requires
        name@ == spec_security_name(security),
    ensures
        name.spec_bytes() == spec_security_name(security).map_values(|c: char| c as u8),
{
    match security {
        Security::Open => reveal_strlit("open"),
        Security::Wpa2Personal => reveal_strlit("wpa2"),
        Security::Wpa3Personal => reveal_strlit("wpa3"),
        Security::Wpa2Wpa3PersonalTransition => reveal_strlit("wpa2-wpa3"),
        Security::OtherProtected => reveal_strlit("other"),
    }
    assert(vstd::string::is_ascii(name));
    vstd::string::is_ascii_spec_bytes(name);
    assert(name.spec_bytes() =~= spec_security_name(security).map_values(|c: char| c as u8));
}

fn push_scan_result_line(out: &mut Vec<u8>, index: usize, entry: &ScanEntry)
    ensures
        final(out)@ == old(out)@ + scan_result_line(index as int, *entry),
{
    push_hex_field(out, "RFDBG_SCAN_RESULT index=0x", index as u32);
    push_hex_field(out, " len=0x", entry.ssid.len() as u32);
    push_hex_field(out, " hash=0x", fnv1a32(entry.ssid.as_slice()));
    push_hex_field(out, " channel=0x", entry.channel as u32);
    push_str(out, " security=");
    let name = security_name(entry.security);
    proof {
        lemma_security_name_bytes(entry.security, name);
    }
    push_str(out, name);
    push_str(out, "\r\n");
    assert(final(out)@ =~= old(out)@ + scan_result_line(index as int, *entry));
}

/// Append what a scan found when the wanted network was not among it: the
/// wanted SSID's length and hash, then one line per result.
pub fn write_scan_inventory(out: &mut Vec<u8>, target: &[u8], results: &[ScanEntry])
    ensures
        final(out)@ == append_scan_results(
            append_scan_target(old(out)@, target@),
            results@,
            results@.len() as int,
        ),
{
    push_hex_field(out, "RFDBG_SCAN_TARGET len=0x", target.len() as u32);
    push_hex_field(out, " hash=0x", fnv1a32(target));
    push_str(out, "\r\n");
    let ghost head = out@;
    let mut index: usize = 0;
    while index < results.len()
        invariant
            index <= results@.len(),
            out@ == append_scan_results(head, results@, index as int),
        decreases results@.len() - index,
    {
        push_scan_result_line(out, index, &results[index]);
        index += 1;
    }
}

/// How one scan attempt ended.
#[derive(Clone, Copy, Debug, PartialEq, Eq, Structural)]
pub enum ScanAttempt {
    /// The scan did not finish within the outer deadline.
    DeadlineExceeded,
    /// The scan finished; `found` tells whether the wanted network was in it.
    Completed { found: bool },
    /// The radio reported an error; `operation_timeout` tells whether its code
    /// was the operation timeout.
    Failed { operation_timeout: bool },
}

/// Why scanning gives up.
#[derive(Clone, Copy, Debug, PartialEq, Eq, Structural)]
pub enum ScanHalt {
    DeadlineExceeded,
    NetworkNotFound,
    RadioError,
    /// The event that followed a scan did not match how the scan returned.
    EventMismatch,
    /// An input came that the stage was not waiting for.
    OutOfOrder,
}

/// What to do after a scan attempt.
#[derive(Clone, Copy, Debug, PartialEq, Eq, Structural)]
pub enum ScanDecision {
    /// The wanted network was found: go on to connect.
    Accept,
    /// Wait briefly and scan once more.
    Retry,
    /// Stop.
    Halt(ScanHalt),
}

/// The scan policy: a scan that finds the network is accepted; a scan that
/// misses it, or fails with the operation timeout, is retried once; anything
/// else stops.
pub open spec fn spec_scan_decision(retries: u8, attempt: ScanAttempt) -> ScanDecision {
    match attempt {
        ScanAttempt::DeadlineExceeded => ScanDecision::Halt(ScanHalt::DeadlineExceeded),
        ScanAttempt::Completed { found } => if found {
            ScanDecision::Accept
        } else if retries == 0 {
            ScanDecision::Retry
        } else {
            ScanDecision::Halt(ScanHalt::NetworkNotFound)
        },
        ScanAttempt::Failed { operation_timeout } => if retries == 0 && operation_timeout {
            ScanDecision::Retry
        } else {
            ScanDecision::Halt(ScanHalt::RadioError)
        },
    }
}

/// Decide what follows a scan attempt, given how many retries were made so far.
/// A retry is counted in the returned retry count.
pub fn next_scan_step(retries: u8, attempt: ScanAttempt) -> (step: (ScanDecision, u8))
    ensures
        step.0 == spec_scan_decision(retries, attempt),
        step.1 == (if step.0 == ScanDecision::Retry {
            1
        } else {
            retries
        }),
{
    match attempt {
        ScanAttempt::DeadlineExceeded => (ScanDecision::Halt(ScanHalt::DeadlineExceeded), retries),
        ScanAttempt::Completed { found } => {
            if found {
                (ScanDecision::Accept, retries)
            } else if retries == 0 {
                (ScanDecision::Retry, 1)
            } else {
                (ScanDecision::Halt(ScanHalt::NetworkNotFound), retries)
            }
        },
        ScanAttempt::Failed { operation_timeout } => {
            if retries == 0 && operation_timeout {
                (ScanDecision::Retry, 1)
            } else {
                (ScanDecision::Halt(ScanHalt::RadioError), retries)
            }
        },
    }
}

/// The attempt number reported in scan diagnostics.
pub fn scan_attempt_number(retries: u8) -> (attempt: u32)
    ensures
        attempt == retries + 1,
{
    retries as u32 + 1
}

/// The number of scans the scan loop performs when its attempts end as
/// `attempts` in turn (starting with `retries` retries made).
pub open spec fn scans_performed(retries: u8, attempts: Seq<ScanAttempt>) -> nat
    decreases attempts.len(),
{
    if attempts.len() == 0 {
        0
    } else if spec_scan_decision(retries, attempts[0]) == ScanDecision::Retry {
        1 + scans_performed(1, attempts.drop_first())
    } else {
        1
    }
}

/// Scanning stops after at most two scans, whatever the attempts bring.
pub proof fn lemma_scan_tries_at_most_twice(attempts: Seq<ScanAttempt>)
    ensures
        scans_performed(0, attempts) <= 2,
{
    if attempts.len() > 0 && spec_scan_decision(0, attempts[0]) == ScanDecision::Retry {
        let rest = attempts.drop_first();
        if rest.len() > 0 {
            assert(spec_scan_decision(1, rest[0]) != ScanDecision::Retry);
        }
        assert(scans_performed(1, rest) <= 1);
    }
}

/// Whether two scan entries agree on everything an inventory line shows of
/// them: SSID length and hash, channel and security.
pub open spec fn same_scan_summary(a: ScanEntry, b: ScanEntry) -> bool {
    &&& a.ssid@.len() == b.ssid@.len()
    &&& spec_fnv1a32(a.ssid@) == spec_fnv1a32(b.ssid@)
    &&& a.channel == b.channel
    &&& a.security == b.security
}

proof fn lemma_scan_results_show_only_summaries(s: Seq<u8>, a: Seq<ScanEntry>, b: Seq<ScanEntry>, n: int)
    requires
        0 <= n <= a.len(),
        a.len() == b.len(),
        forall|i: int| 0 <= i < a.len() ==> same_scan_summary(#[trigger] a[i], b[i]),
    ensures
        append_scan_results(s, a, n) == append_scan_results(s, b, n),
    decreases n,
{
    if n > 0 {
        lemma_scan_results_show_only_summaries(s, a, b, n - 1);
        assert(same_scan_summary(a[n - 1], b[n - 1]));
        assert(scan_result_line(n - 1, a[n - 1]) == scan_result_line(n - 1, b[n - 1]));
    }
}

/// SSIDs reach the scan inventory only through their length and FNV-1a hash:
/// two inventories whose wanted SSIDs and results agree on those (and on
/// channel and security) are the same bytes.
pub proof fn lemma_inventory_shows_only_summaries(
    s: Seq<u8>,
    target_a: Seq<u8>,
    target_b: Seq<u8>,
    a: Seq<ScanEntry>,
    b: Seq<ScanEntry>,
)
    requires
        target_a.len() == target_b.len(),
        spec_fnv1a32(target_a) == spec_fnv1a32(target_b),
        a.len() == b.len(),
        forall|i: int| 0 <= i < a.len() ==> same_scan_summary(#[trigger] a[i], b[i]),
    ensures
        append_scan_results(append_scan_target(s, target_a), a, a.len() as int)
            == append_scan_results(append_scan_target(s, target_b), b, b.len() as int),
{
    assert(append_scan_target(s, target_a) == append_scan_target(s, target_b));
    lemma_scan_results_show_only_summaries(append_scan_target(s, target_a), a, b, a.len() as int);
}

/// Where the scan stage of the station stands.
#[derive(Clone, Copy, Debug, PartialEq, Eq, Structural)]
pub enum ScanStage {
    /// A scan is running; `retries` retries were made before it.
    Scanning { retries: u8 },
    /// The scan returned as `attempt`; its event must be taken and checked.
    AwaitingEvent { retries: u8, attempt: ScanAttempt },
    /// The stage is over: the station connects or stops.
    Finished,
}

/// What the scan stage hears.
#[derive(Clone, Copy, Debug, PartialEq, Eq, Structural)]
pub enum ScanInput {
    /// The running scan returned (completed or failed) as `attempt`.
    Returned { attempt: ScanAttempt },
    /// The running scan did not return within the outer deadline.
    DeadlineExceeded,
    /// The event that followed the scan was taken; `matches` tells whether it
    /// announced the scan as it returned.
    EventChecked { matches: bool },
}

/// What the station does next in the scan stage.
#[derive(Clone, Copy, Debug, PartialEq, Eq, Structural)]
pub enum ScanCommand {
    /// Take the next radio event and check it against the scan.
    TakeEvent,
    /// Pause, then scan again; first report the scan state when the scan failed.
    RetryAfterPause { report_scan_state: bool },
    /// The wanted network was found: connect to it.
    Connect,
    /// Stop, for this reason.
    Halt(ScanHalt),
}

/// The scan stage: a returned scan is followed by taking its event; only a
/// matching event lets the scan policy decide between connecting, one retry
/// and stopping; a deadline, a mismatch or an input out of order stops.
pub open spec fn spec_scan_stage_step(stage: ScanStage, input: ScanInput) -> (ScanStage, ScanCommand) {
    match (stage, input) {
        (ScanStage::Scanning { .. }, ScanInput::DeadlineExceeded) => (
            ScanStage::Finished,
            ScanCommand::Halt(ScanHalt::DeadlineExceeded),
        ),
        (ScanStage::Scanning { retries }, ScanInput::Returned { attempt }) => (
            ScanStage::AwaitingEvent { retries, attempt },
            ScanCommand::TakeEvent,
        ),
        (ScanStage::AwaitingEvent { retries, attempt }, ScanInput::EventChecked { matches }) => {
            if !matches {
                (ScanStage::Finished, ScanCommand::Halt(ScanHalt::EventMismatch))
            } else {
                match spec_scan_decision(retries, attempt) {
                    ScanDecision::Accept => (ScanStage::Finished, ScanCommand::Connect),
                    ScanDecision::Retry => (
                        ScanStage::Scanning { retries: 1 },
                        ScanCommand::RetryAfterPause { report_scan_state: attempt is Failed },
                    ),
                    ScanDecision::Halt(reason) => (ScanStage::Finished, ScanCommand::Halt(reason)),
                }
            }
        },
        _ => (ScanStage::Finished, ScanCommand::Halt(ScanHalt::OutOfOrder)),
    }
}

/// One step of the scan stage.
pub fn scan_stage_step(stage: ScanStage, input: ScanInput) -> (next: (ScanStage, ScanCommand))
    ensures
        next == spec_scan_stage_step(stage, input),
        next.1 is RetryAfterPause ==> next.0 == (ScanStage::Scanning { retries: 1 }),
{
    match (stage, input) {
        (ScanStage::Scanning { .. }, ScanInput::DeadlineExceeded) => (
            ScanStage::Finished,
            ScanCommand::Halt(ScanHalt::DeadlineExceeded),
        ),
        (ScanStage::Scanning { retries }, ScanInput::Returned { attempt }) => (
            ScanStage::AwaitingEvent { retries, attempt },
            ScanCommand::TakeEvent,
        ),
        (ScanStage::AwaitingEvent { retries, attempt }, ScanInput::EventChecked { matches }) => {
            if !matches {
                (ScanStage::Finished, ScanCommand::Halt(ScanHalt::EventMismatch))
            } else {
                let (decision, next_retries) = next_scan_step(retries, attempt);
                match decision {
                    ScanDecision::Accept => (ScanStage::Finished, ScanCommand::Connect),
                    ScanDecision::Retry => {
                        let failed = match attempt {
                            ScanAttempt::Failed { .. } => true,
                            _ => false,
                        };
                        (
                            ScanStage::Scanning { retries: next_retries },
                            ScanCommand::RetryAfterPause { report_scan_state: failed },
                        )
                    },
                    ScanDecision::Halt(reason) => (ScanStage::Finished, ScanCommand::Halt(reason)),
                }
            }
        },
        _ => (ScanStage::Finished, ScanCommand::Halt(ScanHalt::OutOfOrder)),
    }
}

/// Whether a stage keeps its retry count in range.
pub open spec fn scan_stage_in_range(stage: ScanStage) -> bool {
    match stage {
        ScanStage::Scanning { retries } => retries <= 1,
        ScanStage::AwaitingEvent { retries, .. } => retries <= 1,
        ScanStage::Finished => true,
    }
}

/// Each scan that returns is followed by taking exactly one event before
/// anything else: the stage then waits for that event alone, and a scan is
/// retried, or a connection begun, only right after a taken event matched the
/// scan. Retry counts stay in range.
pub proof fn lemma_scan_event_taken_before_next_step(stage: ScanStage, input: ScanInput)
    requires
        scan_stage_in_range(stage),
    ensures
        ({
            let (next, command) = spec_scan_stage_step(stage, input);
            &&& scan_stage_in_range(next)
            &&& (input is Returned && stage is Scanning) ==> command == ScanCommand::TakeEvent
                && next is AwaitingEvent
            &&& command == ScanCommand::TakeEvent ==> input is Returned && next is AwaitingEvent
            &&& (command is RetryAfterPause || command == ScanCommand::Connect) ==> stage is AwaitingEvent
                && input == (ScanInput::EventChecked { matches: true })
            &&& stage is AwaitingEvent && !(input is EventChecked) ==> command == ScanCommand::Halt(
                ScanHalt::OutOfOrder,
            )
        }),
{
}

/// The number of retries the scan stage commands when it starts at `stage`
/// and hears `inputs` in turn.
pub open spec fn retries_commanded(stage: ScanStage, inputs: Seq<ScanInput>) -> nat
    decreases inputs.len(),
{
    if inputs.len() == 0 {
        0
    } else {
        let (next, command) = spec_scan_stage_step(stage, inputs[0]);
        (if command is RetryAfterPause {
            1nat
        } else {
            0nat
        }) + retries_commanded(next, inputs.drop_first())
    }
}

/// Whether a stage has not yet used its retry.
pub open spec fn retry_unused(stage: ScanStage) -> bool {
    match stage {
        ScanStage::Scanning { retries } => retries == 0,
        ScanStage::AwaitingEvent { retries, .. } => retries == 0,
        ScanStage::Finished => false,
    }
}

/// A stage that has used its retry (or finished) never commands another.
proof fn lemma_no_retry_after_retry(stage: ScanStage, inputs: Seq<ScanInput>)
    requires
        !retry_unused(stage),
    ensures
        retries_commanded(stage, inputs) == 0,
    decreases inputs.len(),
{
    if inputs.len() > 0 {
        let (next, command) = spec_scan_stage_step(stage, inputs[0]);
        assert(!(command is RetryAfterPause));
        assert(!retry_unused(next));
        lemma_no_retry_after_retry(next, inputs.drop_first());
    }
}

/// A retry always moves the stage to scanning with the retry counted, and
/// whatever the radio does, the scan stage commands at most one retry: a
/// station scans at most twice before it connects or stops.
pub proof fn lemma_scan_stage_retries_once(stage: ScanStage, input: ScanInput, inputs: Seq<ScanInput>)
    ensures
        spec_scan_stage_step(stage, input).1 is RetryAfterPause ==> spec_scan_stage_step(
            stage,
            input,
        ).0 == (ScanStage::Scanning { retries: 1 }),
        retries_commanded(stage, inputs) <= 1,
    decreases inputs.len(),
{
    if inputs.len() > 0 {
        let (next, command) = spec_scan_stage_step(stage, inputs[0]);
        if command is RetryAfterPause {
            lemma_no_retry_after_retry(next, inputs.drop_first());
        } else {
            lemma_scan_stage_retries_once(next, input, inputs.drop_first());
        }
    }
}

} // verus!
