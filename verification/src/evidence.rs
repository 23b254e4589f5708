use vstd::prelude::*;
use vstd::string::StringSliceAdditionalSpecFns;

use crate::radio_report::{
    append_blocking_report, append_hex_values, append_osal_events, append_osal_waits,
    append_queue_report, write_blocking_report, write_hex_list, write_osal_diagnostics,
    write_queue_report, BlockingReport, FrwSyncReport, OsalEventReport, OsalWaitReport,
    QueueReport,
};
use crate::rtos_report::{
    append_scheduler_health, append_task_lines, write_rtos_task_diagnostics, SchedulerHealth,
    TaskReport,
};
use crate::station::{
    append_runner_diagnostics, append_wait_diagnostics, write_runner_diagnostics,
    write_wait_diagnostics, RunnerDiagnostics, WaitDiagnostics,
};
use crate::text::push_str;

verus! {

/// The runner counters as the radio hands them out: only the incremental
/// runner keeps them.
#[derive(Clone, Copy, Debug, PartialEq, Eq)]
pub enum RunnerSnapshot {
    Incremental(RunnerDiagnostics),
    Blocking,
}

/// Everything the station prints after a connection attempt, read from the
/// radio, its OS layer and the scheduler at one moment.
#[derive(Clone, Copy, Debug)]
pub struct ConnectionEvidence<'a> {
    pub queues: QueueReport,
    pub runner: RunnerSnapshot,
    pub wait: WaitDiagnostics,
    pub osal_waits: &'a [OsalWaitReport],
    pub osal_events: &'a [OsalEventReport],
    pub blocking: BlockingReport,
    pub frw_sync: FrwSyncReport,
    pub scheduler: SchedulerHealth,
    pub tasks: &'a [TaskReport],
    /// Calls, last and longest time of the first, clear, retry and
    /// deauthenticate association requests, in that order.
    pub association: [u32; 12],
}

/// `s` followed by the runner line, or the line that says the runner keeps no counters.
pub open spec fn append_runner_snapshot(s: Seq<u8>, runner: RunnerSnapshot) -> Seq<u8> {
    match runner {
        RunnerSnapshot::Incremental(d) => append_runner_diagnostics(s, d),
        RunnerSnapshot::Blocking => s + "RFDBG_A5B_RUNNER_ERR reason=wrong_profile\r\n".spec_bytes(),
    }
}

/// `s` followed by the queue, runner and wait lines.
pub open spec fn append_radio_state(s: Seq<u8>, e: ConnectionEvidence) -> Seq<u8> {
    append_wait_diagnostics(append_runner_snapshot(append_queue_report(s, e.queues), e.runner), e.wait)
}

/// `s` followed by the wait-object and event-object lines of the OS layer.
pub open spec fn append_osal_state(s: Seq<u8>, e: ConnectionEvidence) -> Seq<u8> {
    append_osal_events(
        append_osal_waits(s, e.osal_waits@, e.osal_waits@.len() as int),
        e.osal_events@,
        e.osal_events@.len() as int,
    )
}

/// `s` followed by the scheduler-health line and one line per task.
pub open spec fn append_scheduler_state(s: Seq<u8>, e: ConnectionEvidence) -> Seq<u8> {
    append_task_lines(append_scheduler_health(s, e.scheduler), e.tasks@, e.tasks@.len() as int)
}

/// `s` followed by the association-timing line and the closing line.
pub open spec fn append_association(s: Seq<u8>, association: [u32; 12]) -> Seq<u8> {
    append_hex_values(s + "RFDBG_A5B_CONNECT_ASSOC_IOCTL".spec_bytes(), association@, 12)
        + "\r\n".spec_bytes() + "RFDBG_A5B_CONNECT_PROFILE_OK\r\n".spec_bytes()
}

/// `s` followed by the whole connection evidence, section by section.
pub open spec fn append_connection_evidence(s: Seq<u8>, e: ConnectionEvidence) -> Seq<u8> {
    append_association(
        append_scheduler_state(
            append_blocking_report(append_osal_state(append_radio_state(s, e), e), e.blocking, e.frw_sync),
            e,
        ),
        e.association,
    )
}

/// Append the connection evidence: queues, runner, waits, the OS layer's wait
/// and event objects, blocking calls, the scheduler and its tasks, and the
/// association timings.
pub fn write_connection_evidence(out: &mut Vec<u8>, evidence: &ConnectionEvidence)
    ensures
        final(out)@ == append_connection_evidence(old(out)@, *evidence),
{
    write_queue_report(out, &evidence.queues);
    match &evidence.runner {
        RunnerSnapshot::Incremental(d) => write_runner_diagnostics(out, d),
        RunnerSnapshot::Blocking => push_str(out, "RFDBG_A5B_RUNNER_ERR reason=wrong_profile\r\n"),
    }
    write_wait_diagnostics(out, &evidence.wait);
    write_osal_diagnostics(out, evidence.osal_waits, evidence.osal_events);
    write_blocking_report(out, &evidence.blocking, &evidence.frw_sync);
    write_rtos_task_diagnostics(out, &evidence.scheduler, evidence.tasks);
    let association: &[u32] = &evidence.association;
    write_hex_list(out, "RFDBG_A5B_CONNECT_ASSOC_IOCTL", association);
    push_str(out, "RFDBG_A5B_CONNECT_PROFILE_OK\r\n");
}

} // verus!
