use vstd::prelude::*;
use vstd::string::StringSliceAdditionalSpecFns;
use vstd::utf8::encode_utf8;

use crate::station::{spec_task_state_name, task_state_name, TaskState};
use crate::text::{hex_field, push_hex_field, push_str};

verus! {

/// Scheduler consistency counters.
#[derive(Clone, Copy, Debug, PartialEq, Eq)]
pub struct SchedulerHealth {
    pub ready_ownership_violations: u8,
    pub ready_queue_duplicate_memberships: u8,
    pub ready_queue_wrong_priorities: u8,
    pub ready_queue_invalid_links: u8,
    pub detached_pending_priority_mutations: u32,
    pub detached_pending_policy_mutations: u32,
}

/// What the scheduler reports about one task.
#[derive(Clone, Copy, Debug, PartialEq, Eq)]
pub struct TaskReport {
    pub task: usize,
    pub state: TaskState,
    pub entry: usize,
    pub base_priority: u8,
    pub priority: u8,
    pub ready_queued: bool,
    pub pending_switch_target: bool,
    pub ready_queue_bucket: u8,
    pub ready_queue_memberships: u8,
    pub waiting_sem: usize,
    pub wake_at: u64,
    pub dispatches: u32,
    pub max_ready_latency_ms: u64,
    pub max_continuous_run_ms: u64,
    pub max_scheduler_lock_ms: u64,
}

/// A duration as reported: capped at `u32::MAX`.
pub open spec fn capped_ms(ms: u64) -> u32 {
    if ms > u32::MAX {
        u32::MAX
    } else {
        ms as u32
    }
}

/// A flag as reported: `1` when set, `0` when clear.
pub open spec fn flag_text(value: bool) -> Seq<u8> {
    if value {
        "1".spec_bytes()
    } else {
        "0".spec_bytes()
    }
}

/// `s` followed by the scheduler-health line.
pub open spec fn append_scheduler_health(s: Seq<u8>, h: SchedulerHealth) -> Seq<u8> {
    s + hex_field("RFDBG_A5B_SCHED ready_owner_err=0x", h.ready_ownership_violations as u32)
        + hex_field(" ready_dup=0x", h.ready_queue_duplicate_memberships as u32) + hex_field(
        " ready_wrong_bucket=0x",
        h.ready_queue_wrong_priorities as u32,
    ) + hex_field(" ready_bad_link=0x", h.ready_queue_invalid_links as u32) + hex_field(
        " detached_prio_mut=0x",
        h.detached_pending_priority_mutations,
    ) + hex_field(" detached_policy_mut=0x", h.detached_pending_policy_mutations)
        + "\r\n".spec_bytes()
}

/// `s` followed by the line for one task. Addresses, wake time and ready
/// latency are reported in their low 32 bits; run and lock spans are capped.
pub open spec fn append_task_line(s: Seq<u8>, t: TaskReport) -> Seq<u8> {
    let head = s + hex_field("RFDBG_A5B_TASK id=0x", t.task as u32) + " state=".spec_bytes()
        + encode_utf8(spec_task_state_name(t.state)) + hex_field(" entry=0x", t.entry as u32)
        + hex_field(" base_prio=0x", t.base_priority as u32) + hex_field(
        " prio=0x",
        t.priority as u32,
    ) + " ready_queued=".spec_bytes() + flag_text(t.ready_queued) + " pending_target=".spec_bytes()
        + flag_text(t.pending_switch_target);
    head + hex_field(" ready_bucket=0x", t.ready_queue_bucket as u32) + hex_field(
        " ready_memberships=0x",
        t.ready_queue_memberships as u32,
    ) + hex_field(" wait_sem=0x", t.waiting_sem as u32) + hex_field(
        " wake_at=0x",
        t.wake_at as u32,
    ) + hex_field(" dispatches=0x", t.dispatches) + hex_field(
        " max_ready_ms=0x",
        t.max_ready_latency_ms as u32,
    ) + hex_field(" max_run_ms=0x", capped_ms(t.max_continuous_run_ms)) + hex_field(
        " max_lock_ms=0x",
        capped_ms(t.max_scheduler_lock_ms),
    ) + "\r\n".spec_bytes()
}

/// `s` followed by the lines for the first `n` tasks.
pub open spec fn append_task_lines(s: Seq<u8>, tasks: Seq<TaskReport>, n: int) -> Seq<u8>
    decreases n,
{
    if n <= 0 {
        s
    } else {
        append_task_line(append_task_lines(s, tasks, n - 1), tasks[n - 1])
    }
}

fn cap_ms(ms: u64) -> (reported: u32)
    ensures
        reported == capped_ms(ms),
{
    if ms > u32::MAX as u64 {
        u32::MAX
    } else {
        ms as u32
    }
}

fn push_flag(out: &mut Vec<u8>, value: bool)
    ensures
        final(out)@ == old(out)@ + flag_text(value),
{
    if value {
        push_str(out, "1");
    } else {
        push_str(out, "0");
    }
}

fn push_task_line(out: &mut Vec<u8>, t: &TaskReport)
    ensures
        final(out)@ == append_task_line(old(out)@, *t),
{
    push_hex_field(out, "RFDBG_A5B_TASK id=0x", t.task as u32);
    push_str(out, " state=");
    push_str(out, task_state_name(t.state));
    push_hex_field(out, " entry=0x", t.entry as u32);
    push_hex_field(out, " base_prio=0x", t.base_priority as u32);
    push_hex_field(out, " prio=0x", t.priority as u32);
    push_str(out, " ready_queued=");
    push_flag(out, t.ready_queued);
    push_str(out, " pending_target=");
    push_flag(out, t.pending_switch_target);
    push_hex_field(out, " ready_bucket=0x", t.ready_queue_bucket as u32);
    push_hex_field(out, " ready_memberships=0x", t.ready_queue_memberships as u32);
    push_hex_field(out, " wait_sem=0x", t.waiting_sem as u32);
    push_hex_field(out, " wake_at=0x", t.wake_at as u32);
    push_hex_field(out, " dispatches=0x", t.dispatches);
    push_hex_field(out, " max_ready_ms=0x", t.max_ready_latency_ms as u32);
    push_hex_field(out, " max_run_ms=0x", cap_ms(t.max_continuous_run_ms));
    push_hex_field(out, " max_lock_ms=0x", cap_ms(t.max_scheduler_lock_ms));
    push_str(out, "\r\n");
}

/// Append the scheduler-health line and one line per task.
pub fn write_rtos_task_diagnostics(out: &mut Vec<u8>, health: &SchedulerHealth, tasks: &[TaskReport])
    ensures
        final(out)@ == append_task_lines(
            append_scheduler_health(old(out)@, *health),
            tasks@,
            tasks@.len() as int,
        ),
{
    push_hex_field(out, "RFDBG_A5B_SCHED ready_owner_err=0x", health.ready_ownership_violations as u32);
    push_hex_field(out, " ready_dup=0x", health.ready_queue_duplicate_memberships as u32);
    push_hex_field(out, " ready_wrong_bucket=0x", health.ready_queue_wrong_priorities as u32);
    push_hex_field(out, " ready_bad_link=0x", health.ready_queue_invalid_links as u32);
    push_hex_field(out, " detached_prio_mut=0x", health.detached_pending_priority_mutations);
    push_hex_field(out, " detached_policy_mut=0x", health.detached_pending_policy_mutations);
    push_str(out, "\r\n");
    let ghost head = out@;
    let mut index: usize = 0;
    while index < tasks.len()
        invariant
            index <= tasks@.len(),
            out@ == append_task_lines(head, tasks@, index as int),
        decreases tasks@.len() - index,
    {
        push_task_line(out, &tasks[index]);
        index += 1;
    }
}

} // verus!
