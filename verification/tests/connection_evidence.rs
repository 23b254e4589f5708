use ws63_wifi::evidence::{write_connection_evidence, ConnectionEvidence, RunnerSnapshot};
use ws63_wifi::radio_report::{BlockingReport, FrwSyncReport, OsalEventReport, QueueReport};
use ws63_wifi::rtos_report::SchedulerHealth;
use ws63_wifi::station::{RunnerDiagnostics, WaitDiagnostics};

fn text(bytes: &[u8]) -> String {
    String::from_utf8(bytes.to_vec()).unwrap()
}

fn evidence<'a>(runner: RunnerSnapshot, events: &'a [OsalEventReport]) -> ConnectionEvidence<'a> {
    ConnectionEvidence {
        queues: QueueReport {
            event_pending: 1,
            event_high_water: 0x1_0000_0000,
            event_dropped: 3,
            command_pending: 4,
            command_high_water: 5,
        },
        runner,
        wait: WaitDiagnostics {
            backend_signals: 1,
            l2_rx_signals: 2,
            waker_notifications: 3,
            poll_calls: 4,
            pending_polls: 5,
            ready_polls: 6,
            timer_ready_polls: 7,
        },
        osal_waits: &[],
        osal_events: events,
        blocking: BlockingReport {
            initialize_calls: 1,
            initialize_max_ms: 0,
            scan_calls: 0,
            poll_calls: 0,
            internal_sleep_calls: 0,
            supplicant_poll_calls: 0,
        },
        frw_sync: FrwSyncReport {
            calls: 0,
            last_msg_id: 0,
            last_timeout_ms: 0,
            last_elapsed_ms: 0,
            last_result: 0,
            max_msg_id: 0,
            max_elapsed_ms: 0,
            last_wait_blocks: 0,
            last_wait_wakeups: 0,
            last_wait_ready_checks: 0,
        },
        scheduler: SchedulerHealth {
            ready_ownership_violations: 0,
            ready_queue_duplicate_memberships: 0,
            ready_queue_wrong_priorities: 0,
            ready_queue_invalid_links: 0,
            detached_pending_priority_mutations: 0,
            detached_pending_policy_mutations: 2,
        },
        tasks: &[],
        association: [1, 2, 3, 4, 5, 6, 7, 8, 9, 10, 11, 0xffff_ffff],
    }
}

const TAIL: &str = "RFDBG_A5B_WAIT backend=0x00000001 l2=0x00000002 waker=0x00000003 polls=0x00000004 \
     pending=0x00000005 ready=0x00000006 timer=0x00000007\r\n\
     RFDBG_A5B_OSAL_EVENT event=0x00000001 bits=0x00000002 reads=0x00000003 writes=0x00000004 \
     matches=0x00000005 read_mask=0x00000006 write_mask=0x00000007 mode=0x00000008\r\n\
     RFDBG_A5B_BLOCKING init_calls=0x00000001 init_max_ms=0x00000000 scan_calls=0x00000000 \
     poll_calls=0x00000000 internal_sleep=0x00000000 supplicant_poll=0x00000000\r\n\
     RFDBG_A5B_FRW_SYNC calls=0x00000000 last_id=0x00000000 last_timeout_ms=0x00000000 \
     last_elapsed_ms=0x00000000 last_ret=0x00000000 max_id=0x00000000 max_elapsed_ms=0x00000000 \
     wait_blocks=0x00000000 wait_wakeups=0x00000000 wait_ready=0x00000000\r\n\
     RFDBG_A5B_SCHED ready_owner_err=0x00000000 ready_dup=0x00000000 ready_wrong_bucket=0x00000000 \
     ready_bad_link=0x00000000 detached_prio_mut=0x00000000 detached_policy_mut=0x00000002\r\n\
     RFDBG_A5B_CONNECT_ASSOC_IOCTL 0x00000001 0x00000002 0x00000003 0x00000004 0x00000005 \
     0x00000006 0x00000007 0x00000008 0x00000009 0x0000000a 0x0000000b 0xffffffff\r\n\
     RFDBG_A5B_CONNECT_PROFILE_OK\r\n";

const QUEUES: &str = "RFDBG_A5B_EVENT pending=0x00000001 high_water=0xffffffff dropped=0x00000003\r\n\
     RFDBG_A5B_CONTROL pending=0x00000004 high_water=0x00000005\r\n";

fn osal_event() -> OsalEventReport {
    OsalEventReport {
        event: 1,
        bits: 2,
        reads: 3,
        writes: 4,
        matches: 5,
        last_read_mask: 6,
        last_write_mask: 7,
        last_mode: 8,
    }
}

#[test]
fn evidence_of_a_blocking_runner() {
    let events = [osal_event()];
    let mut out = b"before\r\n".to_vec();
    write_connection_evidence(&mut out, &evidence(RunnerSnapshot::Blocking, &events));
    let expected = format!(
        "before\r\n{}RFDBG_A5B_RUNNER_ERR reason=wrong_profile\r\n{}",
        QUEUES, TAIL
    );
    assert_eq!(text(&out), expected);
}

#[test]
fn evidence_of_an_incremental_runner() {
    let events = [osal_event()];
    let runner = RunnerDiagnostics {
        run_once_calls: 1,
        wait_ready_calls: 2,
        wait_ready_completions: 3,
        immediate_ready_completions: 4,
        operations_started: 5,
        operations_completed: 6,
        pending_polls: 7,
        budget_exhaustions: 8,
        driver_errors: 0xffff_fff0,
        protocol_errors: 0x20,
        wait_ready_errors: 1,
    };
    let mut out = Vec::new();
    write_connection_evidence(&mut out, &evidence(RunnerSnapshot::Incremental(runner), &events));
    let expected = format!(
        "{}RFDBG_A5B_RUNNER run=0x00000001 waits=0x00000002 wake=0x00000003 immediate=0x00000004 \
         operations=0x00000005 completed=0x00000006 pending=0x00000007 exhausted=0x00000008 \
         errors=0xffffffff\r\n{}",
        QUEUES, TAIL
    );
    assert_eq!(text(&out), expected);
}
