use ws63_wifi::blinky::delay_ms;
use ws63_wifi::coexistence::{
    ble_server_action, sle_server_action, BleServerEvent, CoexAction, SleServerEvent,
};
use ws63_wifi::events::{
    check_expected_event, check_scan_event, failures_equal, write_unexpected_event, BackendClass,
    BackendFailure, ExpectedEvent, RadioEvent, ScanReport,
};
use ws63_wifi::radio_report::{write_diagnostic, write_hex_list, write_queue_report, QueueReport, TraceEntry};
use ws63_wifi::rtos_report::{write_rtos_task_diagnostics, SchedulerHealth, TaskReport};
use ws63_wifi::scan::{
    bytes_equal, find_network, next_scan_step, scan_attempt_number, security_name,
    write_scan_inventory, ScanAttempt, ScanDecision, ScanEntry, ScanHalt, Security,
};
use ws63_wifi::station::{
    after_network_exit, runner_error_total, task_state_name, write_runner_diagnostics,
    write_scan_completed,
    write_runner_event, write_scan_diagnostics, write_wait_diagnostics, NetworkExit,
    RunnerDiagnostics, RunnerEventKind, ScanDiagnostics, TaskState, WaitDiagnostics,
};
use ws63_wifi::timing::{diagnostics_due, elapsed_ms, saturate_to_u32, ticks_to_ms};

fn failure(code: u32) -> BackendFailure<'static> {
    BackendFailure {
        class: BackendClass::OperationTimeout,
        code,
        stage: "scan",
        profile_revision: Some("rev-a"),
        trace: [Some(TraceEntry { kind: "backend_status", value: 7 }), None, None, None],
        trace_truncated: false,
    }
}

#[test]
fn backend_failures_compare_field_by_field() {
    let a = failure(5);
    assert!(failures_equal(&a, &failure(5)));
    let mut b = failure(5);
    b.stage = "connect";
    assert!(!failures_equal(&a, &b));
    let mut c = failure(5);
    c.profile_revision = None;
    assert!(!failures_equal(&a, &c));
    let mut d = failure(5);
    d.trace[1] = Some(TraceEntry { kind: "vendor_status", value: 1 });
    assert!(!failures_equal(&a, &d));
    let mut e = failure(5);
    e.trace[0] = Some(TraceEntry { kind: String::from("backend_status").leak(), value: 7 });
    assert!(failures_equal(&a, &e));
    let mut f = failure(5);
    f.class = BackendClass::Busy;
    assert!(!failures_equal(&a, &f));
    let mut out = Vec::new();
    assert!(!check_scan_event(&mut out, &ScanReport::Backend(a), &RadioEvent::Failed(f)));
}

fn text(bytes: &[u8]) -> String {
    String::from_utf8(bytes.to_vec()).unwrap()
}

fn entry(ssid: &[u8], channel: u8, security: Security) -> ScanEntry {
    ScanEntry { ssid: ssid.to_vec(), channel, security }
}

#[test]
fn finds_first_matching_network() {
    let results = vec![
        entry(b"guest", 1, Security::Open),
        entry(b"lab", 6, Security::Wpa2Personal),
        entry(b"lab", 11, Security::Wpa3Personal),
    ];
    assert_eq!(find_network(&results, b"lab"), Some(1));
    assert_eq!(find_network(&results, b"la"), None);
    assert_eq!(find_network(&results, b""), None);
    assert_eq!(find_network(&[], b"lab"), None);
    assert!(bytes_equal(b"abc", b"abc"));
    assert!(!bytes_equal(b"abc", b"abd"));
    assert!(!bytes_equal(b"ab", b"abc"));
}

#[test]
fn scan_inventory_lines() {
    let results = vec![entry(b"a", 6, Security::Wpa2Wpa3PersonalTransition), entry(b"", 0, Security::OtherProtected)];
    let mut out = Vec::new();
    write_scan_inventory(&mut out, b"", &results);
    assert_eq!(
        text(&out),
        "RFDBG_SCAN_TARGET len=0x00000000 hash=0x811c9dc5\r\n\
         RFDBG_SCAN_RESULT index=0x00000000 len=0x00000001 hash=0xe40c292c channel=0x00000006 security=wpa2-wpa3\r\n\
         RFDBG_SCAN_RESULT index=0x00000001 len=0x00000000 hash=0x811c9dc5 channel=0x00000000 security=other\r\n"
    );
    assert_eq!(security_name(Security::Open), "open");
    assert_eq!(security_name(Security::Wpa3Personal), "wpa3");
}

#[test]
fn scan_policy() {
    assert_eq!(next_scan_step(0, ScanAttempt::Completed { found: true }), (ScanDecision::Accept, 0));
    assert_eq!(next_scan_step(0, ScanAttempt::Completed { found: false }), (ScanDecision::Retry, 1));
    assert_eq!(
        next_scan_step(1, ScanAttempt::Completed { found: false }),
        (ScanDecision::Halt(ScanHalt::NetworkNotFound), 1)
    );
    assert_eq!(next_scan_step(1, ScanAttempt::Completed { found: true }), (ScanDecision::Accept, 1));
    assert_eq!(
        next_scan_step(0, ScanAttempt::Failed { operation_timeout: true }),
        (ScanDecision::Retry, 1)
    );
    assert_eq!(
        next_scan_step(1, ScanAttempt::Failed { operation_timeout: true }),
        (ScanDecision::Halt(ScanHalt::RadioError), 1)
    );
    assert_eq!(
        next_scan_step(0, ScanAttempt::Failed { operation_timeout: false }),
        (ScanDecision::Halt(ScanHalt::RadioError), 0)
    );
    assert_eq!(
        next_scan_step(0, ScanAttempt::DeadlineExceeded),
        (ScanDecision::Halt(ScanHalt::DeadlineExceeded), 0)
    );
    assert_eq!(scan_attempt_number(0), 1);
    assert_eq!(scan_attempt_number(1), 2);
}

#[test]
fn scan_events() {
    let mut out = Vec::new();
    let done: RadioEvent<'static> = RadioEvent::ScanCompleted { count: 3, truncated: false };
    assert!(check_scan_event(&mut out, &ScanReport::Completed { count: 3, truncated: false }, &done));
    assert!(out.is_empty());
    assert!(!check_scan_event(&mut out, &ScanReport::Completed { count: 2, truncated: false }, &done));
    assert_eq!(text(&out), "RFDBG_A4_EVENT_ERR reason=unexpected kind=scan-completed\r\n");
    let mut out = Vec::new();
    assert!(check_scan_event(&mut out, &ScanReport::Backend(failure(5)), &RadioEvent::Failed(failure(5))));
    assert!(!check_scan_event(&mut out, &ScanReport::Backend(failure(5)), &RadioEvent::Failed(failure(6))));
    assert!(check_scan_event(&mut out, &ScanReport::Protocol, &RadioEvent::Failed(failure(6))));
    assert!(!check_scan_event(&mut out, &ScanReport::AlreadyInitialized, &RadioEvent::Failed(failure(6))));
    assert!(!check_scan_event(&mut out, &ScanReport::Protocol, &RadioEvent::Initialized));
}

#[test]
fn awaited_events() {
    let mut out = Vec::new();
    assert!(check_expected_event(&mut out, ExpectedEvent::Initialized, &RadioEvent::Initialized));
    assert!(check_expected_event(&mut out, ExpectedEvent::Connected, &RadioEvent::Connected));
    assert!(!check_expected_event(
        &mut out,
        ExpectedEvent::Connected,
        &RadioEvent::Disconnected { reason: 3 }
    ));
    assert_eq!(
        text(&out),
        "A4_RADIO_EVENT kind=initialized\r\nA4_RADIO_EVENT kind=connected\r\n\
         RFDBG_A4_EVENT_ERR reason=unexpected kind=disconnected\r\n"
    );
    let mut out = Vec::new();
    write_unexpected_event(&mut out, &RadioEvent::Failed(failure(1)));
    assert_eq!(text(&out), "RFDBG_A4_EVENT_ERR reason=unexpected kind=failed\r\n");
}

#[test]
fn runner_reports() {
    let mut out = Vec::new();
    write_runner_event(&mut out, RunnerEventKind::BudgetExhausted);
    assert_eq!(text(&out), "RFDBG_A5B_RUNNER_EVENT kind=budget-exhausted\r\n");
    let d = RunnerDiagnostics {
        run_once_calls: 1,
        wait_ready_calls: 2,
        wait_ready_completions: 3,
        immediate_ready_completions: 4,
        operations_started: 5,
        operations_completed: 6,
        pending_polls: 7,
        budget_exhaustions: 8,
        driver_errors: u32::MAX - 1,
        protocol_errors: 1,
        wait_ready_errors: 5,
    };
    assert_eq!(runner_error_total(&d), u32::MAX);
    let mut out = Vec::new();
    write_runner_diagnostics(&mut out, &d);
    assert_eq!(
        text(&out),
        "RFDBG_A5B_RUNNER run=0x00000001 waits=0x00000002 wake=0x00000003 immediate=0x00000004 \
         operations=0x00000005 completed=0x00000006 pending=0x00000007 exhausted=0x00000008 \
         errors=0xffffffff\r\n"
    );
    let w = WaitDiagnostics {
        backend_signals: 1,
        l2_rx_signals: 2,
        waker_notifications: 3,
        poll_calls: 4,
        pending_polls: 5,
        ready_polls: 6,
        timer_ready_polls: 7,
    };
    let mut out = Vec::new();
    write_wait_diagnostics(&mut out, &w);
    assert_eq!(
        text(&out),
        "RFDBG_A5B_WAIT backend=0x00000001 l2=0x00000002 waker=0x00000003 polls=0x00000004 \
         pending=0x00000005 ready=0x00000006 timer=0x00000007\r\n"
    );
}

#[test]
fn scan_diagnostics_line() {
    let s = ScanDiagnostics {
        native_starts: 1,
        native_results: 2,
        native_done: 3,
        native_active: true,
        queue_pending: false,
        queue_dropped: 4,
        native_start_ms: 5,
        native_done_ms: 6,
        driver_active: false,
        driver_done: true,
        driver_results: 7,
        driver_status: 8,
        driver_done_ms: 9,
    };
    let mut out = Vec::new();
    write_scan_diagnostics(&mut out, 2, &s);
    assert_eq!(
        text(&out),
        "RFDBG_SCAN_DIAG attempt=0x00000002 native_starts=0x00000001 native_results=0x00000002 \
         native_done=0x00000003 native_active=0x00000001 queue_pending=0x00000000 \
         queue_dropped=0x00000004 native_start_ms=0x00000005 native_observed_ms=0x00000006 \
         driver_active=0x00000000 driver_done=0x00000001 driver_results=0x00000007 \
         driver_status=0x00000008 driver_observed_ms=0x00000009\r\n"
    );
}

#[test]
fn scan_completed_lines() {
    let mut out = Vec::new();
    write_scan_completed(&mut out, 0x1234, 3, true);
    write_scan_completed(&mut out, 0, 0x1_0000_0005, false);
    assert_eq!(
        text(&out),
        "RFDBG_A5B_SCAN_OK elapsed_ms=0x00001234 count=0x00000003 truncated=0x00000001\r\n\
         RF3_SCAN_OK count=0x00000003 truncated=0x00000001\r\n\
         A4_RADIO_EVENT kind=scan-completed\r\n\
         RFDBG_A5B_SCAN_OK elapsed_ms=0x00000000 count=0xffffffff truncated=0x00000000\r\n\
         RF3_SCAN_OK count=0xffffffff truncated=0x00000000\r\n\
         A4_RADIO_EVENT kind=scan-completed\r\n"
    );
}

#[test]
fn reconnect_or_stop() {
    let mut out = Vec::new();
    assert_eq!(after_network_exit(&mut out, 4, NetworkExit::Disconnected { reason: 0x0f }), Some(5));
    assert_eq!(after_network_exit(&mut out, u32::MAX, NetworkExit::Disconnected { reason: 1 }), Some(u32::MAX));
    assert_eq!(after_network_exit(&mut out, 4, NetworkExit::BackendFailed), None);
    assert_eq!(
        text(&out),
        "A4_RECONNECT reason=disconnected code=0x0000000f\r\n\
         A4_RECONNECT reason=disconnected code=0x00000001\r\nA4_NET_ERR:backend-failed\r\n"
    );
}

#[test]
fn task_names_and_lines() {
    assert_eq!(task_state_name(TaskState::Free), "free");
    assert_eq!(task_state_name(TaskState::Throttled), "throttled");
    let health = SchedulerHealth {
        ready_ownership_violations: 1,
        ready_queue_duplicate_memberships: 0,
        ready_queue_wrong_priorities: 2,
        ready_queue_invalid_links: 0,
        detached_pending_priority_mutations: 3,
        detached_pending_policy_mutations: 4,
    };
    let task = TaskReport {
        task: 2,
        state: TaskState::Blocked,
        entry: 0x4000_1234,
        base_priority: 5,
        priority: 6,
        ready_queued: false,
        pending_switch_target: true,
        ready_queue_bucket: 7,
        ready_queue_memberships: 1,
        waiting_sem: 0x20,
        wake_at: 0x1_0000_0010,
        dispatches: 99,
        max_ready_latency_ms: 12,
        max_continuous_run_ms: 0x1_0000_0000,
        max_scheduler_lock_ms: 3,
    };
    let mut out = Vec::new();
    write_rtos_task_diagnostics(&mut out, &health, &[task]);
    assert_eq!(
        text(&out),
        "RFDBG_A5B_SCHED ready_owner_err=0x00000001 ready_dup=0x00000000 ready_wrong_bucket=0x00000002 \
         ready_bad_link=0x00000000 detached_prio_mut=0x00000003 detached_policy_mut=0x00000004\r\n\
         RFDBG_A5B_TASK id=0x00000002 state=blocked entry=0x40001234 base_prio=0x00000005 \
         prio=0x00000006 ready_queued=0 pending_target=1 ready_bucket=0x00000007 \
         ready_memberships=0x00000001 wait_sem=0x00000020 wake_at=0x00000010 dispatches=0x00000063 \
         max_ready_ms=0x0000000c max_run_ms=0xffffffff max_lock_ms=0x00000003\r\n"
    );
}

#[test]
fn radio_error_and_lists() {
    let mut out = Vec::new();
    write_diagnostic(
        &mut out,
        "RF2_INIT_ERR:",
        "backend.timeout",
        "initialize",
        Some(0x80),
        &[TraceEntry { kind: "status", value: 1 }, TraceEntry { kind: "step", value: 2 }],
        true,
    );
    assert_eq!(
        text(&out),
        "RF2_INIT_ERR: code=backend.timeout stage=initialize backend=0x00000080 status=0x00000001 \
         step=0x00000002 trace_truncated=1\r\n"
    );
    let mut out = Vec::new();
    write_diagnostic(&mut out, "P", "c", "s", None, &[], false);
    assert_eq!(text(&out), "P code=c stage=s\r\n");
    let mut out = Vec::new();
    write_hex_list(&mut out, "RFDBG_SUPPLICANT_EVENT", &[1, 0xff]);
    assert_eq!(text(&out), "RFDBG_SUPPLICANT_EVENT 0x00000001 0x000000ff\r\n");
    let mut out = Vec::new();
    write_queue_report(
        &mut out,
        &QueueReport {
            event_pending: 1,
            event_high_water: 2,
            event_dropped: 3,
            command_pending: 4,
            command_high_water: usize::MAX,
        },
    );
    assert_eq!(
        text(&out),
        "RFDBG_A5B_EVENT pending=0x00000001 high_water=0x00000002 dropped=0x00000003\r\n\
         RFDBG_A5B_CONTROL pending=0x00000004 high_water=0xffffffff\r\n"
    );
}

#[test]
fn coexistence_policy() {
    assert_eq!(ble_server_action(false, BleServerEvent::Enabled { status: 0 }), CoexAction::StartServing);
    assert_eq!(ble_server_action(true, BleServerEvent::Enabled { status: 0 }), CoexAction::Fail { status: 0 });
    assert_eq!(ble_server_action(false, BleServerEvent::Enabled { status: 3 }), CoexAction::Fail { status: 3 });
    assert_eq!(ble_server_action(true, BleServerEvent::AdvertisingState { status: 1 }), CoexAction::ReportReady);
    assert_eq!(ble_server_action(true, BleServerEvent::AdvertisingState { status: 0 }), CoexAction::Fail { status: 0 });
    assert_eq!(ble_server_action(true, BleServerEvent::AdvertisingData { status: 0 }), CoexAction::Fail { status: 0 });
    assert_eq!(ble_server_action(true, BleServerEvent::ConnectionState { connected: true }), CoexAction::ReportConnected);
    assert_eq!(ble_server_action(true, BleServerEvent::ConnectionState { connected: false }), CoexAction::Ignore);
    assert_eq!(ble_server_action(true, BleServerEvent::Other), CoexAction::Ignore);
    assert_eq!(sle_server_action(false, SleServerEvent::Enabled { status: 0 }), CoexAction::StartServing);
    assert_eq!(sle_server_action(true, SleServerEvent::Enabled { status: 0 }), CoexAction::Fail { status: 0 });
    assert_eq!(sle_server_action(true, SleServerEvent::AnnounceEnabled { status: 0 }), CoexAction::ReportReady);
    assert_eq!(sle_server_action(true, SleServerEvent::AnnounceEnabled { status: 2 }), CoexAction::Fail { status: 2 });
    assert_eq!(
        sle_server_action(true, SleServerEvent::ConnectionStateChanged { connection_state: 1 }),
        CoexAction::ReportConnected
    );
    assert_eq!(
        sle_server_action(true, SleServerEvent::ConnectionStateChanged { connection_state: 2 }),
        CoexAction::Ignore
    );
}

#[test]
fn timing_helpers() {
    assert_eq!(ticks_to_ms(48_000), 2);
    assert_eq!(ticks_to_ms(23_999), 0);
    assert_eq!(elapsed_ms(1_500, 500), 1_000);
    assert_eq!(elapsed_ms(5, u64::MAX), 6);
    assert_eq!(elapsed_ms(u64::MAX, 0), u32::MAX);
    assert!(diagnostics_due(2_000, 1_000, 1_000));
    assert!(!diagnostics_due(1_999, 1_000, 1_000));
    assert!(diagnostics_due(500, u64::MAX - 600, 1_000));
    assert_eq!(saturate_to_u32(7), 7);
}

#[test]
fn delay_returns() {
    delay_ms(0);
    delay_ms(2);
}
