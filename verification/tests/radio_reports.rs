use ws63_wifi::radio_report::{
    write_blocking_report, write_driver_event_diagnostics, write_heap_diagnostics,
    write_osal_diagnostics, write_wpa3_crypto_diagnostics, ArenaMetrics, BlockingReport,
    FrwSyncReport, OsalEventReport, OsalWaitReport, ResourceReport,
};

fn text(bytes: &[u8]) -> String {
    String::from_utf8(bytes.to_vec()).unwrap()
}

#[test]
fn blocking_lines() {
    let mut out = Vec::new();
    write_blocking_report(
        &mut out,
        &BlockingReport {
            initialize_calls: 1,
            initialize_max_ms: 2,
            scan_calls: 3,
            poll_calls: 4,
            internal_sleep_calls: 5,
            supplicant_poll_calls: 6,
        },
        &FrwSyncReport {
            calls: 7,
            last_msg_id: 8,
            last_timeout_ms: 9,
            last_elapsed_ms: 10,
            last_result: 11,
            max_msg_id: 12,
            max_elapsed_ms: 13,
            last_wait_blocks: 14,
            last_wait_wakeups: 15,
            last_wait_ready_checks: 16,
        },
    );
    assert_eq!(
        text(&out),
        "RFDBG_A5B_BLOCKING init_calls=0x00000001 init_max_ms=0x00000002 scan_calls=0x00000003 \
         poll_calls=0x00000004 internal_sleep=0x00000005 supplicant_poll=0x00000006\r\n\
         RFDBG_A5B_FRW_SYNC calls=0x00000007 last_id=0x00000008 last_timeout_ms=0x00000009 \
         last_elapsed_ms=0x0000000a last_ret=0x0000000b max_id=0x0000000c max_elapsed_ms=0x0000000d \
         wait_blocks=0x0000000e wait_wakeups=0x0000000f wait_ready=0x00000010\r\n"
    );
}

#[test]
fn osal_lines() {
    let wait = OsalWaitReport {
        wait: 0x1_0000_0001,
        semaphore: 2,
        predicate: 3,
        parameter: 4,
        predicate_result: 5,
        blocks: 6,
        wakeups: 7,
        ready_checks: 8,
        last_wait_task: 9,
        last_wake_task: 10,
        last_wait_caller: 11,
        last_wake_caller: 12,
    };
    let event = OsalEventReport {
        event: 1,
        bits: 2,
        reads: 3,
        writes: 4,
        matches: 5,
        last_read_mask: 6,
        last_write_mask: 7,
        last_mode: 8,
    };
    let mut out = Vec::new();
    write_osal_diagnostics(&mut out, &[wait], &[event]);
    assert_eq!(
        text(&out),
        "RFDBG_A5B_OSAL_WAIT wait=0x00000001 sem=0x00000002 pred=0x00000003 param=0x00000004 \
         pred_now=0x00000005 blocks=0x00000006 wakeups=0x00000007 ready=0x00000008 \
         wait_task=0x00000009 wake_task=0x0000000a wait_ra=0x0000000b wake_ra=0x0000000c\r\n\
         RFDBG_A5B_OSAL_EVENT event=0x00000001 bits=0x00000002 reads=0x00000003 writes=0x00000004 \
         matches=0x00000005 read_mask=0x00000006 write_mask=0x00000007 mode=0x00000008\r\n"
    );
    let mut none = Vec::new();
    write_osal_diagnostics(&mut none, &[], &[]);
    assert!(none.is_empty());
}

#[test]
fn heap_lines() {
    let arena = ArenaMetrics {
        arena_bytes: 0x1000,
        used_bytes: 0x800,
        free_bytes: 0x800,
        peak_used_bytes: 0x900,
        allocation_attempts: 3,
        allocation_failures: 0,
    };
    let mut out = Vec::new();
    write_heap_diagnostics(
        &mut out,
        &ResourceReport {
            schema: "hisi-rf-resources/v1",
            profile_revision: "r7",
            runtime_arena_bytes: Some(0x2000),
            shared_rf_arena_bytes: None,
            runtime_resources_calibrated: true,
        },
        &arena,
        &arena,
    );
    assert_eq!(
        text(&out),
        "RFDBG_RESOURCE schema=hisi-rf-resources/v1 revision=r7 runtime_arena=0x00002000 \
         rf_arena=0x00000000 calibrated=0x00000001\r\n\
         RFDBG_HEAP rtos_arena=0x00001000 rtos_used=0x00000800 rtos_free=0x00000800 \
         rtos_peak=0x00000900 rtos_allocs=0x00000003 rtos_failures=0x00000000 rf_arena=0x00001000 \
         rf_used=0x00000800 rf_free=0x00000800 rf_peak=0x00000900 rf_failures=0x00000000\r\n"
    );
}

#[test]
fn driver_and_p256_lines() {
    let mut out = Vec::new();
    write_driver_event_diagnostics(&mut out, &[1, 2, 3, 4, 5, 6]);
    write_wpa3_crypto_diagnostics(&mut out, &[1, 0], &[2, 0], &[3, 1]);
    assert_eq!(
        text(&out),
        "RFDBG_DRIVER_EVENT calls=0x00000001 last_kind=0x00000002 last_length=0x00000003 \
         connect_calls=0x00000004 connect_reject=0x00000005 connect_queued=0x00000006\r\n\
         RFDBG_SOFTAP_SAE p256_req=00000001 p256_fail=00000000 field_req=00000002 \
         field_fail=00000000 curve_req=00000003 curve_fail=00000001\r\n"
    );
}
