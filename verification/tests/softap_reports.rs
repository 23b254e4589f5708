use ws63_wifi::echo_path::{
    record_echo_baseline, record_echo_sample, refresh_echo_latest, write_echo_path_diagnostics,
    EchoPathCounters,
};
use ws63_wifi::netdiag::{write_network_diagnostics, L2Snapshot};
use ws63_wifi::services::NetworkDiagnostics;
use ws63_wifi::timeline::{write_new_tx_timeline, TxTimeline};

fn text(bytes: &[u8]) -> String {
    String::from_utf8(bytes.to_vec()).unwrap()
}

fn timeline(submission_total: u32, completion_total: u32) -> TxTimeline {
    let mut t = TxTimeline {
        submission_total,
        completion_total,
        submissions: [0; 18],
        submission_time_ms: [0; 18],
        completions: [0; 18],
        packet_number_lsb: [0; 18],
        completion_time_ms: [0; 18],
        completion_echo: [0; 18],
    };
    for slot in 0..18 {
        t.submissions[slot] = 0x100 + slot as u32;
        t.submission_time_ms[slot] = 0x200 + slot as u32;
        t.completions[slot] = 0x300 + slot as u32;
        t.packet_number_lsb[slot] = 0x400 + slot as u32;
        t.completion_time_ms[slot] = 0x500 + slot as u32;
        t.completion_echo[slot] = 0x600 + slot as u32;
    }
    t
}

#[test]
fn timeline_reports_new_entries_once() {
    let t = timeline(2, 1);
    let mut d = NetworkDiagnostics::default();
    let mut out = Vec::new();
    write_new_tx_timeline(&mut out, &t, &mut d);
    assert_eq!(
        text(&out),
        "RFDBG_SOFTAP_TX_SUBMIT index=0x00000000 time_ms=0x00000200 echo=0x00000100\r\n\
         RFDBG_SOFTAP_TX_SUBMIT index=0x00000001 time_ms=0x00000201 echo=0x00000101\r\n\
         RFDBG_SOFTAP_TX_COMPLETE index=0x00000000 time_ms=0x00000500 descriptor=0x00000300 packet_number=0x00000400 echo=0x00000600\r\n"
    );
    assert_eq!(d.tx_submission_cursor, 2);
    assert_eq!(d.tx_completion_cursor, 1);
    let mut again = Vec::new();
    write_new_tx_timeline(&mut again, &t, &mut d);
    assert!(again.is_empty());
}

#[test]
fn timeline_skips_overwritten_entries() {
    let t = timeline(40, 0);
    let mut d = NetworkDiagnostics::default();
    let mut out = Vec::new();
    write_new_tx_timeline(&mut out, &t, &mut d);
    let lines: Vec<String> = text(&out).lines().map(|l| l.to_string()).collect();
    assert_eq!(lines.len(), 18);
    assert!(lines[0].starts_with("RFDBG_SOFTAP_TX_SUBMIT index=0x00000016 time_ms=0x00000204"));
    assert!(lines[17].starts_with("RFDBG_SOFTAP_TX_SUBMIT index=0x00000027"));
    assert_eq!(d.tx_submission_cursor, 40);
}

#[test]
fn timeline_cursor_ahead_of_total_stays() {
    let t = timeline(3, 3);
    let mut d = NetworkDiagnostics::default();
    d.tx_submission_cursor = 10;
    let mut out = Vec::new();
    write_new_tx_timeline(&mut out, &t, &mut d);
    assert_eq!(d.tx_submission_cursor, 10);
    assert_eq!(d.tx_completion_cursor, 3);
    assert_eq!(text(&out).lines().count(), 3);
}

fn l2() -> L2Snapshot {
    L2Snapshot {
        tx_count: 1,
        tx_failed: 2,
        rx_arp_requests: 3,
        rx_ipv4: 4,
        tx_arp_replies: 5,
        tx_ipv4: 6,
        rx_pending: 7,
        rx_high_water: 8,
        rx_dropped: 9,
    }
}

fn udp_frame() -> [u8; 64] {
    let mut f = [0u8; 64];
    f[0..6].copy_from_slice(&[0xff; 6]);
    f[6..12].copy_from_slice(&[0x02, 0, 0, 0, 0, 1]);
    f[12] = 0x08;
    f[13] = 0x00;
    f[14] = 0x45;
    f[16] = 0x01;
    f[17] = 0x48;
    f[23] = 17;
    f[24] = 0xab;
    f[25] = 0xcd;
    f[30..34].copy_from_slice(&[255, 255, 255, 255]);
    f[34] = 0;
    f[35] = 67;
    f[36] = 0;
    f[37] = 68;
    f[38] = 0x01;
    f[39] = 0x34;
    f[40] = 0x12;
    f[41] = 0x34;
    f
}

#[test]
fn network_lines_for_udp_frame() {
    let mut d = NetworkDiagnostics::default();
    d.dhcp_discover = 1;
    d.echo_rx = 3;
    let mut out = Vec::new();
    write_network_diagnostics(&mut out, &d, false, &l2(), &udp_frame(), 342);
    assert_eq!(
        text(&out),
        "RFDBG_SOFTAP_NET dhcp_discover=00000001 dhcp_request=00000000 dhcp_reply=00000000 \
         dhcp_reply_broadcast=00000000 dhcp_reply_unicast=00000000 dhcp_invalid=00000000 \
         dhcp_last_xid=00000000 echo_rx=00000003 echo_tx=00000000\r\n\
         RFDBG_SOFTAP_L2 tx_count=00000001 tx_failed=00000002 rx_arp_req=00000003 rx_ipv4=00000004 \
         tx_arp_reply=00000005 tx_ipv4=00000006 rx_pending=00000007 rx_high_water=00000008 \
         rx_dropped=00000009 last_len=00000156 last_dst=ffffffffffff last_src=020000000001 \
         ethertype=0800 ip_dst=255.255.255.255 ip_len=00000148 ip_sum=0000abcd udp_src=00000043 \
         udp_dst=00000044 udp_len=00000134 udp_sum=00001234\r\n"
    );
}

#[test]
fn network_lines_for_short_and_other_frames() {
    let d = NetworkDiagnostics::default();
    let mut out = Vec::new();
    write_network_diagnostics(&mut out, &d, false, &l2(), &[0u8; 64], 10);
    assert!(text(&out).ends_with("rx_dropped=00000009 last_len=0000000a\r\n"));
    let mut arp = udp_frame();
    arp[13] = 0x06;
    let mut out = Vec::new();
    write_network_diagnostics(&mut out, &d, false, &l2(), &arp, 60);
    assert!(text(&out).ends_with("ethertype=0806\r\n"));
    let mut long_header = udp_frame();
    long_header[14] = 0x4f;
    let mut out = Vec::new();
    write_network_diagnostics(&mut out, &d, false, &l2(), &long_header, 300);
    assert!(text(&out).ends_with("ethertype=0800\r\n"));
}

#[test]
fn network_counters_with_data_path() {
    let mut d = NetworkDiagnostics::default();
    d.echo_mac_samples = 2;
    d.echo_mac_normal_baseline = 10;
    d.echo_mac_normal_latest = 4;
    d.echo_mac_complete_baseline = 1;
    d.echo_mac_complete_latest = 5;
    let mut out = Vec::new();
    write_network_diagnostics(&mut out, &d, true, &l2(), &[0u8; 64], 0);
    let first = text(&out).lines().next().unwrap().to_string();
    assert!(first.ends_with(
        "echo_tx=00000000 echo_mac_samples=00000002 echo_mac_norm_delta=fffffffa echo_mac_irq_delta=00000004"
    ));
}

fn counters(base: u32) -> EchoPathCounters {
    let mut status = [0u32; 16];
    for (i, s) in status.iter_mut().enumerate() {
        *s = base + i as u32;
    }
    EchoPathCounters {
        vendor_tx_frames: base,
        tx_completions: base + 1,
        mac_normal_priority_mpdu: base + 2,
        mac_complete_interrupts: base + 3,
        completion_status: status,
    }
}

#[test]
fn echo_path_line() {
    let before = counters(10);
    let mut after = counters(12);
    after.completion_status[15] = 0;
    let mut out = Vec::new();
    write_echo_path_diagnostics(&mut out, 7, &before, &after);
    let mut expected = String::from(
        "RFDBG_SOFTAP_ECHO_PATH sequence=0x00000007 vendor_tx_delta=0x00000002 \
         tx_complete_delta=0x00000002 mac_norm_delta=0x00000002 mac_irq_delta=0x00000002 tx_status_delta=",
    );
    for _ in 0..15 {
        expected.push_str("00000002,");
    }
    expected.push_str("ffffffe7,\r\n");
    assert_eq!(text(&out), expected);
}

#[test]
fn echo_baseline_is_taken_once() {
    let mut d = NetworkDiagnostics::default();
    refresh_echo_latest(&mut d, &counters(50));
    assert_eq!(d.echo_mac_normal_latest, 0);
    record_echo_baseline(&mut d, &counters(10));
    assert_eq!(d.echo_mac_normal_baseline, 12);
    record_echo_sample(&mut d, &counters(20));
    assert_eq!(d.echo_mac_samples, 1);
    assert_eq!(d.echo_mac_complete_latest, 23);
    record_echo_baseline(&mut d, &counters(30));
    assert_eq!(d.echo_mac_normal_baseline, 12);
    refresh_echo_latest(&mut d, &counters(40));
    assert_eq!(d.echo_mac_normal_latest, 42);
}
