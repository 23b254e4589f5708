use vstd::prelude::*;
use vstd::string::StringSliceAdditionalSpecFns;

use crate::decimal::ipv4_text;
use crate::dhcp::be16;
use crate::hex::{spec_hex_bytes, write_hex_bytes};
use crate::services::NetworkDiagnostics;
use crate::softap::write_ipv4;
use crate::text::{hex_field, push_hex_field, push_str};

verus! {

/// Append the line announcing that the SoftAP's services are up: its own
/// address, the address it leases, and the echo port.
pub fn write_network_ready(out: &mut Vec<u8>)
    ensures
        final(out)@ == old(out)@ + "RFDBG_SOFTAP_NET_READY ip=192.168.4.1 lease=192.168.4.2 echo=9\r\n".spec_bytes(),
{
    push_str(out, "RFDBG_SOFTAP_NET_READY ip=192.168.4.1 lease=192.168.4.2 echo=9\r\n");
}

/// Link-layer counters of the access point's network interface.
#[derive(Clone, Copy, Debug, PartialEq, Eq)]
pub struct L2Snapshot {
    pub tx_count: u32,
    pub tx_failed: u32,
    pub rx_arp_requests: u32,
    pub rx_ipv4: u32,
    pub tx_arp_replies: u32,
    pub tx_ipv4: u32,
    pub rx_pending: usize,
    pub rx_high_water: usize,
    pub rx_dropped: u32,
}

/// `s` followed by the service-counter line. With `data_path` the line also
/// carries the echo MAC sample count and the MAC counter deltas since the first echo.
pub open spec fn append_network_counters(s: Seq<u8>, d: NetworkDiagnostics, data_path: bool) -> Seq<u8> {
    let base = s + hex_field("RFDBG_SOFTAP_NET dhcp_discover=", d.dhcp_discover) + hex_field(
        " dhcp_request=",
        d.dhcp_request,
    ) + hex_field(" dhcp_reply=", d.dhcp_reply) + hex_field(
        " dhcp_reply_broadcast=",
        d.dhcp_reply_broadcast,
    ) + hex_field(" dhcp_reply_unicast=", d.dhcp_reply_unicast) + hex_field(
        " dhcp_invalid=",
        d.dhcp_invalid,
    ) + hex_field(" dhcp_last_xid=", d.dhcp_last_transaction_id) + hex_field(
        " echo_rx=",
        d.echo_rx,
    ) + hex_field(" echo_tx=", d.echo_tx);
    let extended = if data_path {
        base + hex_field(" echo_mac_samples=", d.echo_mac_samples) + hex_field(
            " echo_mac_norm_delta=",
            vstd::wrapping::u32_specs::wrapping_sub(
                d.echo_mac_normal_latest,
                d.echo_mac_normal_baseline,
            ),
        ) + hex_field(
            " echo_mac_irq_delta=",
            vstd::wrapping::u32_specs::wrapping_sub(
                d.echo_mac_complete_latest,
                d.echo_mac_complete_baseline,
            ),
        )
    } else {
        base
    };
    extended + "\r\n".spec_bytes()
}

/// Offset of the UDP header in an Ethernet frame carrying IPv4, from the IHL field.
pub open spec fn udp_offset(frame: Seq<u8>) -> int {
    14 + (frame[14] % 16) * 4
}

/// Whether the captured frame is IPv4 carrying UDP with the whole UDP header captured.
pub open spec fn frame_has_udp_header(frame: Seq<u8>, length: usize) -> bool {
    &&& length >= 42
    &&& frame[12] == 8
    &&& frame[13] == 0
    &&& frame[23] == 17
    &&& udp_offset(frame) + 8 <= (if length <= frame.len() {
        length as int
    } else {
        frame.len() as int
    })
}

/// `s` followed by the summary of the last transmitted frame: its length; its
/// Ethernet addresses and type when the frame holds a full Ethernet header; and
/// its IPv4 destination, IPv4 length and checksum, and UDP header when it is IPv4/UDP.
pub open spec fn append_frame_summary(s: Seq<u8>, frame: Seq<u8>, length: usize) -> Seq<u8> {
    let with_length = s + hex_field(" last_len=", length as u32);
    let with_ethernet = if length >= 14 {
        with_length + " last_dst=".spec_bytes() + spec_hex_bytes(frame.subrange(0, 6))
            + " last_src=".spec_bytes() + spec_hex_bytes(frame.subrange(6, 12))
            + " ethertype=".spec_bytes() + spec_hex_bytes(frame.subrange(12, 14))
    } else {
        with_length
    };
    if frame_has_udp_header(frame, length) {
        let u = udp_offset(frame);
        with_ethernet + " ip_dst=".spec_bytes() + ipv4_text(frame.subrange(30, 34)) + hex_field(
            " ip_len=",
            be16(frame, 16) as u32,
        ) + hex_field(" ip_sum=", be16(frame, 24) as u32) + hex_field(
            " udp_src=",
            be16(frame, u) as u32,
        ) + hex_field(" udp_dst=", be16(frame, u + 2) as u32) + hex_field(
            " udp_len=",
            be16(frame, u + 4) as u32,
        ) + hex_field(" udp_sum=", be16(frame, u + 6) as u32)
    } else {
        with_ethernet
    }
}

/// `s` followed by the link-layer line: interface counters, then the summary of
/// the last transmitted frame.
pub open spec fn append_l2_line(s: Seq<u8>, l2: L2Snapshot, frame: Seq<u8>, length: usize) -> Seq<u8> {
    let counters = s + hex_field("RFDBG_SOFTAP_L2 tx_count=", l2.tx_count) + hex_field(
        " tx_failed=",
        l2.tx_failed,
    ) + hex_field(" rx_arp_req=", l2.rx_arp_requests) + hex_field(" rx_ipv4=", l2.rx_ipv4)
        + hex_field(" tx_arp_reply=", l2.tx_arp_replies) + hex_field(" tx_ipv4=", l2.tx_ipv4)
        + hex_field(" rx_pending=", l2.rx_pending as u32) + hex_field(
        " rx_high_water=",
        l2.rx_high_water as u32,
    ) + hex_field(" rx_dropped=", l2.rx_dropped);
    append_frame_summary(counters, frame, length) + "\r\n".spec_bytes()
}

fn read_be16(frame: &[u8], at: usize) -> (value: u32)
    requires
        at + 1 < frame@.len(),
    ensures
        value == be16(frame@, at as int),
{
    (frame[at] as u32) * 256 + frame[at + 1] as u32
}

fn push_counters(out: &mut Vec<u8>, diagnostics: &NetworkDiagnostics, data_path: bool)
    ensures
        final(out)@ == append_network_counters(old(out)@, *diagnostics, data_path),
{
    let d = diagnostics;
    push_hex_field(out, "RFDBG_SOFTAP_NET dhcp_discover=", d.dhcp_discover);
    push_hex_field(out, " dhcp_request=", d.dhcp_request);
    push_hex_field(out, " dhcp_reply=", d.dhcp_reply);
    push_hex_field(out, " dhcp_reply_broadcast=", d.dhcp_reply_broadcast);
    push_hex_field(out, " dhcp_reply_unicast=", d.dhcp_reply_unicast);
    push_hex_field(out, " dhcp_invalid=", d.dhcp_invalid);
    push_hex_field(out, " dhcp_last_xid=", d.dhcp_last_transaction_id);
    push_hex_field(out, " echo_rx=", d.echo_rx);
    push_hex_field(out, " echo_tx=", d.echo_tx);
    if data_path {
        push_hex_field(out, " echo_mac_samples=", d.echo_mac_samples);
        push_hex_field(
            out,
            " echo_mac_norm_delta=",
            d.echo_mac_normal_latest.wrapping_sub(d.echo_mac_normal_baseline),
        );
        push_hex_field(
            out,
            " echo_mac_irq_delta=",
            d.echo_mac_complete_latest.wrapping_sub(d.echo_mac_complete_baseline),
        );
    }
    push_str(out, "\r\n");
}

fn push_frame_summary(out: &mut Vec<u8>, frame: &[u8], length: usize)
    requires
        frame@.len() >= 34,
    ensures
        final(out)@ == append_frame_summary(old(out)@, frame@, length),
{
    push_hex_field(out, " last_len=", length as u32);
    if length >= 14 {
        push_str(out, " last_dst=");
        write_hex_bytes(out, &frame[0..6]);
        push_str(out, " last_src=");
        write_hex_bytes(out, &frame[6..12]);
        push_str(out, " ethertype=");
        write_hex_bytes(out, &frame[12..14]);
    }
    let captured = if length <= frame.len() {
        length
    } else {
        frame.len()
    };
    if length >= 42 && frame[12] == 8 && frame[13] == 0 && frame[23] == 17 {
        let ihl_byte = frame[14];
        assert(ihl_byte & 0x0fu8 == ihl_byte % 16) by (bit_vector);
        let udp: usize = 14 + ((ihl_byte & 0x0f) as usize) * 4;
        if udp + 8 <= captured {
            push_str(out, " ip_dst=");
            write_ipv4(out, [frame[30], frame[31], frame[32], frame[33]]);
            assert([frame@[30], frame@[31], frame@[32], frame@[33]]@ =~= frame@.subrange(30, 34));
            push_hex_field(out, " ip_len=", read_be16(frame, 16));
            push_hex_field(out, " ip_sum=", read_be16(frame, 24));
            push_hex_field(out, " udp_src=", read_be16(frame, udp));
            push_hex_field(out, " udp_dst=", read_be16(frame, udp + 2));
            push_hex_field(out, " udp_len=", read_be16(frame, udp + 4));
            push_hex_field(out, " udp_sum=", read_be16(frame, udp + 6));
        }
    }
}

/// Append the service-counter line and the link-layer line. `frame` holds the
/// first 64 bytes of the last transmitted frame and `length` its full length.
pub fn write_network_diagnostics(
    out: &mut Vec<u8>,
    diagnostics: &NetworkDiagnostics,
    data_path: bool,
    l2: &L2Snapshot,
    frame: &[u8; 64],
    length: usize,
)
    ensures
        final(out)@ == append_l2_line(
            append_network_counters(old(out)@, *diagnostics, data_path),
            *l2,
            frame@,
            length,
        ),
{
    push_counters(out, diagnostics, data_path);
    push_hex_field(out, "RFDBG_SOFTAP_L2 tx_count=", l2.tx_count);
    push_hex_field(out, " tx_failed=", l2.tx_failed);
    push_hex_field(out, " rx_arp_req=", l2.rx_arp_requests);
    push_hex_field(out, " rx_ipv4=", l2.rx_ipv4);
    push_hex_field(out, " tx_arp_reply=", l2.tx_arp_replies);
    push_hex_field(out, " tx_ipv4=", l2.tx_ipv4);
    push_hex_field(out, " rx_pending=", l2.rx_pending as u32);
    push_hex_field(out, " rx_high_water=", l2.rx_high_water as u32);
    push_hex_field(out, " rx_dropped=", l2.rx_dropped);
    push_frame_summary(out, frame.as_slice(), length);
    push_str(out, "\r\n");
}

/// The IP and UDP fields appear only for UDP: the summary of a frame whose IPv4
/// protocol byte is not 17 shows no more than its length and its Ethernet
/// header, so two such frames that agree on their first 14 bytes (and have the
/// same length) are summarised alike, whatever the rest holds.
pub proof fn lemma_non_udp_frame_shows_only_ethernet(s: Seq<u8>, f: Seq<u8>, g: Seq<u8>, length: usize)
    requires
        f.len() >= 24,
        g.len() >= 24,
        f[23] != 17,
        g[23] != 17,
        f.subrange(0, 14) == g.subrange(0, 14),
    ensures
        append_frame_summary(s, f, length) == append_frame_summary(s, g, length),
{
    assert(f.subrange(0, 6) =~= f.subrange(0, 14).subrange(0, 6));
    assert(g.subrange(0, 6) =~= g.subrange(0, 14).subrange(0, 6));
    assert(f.subrange(6, 12) =~= f.subrange(0, 14).subrange(6, 12));
    assert(g.subrange(6, 12) =~= g.subrange(0, 14).subrange(6, 12));
    assert(f.subrange(12, 14) =~= f.subrange(0, 14).subrange(12, 14));
    assert(g.subrange(12, 14) =~= g.subrange(0, 14).subrange(12, 14));
}

} // verus!
