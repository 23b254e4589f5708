use ws63_wifi::dhcp::{
    dhcp_reply, dhcp_reply_len, emit_dhcp_reply, parse_dhcp_request, DhcpRequest, CLIENT_ADDRESS,
    DHCP_ACK, DHCP_OFFER, SERVER_ADDRESS,
};
use ws63_wifi::services::{
    echo_sequence, prepare_dhcp_reply, record_dhcp_reply_sent, service_dhcp, service_echo,
    DhcpOutgoing, NetworkDiagnostics,
};

const XID: u32 = 0x1234_5678;
const MAC: [u8; 6] = [0x02, 0x11, 0x22, 0x33, 0x44, 0x55];

fn client_message(message_type: u8, client_ip: [u8; 4], broadcast: bool) -> Vec<u8> {
    let mut p = vec![0u8; 240];
    p[0] = 1;
    p[1] = 1;
    p[2] = 6;
    p[4..8].copy_from_slice(&XID.to_be_bytes());
    p[8..10].copy_from_slice(&7u16.to_be_bytes());
    if broadcast {
        p[10] = 0x80;
    }
    p[12..16].copy_from_slice(&client_ip);
    p[28..34].copy_from_slice(&MAC);
    p[236..240].copy_from_slice(&[0x63, 0x82, 0x53, 0x63]);
    p.extend_from_slice(&[53, 1, message_type, 255]);
    p
}

fn find_option(packet: &[u8], kind: u8) -> Option<Vec<u8>> {
    let mut i = 240;
    while i < packet.len() {
        match packet[i] {
            255 => return None,
            0 => i += 1,
            k => {
                let len = packet[i + 1] as usize;
                if k == kind {
                    return Some(packet[i + 2..i + 2 + len].to_vec());
                }
                i += 2 + len;
            }
        }
    }
    None
}

#[test]
fn parses_a_discover() {
    let request = parse_dhcp_request(&client_message(1, [0, 0, 0, 0], false)).unwrap();
    assert_eq!(request.message_type, 1);
    assert_eq!(request.transaction_id, XID);
    assert_eq!(request.secs, 7);
    assert_eq!(request.client_hardware_address, MAC);
    assert_eq!(request.client_ip, [0, 0, 0, 0]);
    assert!(!request.broadcast);
}

#[test]
fn refuses_short_and_malformed_messages() {
    assert_eq!(parse_dhcp_request(&[0u8; 100]), None);
    assert_eq!(parse_dhcp_request(&[]), None);
    let mut bad_cookie = client_message(1, [0, 0, 0, 0], false);
    bad_cookie[236] = 0;
    assert_eq!(parse_dhcp_request(&bad_cookie), None);
    let mut no_type = client_message(1, [0, 0, 0, 0], false);
    no_type.truncate(240);
    assert_eq!(parse_dhcp_request(&no_type), None);
}

#[test]
fn discover_is_offered_the_lease_by_broadcast() {
    let mut diagnostics = NetworkDiagnostics::default();
    let mut output = [0u8; 300];
    let outgoing =
        prepare_dhcp_reply(&client_message(1, [0, 0, 0, 0], false), &mut diagnostics, &mut output)
            .unwrap();
    assert_eq!(
        outgoing,
        DhcpOutgoing { length: 262, address: [255, 255, 255, 255], transaction_id: XID }
    );
    assert_eq!(diagnostics.dhcp_discover, 1);
    assert_eq!(diagnostics.dhcp_invalid, 0);
    let reply = &output[..262];
    assert_eq!(reply[0], 2);
    assert_eq!(&reply[4..8], &XID.to_be_bytes());
    assert_eq!(&reply[16..20], &CLIENT_ADDRESS);
    assert_eq!(&reply[20..24], &SERVER_ADDRESS);
    assert_eq!(reply[10], 0x80);
    assert_eq!(&reply[28..34], &MAC);
    assert_eq!(find_option(reply, 53), Some(vec![DHCP_OFFER]));
    assert_eq!(find_option(reply, 54), Some(SERVER_ADDRESS.to_vec()));
    assert_eq!(find_option(reply, 1), Some(vec![255, 255, 255, 0]));
    assert_eq!(find_option(reply, 51), Some(20u32.to_be_bytes().to_vec()));
    assert_eq!(find_option(reply, 3), None);
    assert!(output[262..].iter().all(|b| *b == 0));
    let parsed = parse_dhcp_request(reply).unwrap();
    assert_eq!(parsed.message_type, DHCP_OFFER);
    assert_eq!(parsed.transaction_id, XID);
}

#[test]
fn request_from_bound_client_is_acknowledged_unicast() {
    let mut diagnostics = NetworkDiagnostics::default();
    let mut output = [0u8; 300];
    let outgoing =
        prepare_dhcp_reply(&client_message(3, [192, 168, 4, 2], false), &mut diagnostics, &mut output)
            .unwrap();
    assert_eq!(outgoing.address, [192, 168, 4, 2]);
    assert_eq!(diagnostics.dhcp_request, 1);
    assert_eq!(find_option(&output[..outgoing.length], 53), Some(vec![DHCP_ACK]));
    assert_eq!(output[10], 0);
    record_dhcp_reply_sent(&mut diagnostics, &outgoing);
    assert_eq!(diagnostics.dhcp_reply, 1);
    assert_eq!(diagnostics.dhcp_reply_unicast, 1);
    assert_eq!(diagnostics.dhcp_reply_broadcast, 0);
    assert_eq!(diagnostics.dhcp_last_transaction_id, XID);
}

#[test]
fn broadcast_flag_forces_broadcast_reply() {
    let mut diagnostics = NetworkDiagnostics::default();
    let mut output = [0u8; 300];
    let outgoing =
        prepare_dhcp_reply(&client_message(3, [192, 168, 4, 2], true), &mut diagnostics, &mut output)
            .unwrap();
    assert_eq!(outgoing.address, [255, 255, 255, 255]);
    record_dhcp_reply_sent(&mut diagnostics, &outgoing);
    assert_eq!(diagnostics.dhcp_reply_broadcast, 1);
    assert_eq!(diagnostics.dhcp_reply_unicast, 0);
}

#[test]
fn other_message_types_get_no_reply() {
    let mut diagnostics = NetworkDiagnostics::default();
    let mut output = [0u8; 300];
    assert_eq!(
        prepare_dhcp_reply(&client_message(8, [0, 0, 0, 0], false), &mut diagnostics, &mut output),
        None
    );
    assert_eq!(diagnostics, NetworkDiagnostics::default());
    assert!(output.iter().all(|b| *b == 0));
}

#[test]
fn unparseable_datagram_is_counted_invalid() {
    let mut diagnostics = NetworkDiagnostics::default();
    let mut output = [0u8; 300];
    assert_eq!(prepare_dhcp_reply(&[1, 2, 3], &mut diagnostics, &mut output), None);
    assert_eq!(diagnostics.dhcp_invalid, 1);
}

#[test]
fn too_small_reply_buffer_is_counted_invalid() {
    let mut diagnostics = NetworkDiagnostics::default();
    let mut output = [0u8; 100];
    assert_eq!(
        prepare_dhcp_reply(&client_message(1, [0, 0, 0, 0], false), &mut diagnostics, &mut output),
        None
    );
    assert_eq!(diagnostics.dhcp_discover, 1);
    assert_eq!(diagnostics.dhcp_invalid, 1);
}

#[test]
fn reply_length_and_emit() {
    let request = DhcpRequest {
        message_type: 1,
        transaction_id: 9,
        secs: 0,
        client_hardware_address: MAC,
        client_ip: [0, 0, 0, 0],
        broadcast: false,
    };
    let reply = dhcp_reply(request, DHCP_OFFER);
    assert_eq!(dhcp_reply_len(&reply), 262);
    assert_eq!(reply.renew_duration, Some(10));
    assert_eq!(reply.rebind_duration, Some(17));
    assert!(reply.broadcast);
    let mut small = [7u8; 261];
    assert_eq!(emit_dhcp_reply(request, DHCP_OFFER, &mut small), None);
    assert!(small.iter().all(|b| *b == 7));
    let mut exact = [7u8; 262];
    assert_eq!(emit_dhcp_reply(request, DHCP_OFFER, &mut exact), Some(262));
    assert_eq!(exact[261], 255);
}

#[test]
fn counters_saturate() {
    let mut diagnostics = NetworkDiagnostics::default();
    diagnostics.dhcp_invalid = u32::MAX;
    let mut output = [0u8; 300];
    prepare_dhcp_reply(&[], &mut diagnostics, &mut output);
    assert_eq!(diagnostics.dhcp_invalid, u32::MAX);
}

#[test]
fn echo_sequence_only_for_one_byte() {
    assert_eq!(echo_sequence(&[9, 8], 1), Some(9));
    assert_eq!(echo_sequence(&[9, 8], 2), None);
    assert_eq!(echo_sequence(&[9, 8], 0), None);
}

fn udp_socket<'a>(
    rx_meta: &'a mut [smoltcp::socket::udp::PacketMetadata],
    rx: &'a mut [u8],
    tx_meta: &'a mut [smoltcp::socket::udp::PacketMetadata],
    tx: &'a mut [u8],
) -> smoltcp::socket::udp::Socket<'a> {
    let rx = smoltcp::socket::udp::PacketBuffer::new(rx_meta, rx);
    let tx = smoltcp::socket::udp::PacketBuffer::new(tx_meta, tx);
    let mut socket = smoltcp::socket::udp::Socket::new(rx, tx);
    socket.bind(67).unwrap();
    socket
}

#[test]
fn services_leave_counters_alone_when_nothing_arrived() {
    let mut rx_meta = [smoltcp::socket::udp::PacketMetadata::EMPTY; 2];
    let mut tx_meta = [smoltcp::socket::udp::PacketMetadata::EMPTY; 2];
    let mut rx = [0u8; 640];
    let mut tx = [0u8; 640];
    let mut socket = udp_socket(&mut rx_meta, &mut rx, &mut tx_meta, &mut tx);
    let mut diagnostics = NetworkDiagnostics::default();
    service_dhcp(&mut socket, &mut diagnostics);
    assert_eq!(service_echo(&mut socket, &mut diagnostics), None);
    assert_eq!(diagnostics, NetworkDiagnostics::default());
}
