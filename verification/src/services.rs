use vstd::prelude::*;

use smoltcp::socket::udp::Socket as UdpSocket;

use crate::dhcp::{
    emit_dhcp_reply, parse_dhcp_request, reply_is_broadcast, spec_dhcp_emit,
    smoltcp_dhcp_parse, spec_dhcp_reply, spec_dhcp_reply_len, DhcpRequest, BROADCAST_ADDRESS,
    DHCP_ACK, DHCP_CLIENT_PORT, UNSPECIFIED_ADDRESS, DHCP_DISCOVER, DHCP_OFFER, DHCP_REPLY_CAPACITY, DHCP_REQUEST,
};
use crate::udp::{
    peer_address_specified, udp_recv, udp_recv_slice, udp_room_for, udp_rx_queue, udp_send_slice,
    udp_tx_queue, PeerAddress, UdpPeer, UdpReceive,
};

verus! {

/// Counters kept by the SoftAP's network services.
#[derive(Clone, Copy, Debug, PartialEq, Eq)]
pub struct NetworkDiagnostics {
    pub dhcp_discover: u32,
    pub dhcp_request: u32,
    pub dhcp_reply: u32,
    pub dhcp_reply_broadcast: u32,
    pub dhcp_reply_unicast: u32,
    pub dhcp_invalid: u32,
    pub dhcp_last_transaction_id: u32,
    pub echo_rx: u32,
    pub echo_tx: u32,
    pub echo_mac_samples: u32,
    pub echo_mac_normal_baseline: u32,
    pub echo_mac_normal_latest: u32,
    pub echo_mac_complete_baseline: u32,
    pub echo_mac_complete_latest: u32,
    pub tx_submission_cursor: u32,
    pub tx_completion_cursor: u32,
}

/// All counters at zero.
pub open spec fn zero_diagnostics() -> NetworkDiagnostics {
    NetworkDiagnostics {
        dhcp_discover: 0,
        dhcp_request: 0,
        dhcp_reply: 0,
        dhcp_reply_broadcast: 0,
        dhcp_reply_unicast: 0,
        dhcp_invalid: 0,
        dhcp_last_transaction_id: 0,
        echo_rx: 0,
        echo_tx: 0,
        echo_mac_samples: 0,
        echo_mac_normal_baseline: 0,
        echo_mac_normal_latest: 0,
        echo_mac_complete_baseline: 0,
        echo_mac_complete_latest: 0,
        tx_submission_cursor: 0,
        tx_completion_cursor: 0,
    }
}

impl Default for NetworkDiagnostics {
    fn default() -> (diagnostics: Self)
        ensures
            diagnostics == zero_diagnostics(),
    {
        NetworkDiagnostics {
            dhcp_discover: 0,
            dhcp_request: 0,
            dhcp_reply: 0,
            dhcp_reply_broadcast: 0,
            dhcp_reply_unicast: 0,
            dhcp_invalid: 0,
            dhcp_last_transaction_id: 0,
            echo_rx: 0,
            echo_tx: 0,
            echo_mac_samples: 0,
            echo_mac_normal_baseline: 0,
            echo_mac_normal_latest: 0,
            echo_mac_complete_baseline: 0,
            echo_mac_complete_latest: 0,
            tx_submission_cursor: 0,
            tx_completion_cursor: 0,
        }
    }
}

/// A counter increment that stops at `u32::MAX`.
pub open spec fn bump(count: u32) -> u32 {
    if count == u32::MAX {
        u32::MAX
    } else {
        (count + 1) as u32
    }
}

/// A reply that is ready to be sent.
#[derive(Clone, Copy, Debug, PartialEq, Eq)]
pub struct DhcpOutgoing {
    /// Number of bytes of the reply buffer to send.
    pub length: usize,
    /// Destination address.
    pub address: [u8; 4],
    /// The transaction the reply answers.
    pub transaction_id: u32,
}

/// Where the reply to `request` goes: broadcast when it must be, else the
/// client's own address.
pub open spec fn reply_address(request: DhcpRequest) -> [u8; 4] {
    if reply_is_broadcast(request) {
        BROADCAST_ADDRESS
    } else {
        request.client_ip
    }
}

/// The reply type the server answers a message type with: an offer for a
/// discover, an acknowledgement for a request, and nothing otherwise.
pub open spec fn spec_dhcp_reply_type(message_type: u8) -> Option<u8> {
    if message_type == DHCP_DISCOVER {
        Some(DHCP_OFFER)
    } else if message_type == DHCP_REQUEST {
        Some(DHCP_ACK)
    } else {
        None
    }
}

/// What smoltcp makes of a received datagram: nothing when it is shorter than
/// the fixed DHCP header.
pub open spec fn spec_parse_dhcp(payload: Seq<u8>) -> Option<DhcpRequest> {
    if payload.len() < 240 {
        None
    } else {
        smoltcp_dhcp_parse(payload)
    }
}

/// The counters after a datagram is received on the DHCP port, and the reply
/// to send, if any, given how smoltcp parsed it and the size of the reply buffer.
pub open spec fn spec_dhcp_receive(
    d: NetworkDiagnostics,
    request: Option<DhcpRequest>,
    capacity: nat,
) -> (NetworkDiagnostics, Option<DhcpOutgoing>) {
    match request {
        None => (NetworkDiagnostics { dhcp_invalid: bump(d.dhcp_invalid), ..d }, None),
        Some(r) => {
            let counted = if r.message_type == DHCP_DISCOVER {
                NetworkDiagnostics { dhcp_discover: bump(d.dhcp_discover), ..d }
            } else if r.message_type == DHCP_REQUEST {
                NetworkDiagnostics { dhcp_request: bump(d.dhcp_request), ..d }
            } else {
                d
            };
            match spec_dhcp_reply_type(r.message_type) {
                None => (counted, None),
                Some(t) => {
                    let n = spec_dhcp_reply_len(spec_dhcp_reply(r, t));
                    if n > capacity {
                        (
                            NetworkDiagnostics { dhcp_invalid: bump(counted.dhcp_invalid), ..counted },
                            None,
                        )
                    } else {
                        (
                            counted,
                            Some(
                                DhcpOutgoing {
                                    length: n as usize,
                                    address: reply_address(r),
                                    transaction_id: r.transaction_id,
                                },
                            ),
                        )
                    }
                },
            }
        },
    }
}

/// The counters after a reply went out.
pub open spec fn spec_dhcp_sent(d: NetworkDiagnostics, outgoing: DhcpOutgoing) -> NetworkDiagnostics {
    if outgoing.address@ == BROADCAST_ADDRESS@ {
        NetworkDiagnostics {
            dhcp_reply: bump(d.dhcp_reply),
            dhcp_reply_broadcast: bump(d.dhcp_reply_broadcast),
            dhcp_last_transaction_id: outgoing.transaction_id,
            ..d
        }
    } else {
        NetworkDiagnostics {
            dhcp_reply: bump(d.dhcp_reply),
            dhcp_reply_unicast: bump(d.dhcp_reply_unicast),
            dhcp_last_transaction_id: outgoing.transaction_id,
            ..d
        }
    }
}

fn saturating_bump(count: u32) -> (next: u32)
    ensures
        next == bump(count),
{
    count.saturating_add(1)
}

fn same_address(a: [u8; 4], b: [u8; 4]) -> (same: bool)
    ensures
        same == (a@ == b@),
{
    let result = a[0] == b[0] && a[1] == b[1] && a[2] == b[2] && a[3] == b[3];
    assert(result ==> a@ =~= b@);
    result
}

/// Handle one datagram received on the DHCP port: count it, and when it calls
/// for a reply, write the reply at the start of `output` and say where it goes.
pub fn prepare_dhcp_reply(
    payload: &[u8],
    diagnostics: &mut NetworkDiagnostics,
    output: &mut [u8],
) -> (outgoing: Option<DhcpOutgoing>)
    ensures
        (*final(diagnostics), outgoing) == spec_dhcp_receive(
            *old(diagnostics),
            spec_parse_dhcp(payload@),
            old(output)@.len(),
        ),
        final(output)@.len() == old(output)@.len(),
        outgoing matches Some(o) ==> final(output)@.subrange(0, o.length as int)
            == spec_dhcp_emit(
            spec_dhcp_reply(
                spec_parse_dhcp(payload@)->Some_0,
                spec_dhcp_reply_type(spec_parse_dhcp(payload@)->Some_0.message_type)->Some_0,
            ),
        ),
        outgoing matches Some(o) ==> ({
            let r = spec_parse_dhcp(payload@)->Some_0;
            o.address@ == (if r.broadcast || r.client_ip@ == seq![0u8, 0u8, 0u8, 0u8] {
                seq![255u8, 255u8, 255u8, 255u8]
            } else {
                r.client_ip@
            })
        }),
{
    let request = parse_dhcp_request(payload);
    let Some(request) = request else {
        diagnostics.dhcp_invalid = saturating_bump(diagnostics.dhcp_invalid);
        return None;
    };
    let reply_type = if request.message_type == DHCP_DISCOVER {
        diagnostics.dhcp_discover = saturating_bump(diagnostics.dhcp_discover);
        DHCP_OFFER
    } else if request.message_type == DHCP_REQUEST {
        diagnostics.dhcp_request = saturating_bump(diagnostics.dhcp_request);
        DHCP_ACK
    } else {
        return None;
    };
    let Some(length) = emit_dhcp_reply(request, reply_type, output) else {
        diagnostics.dhcp_invalid = saturating_bump(diagnostics.dhcp_invalid);
        return None;
    };
    let broadcast = request.broadcast || same_address(request.client_ip, UNSPECIFIED_ADDRESS);
    let address = if broadcast {
        BROADCAST_ADDRESS
    } else {
        request.client_ip
    };
    Some(DhcpOutgoing { length, address, transaction_id: request.transaction_id })
}

/// Count a reply that went out.
pub fn record_dhcp_reply_sent(diagnostics: &mut NetworkDiagnostics, outgoing: &DhcpOutgoing)
    ensures
        *final(diagnostics) == spec_dhcp_sent(*old(diagnostics), *outgoing),
{
    diagnostics.dhcp_reply = saturating_bump(diagnostics.dhcp_reply);
    if same_address(outgoing.address, BROADCAST_ADDRESS) {
        diagnostics.dhcp_reply_broadcast = saturating_bump(diagnostics.dhcp_reply_broadcast);
    } else {
        diagnostics.dhcp_reply_unicast = saturating_bump(diagnostics.dhcp_reply_unicast);
    }
    diagnostics.dhcp_last_transaction_id = outgoing.transaction_id;
}

/// The counters after one turn of the DHCP service: whether a datagram was
/// waiting, how smoltcp parsed it, and whether the reply could be queued.
pub open spec fn spec_dhcp_service(
    d: NetworkDiagnostics,
    received: bool,
    request: Option<DhcpRequest>,
    sent: bool,
) -> NetworkDiagnostics {
    if !received {
        d
    } else {
        let (counted, outgoing) = spec_dhcp_receive(d, request, DHCP_REPLY_CAPACITY as nat);
        match outgoing {
            Some(o) => if sent {
                spec_dhcp_sent(counted, o)
            } else {
                counted
            },
            None => counted,
        }
    }
}

/// Where the server sends a reply meant for `address`: the DHCP client port,
/// with the local address left to the interface and no packet id.
pub open spec fn dhcp_reply_peer(address: [u8; 4]) -> UdpPeer {
    UdpPeer {
        address: PeerAddress::V4(address),
        port: DHCP_CLIENT_PORT,
        local_address: None,
        packet_id: 0,
    }
}

/// The bytes of the server's answer to `request`: an offer for a discover, an
/// acknowledgement for a request.
pub open spec fn dhcp_answer(request: DhcpRequest) -> Seq<u8> {
    spec_dhcp_emit(spec_dhcp_reply(request, spec_dhcp_reply_type(request.message_type)->Some_0))
}

/// What smoltcp makes of the oldest datagram in `rx`; nothing when there is none.
pub open spec fn oldest_request(rx: Seq<(Seq<u8>, UdpPeer)>) -> Option<DhcpRequest> {
    if rx.len() == 0 {
        None
    } else {
        spec_parse_dhcp(rx[0].0)
    }
}

/// Serve the oldest DHCP message waiting on `socket`, if any: it is taken off
/// the receive queue and counted; a discover is answered with an offer and a
/// request with an acknowledgement, queued for the client port at the client's
/// address, or at the broadcast address when the client asked for that or has
/// no address yet. The reply counters move exactly when the reply was queued.
pub fn service_dhcp(socket: &mut UdpSocket, diagnostics: &mut NetworkDiagnostics)
    ensures
        ({
            let rx = udp_rx_queue(*old(socket));
            let tx = udp_tx_queue(*old(socket));
            let received = rx.len() > 0;
            let request = oldest_request(rx);
            let outgoing = spec_dhcp_receive(*old(diagnostics), request, DHCP_REPLY_CAPACITY as nat).1;
            &&& udp_rx_queue(*final(socket)) == (if received {
                rx.drop_first()
            } else {
                rx
            })
            &&& {
                ||| udp_tx_queue(*final(socket)) == tx && *final(diagnostics) == spec_dhcp_service(
                    *old(diagnostics),
                    received,
                    request,
                    false,
                )
                ||| received && outgoing is Some && udp_tx_queue(*final(socket)) == tx.push(
                    (dhcp_answer(request->Some_0), dhcp_reply_peer(outgoing->Some_0.address)),
                ) && *final(diagnostics) == spec_dhcp_service(
                    *old(diagnostics),
                    received,
                    request,
                    true,
                )
            }
       
            &&& received && outgoing is Some && udp_room_for(
                *old(socket),
                outgoing->Some_0.length as nat,
            ) ==> udp_tx_queue(*final(socket)) == tx.push(
                (dhcp_answer(request->Some_0), dhcp_reply_peer(outgoing->Some_0.address)),
            ) && *final(diagnostics) == spec_dhcp_service(*old(diagnostics), received, request, true)
        }),
{
    let ghost rx = udp_rx_queue(*socket);
    let ghost tx = udp_tx_queue(*socket);
    let Some(payload) = udp_recv(socket) else {
        return ;
    };
    let mut reply: Vec<u8> = vec![0u8; DHCP_REPLY_CAPACITY];
    let ghost request = spec_parse_dhcp(payload@);
    assert(request == oldest_request(rx));
    let outgoing = prepare_dhcp_reply(payload.as_slice(), diagnostics, reply.as_mut_slice());
    let Some(outgoing) = outgoing else {
        return ;
    };
    let peer = UdpPeer {
        address: PeerAddress::V4(outgoing.address),
        port: DHCP_CLIENT_PORT,
        local_address: None,
        packet_id: 0,
    };
    let data = &reply.as_slice()[0..outgoing.length];
    assert(data@ == dhcp_answer(request->Some_0));
    assert(peer_address_specified(peer.address)) by {
        if !reply_is_broadcast(request->Some_0) {
            let c = request->Some_0.client_ip;
            if c[0] == 0 && c[1] == 0 && c[2] == 0 && c[3] == 0 {
                assert(c@ =~= UNSPECIFIED_ADDRESS@);
            }
        }
    }
    if udp_send_slice(socket, data, peer) {
        record_dhcp_reply_sent(diagnostics, &outgoing);
    }
}

/// The sequence byte of an echoed datagram: its only byte when it is one byte
/// long, and nothing otherwise.
pub fn echo_sequence(payload: &[u8], length: usize) -> (sequence: Option<u8>)
    requires
        length <= payload@.len(),
    ensures
        sequence == (if length == 1 {
            Some(payload@[0])
        } else {
            None
        }),
{
    if length == 1 {
        Some(payload[0])
    } else {
        None
    }
}

/// The counters after one turn of the echo service: whether a datagram was
/// waiting, and whether it could be queued back.
pub open spec fn spec_echo_service(d: NetworkDiagnostics, received: bool, sent: bool) -> NetworkDiagnostics {
    if !received {
        d
    } else if sent {
        NetworkDiagnostics { echo_rx: bump(d.echo_rx), echo_tx: bump(d.echo_tx), ..d }
    } else {
        NetworkDiagnostics { echo_rx: bump(d.echo_rx), ..d }
    }
}

/// Size of the buffer an echoed datagram is received into.
pub const ECHO_CAPACITY: usize = 256;

/// Send the oldest datagram waiting on `socket` back, unchanged, to where it
/// came from. A datagram longer than `ECHO_CAPACITY` is taken and dropped
/// uncounted. Gives the datagram's byte when a one-byte datagram was echoed.
pub fn service_echo(socket: &mut UdpSocket, diagnostics: &mut NetworkDiagnostics) -> (sequence:
    Option<u8>)
    ensures
        ({
            let rx = udp_rx_queue(*old(socket));
            let tx = udp_tx_queue(*old(socket));
            &&& udp_rx_queue(*final(socket)) == (if rx.len() > 0 {
                rx.drop_first()
            } else {
                rx
            })
            &&& if rx.len() == 0 || rx[0].0.len() > ECHO_CAPACITY {
                &&& sequence is None
                &&& *final(diagnostics) == *old(diagnostics)
                &&& udp_tx_queue(*final(socket)) == tx
            } else {
                ||| udp_tx_queue(*final(socket)) == tx.push(rx[0]) && *final(diagnostics)
                    == spec_echo_service(*old(diagnostics), true, true) && sequence == (if rx[0].0.len()
                    == 1 {
                    Some(rx[0].0[0])
                } else {
                    None::<u8>
                })
                ||| udp_tx_queue(*final(socket)) == tx && *final(diagnostics) == spec_echo_service(
                    *old(diagnostics),
                    true,
                    false,
                ) && sequence is None
            }
       
            &&& rx.len() > 0 && rx[0].0.len() <= ECHO_CAPACITY && udp_room_for(
                *old(socket),
                rx[0].0.len(),
            ) && rx[0].1.port != 0 && peer_address_specified(rx[0].1.address) ==> udp_tx_queue(
                *final(socket),
            ) == tx.push(rx[0]) && *final(diagnostics) == spec_echo_service(
                *old(diagnostics),
                true,
                true,
            )
        }),
{
    let ghost rx = udp_rx_queue(*socket);
    let mut payload: Vec<u8> = vec![0u8; ECHO_CAPACITY];
    let received = udp_recv_slice(socket, payload.as_mut_slice());
    let (length, peer) = match received {
        UdpReceive::Datagram { length, peer } => (length, peer),
        _ => {
            return None;
        },
    };
    diagnostics.echo_rx = saturating_bump(diagnostics.echo_rx);
    let data = &payload.as_slice()[0..length];
    assert(data@ =~= rx[0].0);
    if udp_send_slice(socket, data, peer) {
        diagnostics.echo_tx = saturating_bump(diagnostics.echo_tx);
        echo_sequence(payload.as_slice(), length)
    } else {
        None
    }
}

/// A turn of the DHCP or echo service only ever raises the counters.
pub open spec fn counters_not_lower(before: NetworkDiagnostics, after: NetworkDiagnostics) -> bool {
    &&& after.dhcp_discover >= before.dhcp_discover
    &&& after.dhcp_request >= before.dhcp_request
    &&& after.dhcp_reply >= before.dhcp_reply
    &&& after.dhcp_reply_broadcast >= before.dhcp_reply_broadcast
    &&& after.dhcp_reply_unicast >= before.dhcp_reply_unicast
    &&& after.dhcp_invalid >= before.dhcp_invalid
    &&& after.echo_rx >= before.echo_rx
    &&& after.echo_tx >= before.echo_tx
}

/// The DHCP and echo services never lower a counter, whatever arrives.
pub proof fn lemma_services_never_lower_counters(
    d: NetworkDiagnostics,
    received: bool,
    request: Option<DhcpRequest>,
    sent: bool,
)
    ensures
        counters_not_lower(d, spec_dhcp_service(d, received, request, sent)),
        counters_not_lower(d, spec_echo_service(d, received, sent)),
{
}

/// Every reply sent is counted as either broadcast or unicast: if the two
/// counts add up to the reply count before a turn of the DHCP service (and
/// the reply count has not saturated), they still do after it.
pub proof fn lemma_reply_counts_add_up(
    d: NetworkDiagnostics,
    received: bool,
    request: Option<DhcpRequest>,
    sent: bool,
)
    requires
        d.dhcp_reply == d.dhcp_reply_broadcast + d.dhcp_reply_unicast,
        d.dhcp_reply < u32::MAX,
    ensures
        ({
            let after = spec_dhcp_service(d, received, request, sent);
            after.dhcp_reply == after.dhcp_reply_broadcast + after.dhcp_reply_unicast
        }),
{
}

/// Only a received datagram can be echoed: if the echo count does not exceed
/// the receive count before a turn of the echo service, it does not after it either.
pub proof fn lemma_echoes_never_exceed_receipts(d: NetworkDiagnostics, received: bool, sent: bool)
    requires
        d.echo_tx <= d.echo_rx,
    ensures
        spec_echo_service(d, received, sent).echo_tx <= spec_echo_service(d, received, sent).echo_rx,
{
}

/// With the 300-byte reply buffer, a well-formed discover or request is always
/// answered: the reply goes to the client's address, or is broadcast when the
/// client asked for that or has no address yet, and carries its transaction id.
pub proof fn lemma_discover_and_request_are_answered(d: NetworkDiagnostics, request: DhcpRequest)
    requires
        request.message_type == DHCP_DISCOVER || request.message_type == DHCP_REQUEST,
    ensures
        ({
            let (_, outgoing) = spec_dhcp_receive(d, Some(request), DHCP_REPLY_CAPACITY as nat);
            &&& outgoing is Some
            &&& outgoing->Some_0.length == 262
            &&& outgoing->Some_0.address == reply_address(request)
            &&& outgoing->Some_0.transaction_id == request.transaction_id
        }),
{
    let t = spec_dhcp_reply_type(request.message_type)->Some_0;
    crate::dhcp::lemma_dhcp_reply_fits(request, t);
}

/// Where an answer goes: to the limited broadcast address 255.255.255.255
/// whenever the client asked for a broadcast or has no address yet (ciaddr
/// 0.0.0.0), and to the client's own address otherwise, whatever the message
/// type; the answer carries the client's transaction id.
pub proof fn lemma_reply_destination(d: NetworkDiagnostics, request: DhcpRequest, capacity: nat)
    ensures
        spec_dhcp_receive(d, Some(request), capacity).1 matches Some(o) ==> o.address@ == (
        if request.broadcast || request.client_ip@ == seq![0u8, 0u8, 0u8, 0u8] {
            seq![255u8, 255u8, 255u8, 255u8]
        } else {
            request.client_ip@
        }) && o.transaction_id == request.transaction_id,
{
    assert(UNSPECIFIED_ADDRESS@ =~= seq![0u8, 0u8, 0u8, 0u8]);
    assert(BROADCAST_ADDRESS@ =~= seq![255u8, 255u8, 255u8, 255u8]);
}

/// A reply that went out is counted once, as broadcast exactly when it went to
/// 255.255.255.255 and as unicast otherwise, and its transaction id is kept;
/// no other counter moves.
pub proof fn lemma_sent_reply_counting(d: NetworkDiagnostics, o: DhcpOutgoing)
    ensures
        ({
            let after = spec_dhcp_sent(d, o);
            let to_broadcast = o.address@ == seq![255u8, 255u8, 255u8, 255u8];
            &&& after.dhcp_reply == (if d.dhcp_reply == u32::MAX { u32::MAX as int } else { d.dhcp_reply + 1 })
            &&& after.dhcp_reply_broadcast == (if to_broadcast && d.dhcp_reply_broadcast < u32::MAX {
                d.dhcp_reply_broadcast + 1
            } else {
                d.dhcp_reply_broadcast as int
            })
            &&& after.dhcp_reply_unicast == (if !to_broadcast && d.dhcp_reply_unicast < u32::MAX {
                d.dhcp_reply_unicast + 1
            } else {
                d.dhcp_reply_unicast as int
            })
            &&& after.dhcp_last_transaction_id == o.transaction_id
            &&& after.dhcp_discover == d.dhcp_discover
            &&& after.dhcp_request == d.dhcp_request
            &&& after.dhcp_invalid == d.dhcp_invalid
            &&& after.echo_rx == d.echo_rx
            &&& after.echo_tx == d.echo_tx
        }),
{
    assert(BROADCAST_ADDRESS@ =~= seq![255u8, 255u8, 255u8, 255u8]);
}

/// A discover (type 1) is answered with an offer (type 2) and a request (type
/// 3) with an acknowledgement (type 5); every other message goes unanswered.
/// The answer leases 192.168.4.2 with mask 255.255.255.0 for 20 seconds
/// (renewal after 10, rebinding after 17), names 192.168.4.1 as server,
/// advertises no router, and echoes the client's transaction id, seconds and
/// hardware address.
pub proof fn lemma_answer_terms(request: DhcpRequest)
    ensures
        spec_dhcp_reply_type(request.message_type) == (if request.message_type == 1 {
            Some(2u8)
        } else if request.message_type == 3 {
            Some(5u8)
        } else {
            None::<u8>
        }),
        spec_dhcp_reply_type(request.message_type) matches Some(t) ==> ({
            let reply = spec_dhcp_reply(request, t);
            &&& reply.message_type == t
            &&& reply.your_ip@ == seq![192u8, 168u8, 4u8, 2u8]
            &&& reply.subnet_mask matches Some(m) && m@ == seq![255u8, 255u8, 255u8, 0u8]
            &&& reply.server_identifier matches Some(a) && a@ == seq![192u8, 168u8, 4u8, 1u8]
            &&& reply.server_ip@ == seq![192u8, 168u8, 4u8, 1u8]
            &&& reply.router is None
            &&& reply.lease_duration == Some(20u32)
            &&& reply.renew_duration == Some(10u32)
            &&& reply.rebind_duration == Some(17u32)
            &&& reply.transaction_id == request.transaction_id
            &&& reply.secs == request.secs
            &&& reply.client_hardware_address == request.client_hardware_address
            &&& reply.broadcast == (request.broadcast || request.client_ip@ == seq![0u8, 0u8, 0u8, 0u8])
        }),
{
    assert(crate::dhcp::CLIENT_ADDRESS@ =~= seq![192u8, 168u8, 4u8, 2u8]);
    assert(crate::dhcp::SERVER_ADDRESS@ =~= seq![192u8, 168u8, 4u8, 1u8]);
    assert(crate::dhcp::SUBNET_MASK@ =~= seq![255u8, 255u8, 255u8, 0u8]);
    assert(UNSPECIFIED_ADDRESS@ =~= seq![0u8, 0u8, 0u8, 0u8]);
}

} // verus!
