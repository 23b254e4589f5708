use vstd::prelude::*;

use smoltcp::wire::DhcpPacket;
use smoltcp::wire::DhcpRepr;
use smoltcp::wire::EthernetAddress;
use smoltcp::wire::Ipv4Address;

verus! {

/// The SoftAP's own IPv4 address.
pub const SERVER_ADDRESS: [u8; 4] = [192, 168, 4, 1];

/// The only address the SoftAP leases.
pub const CLIENT_ADDRESS: [u8; 4] = [192, 168, 4, 2];

/// The limited broadcast address.
pub const BROADCAST_ADDRESS: [u8; 4] = [255, 255, 255, 255];

/// The unspecified address `0.0.0.0`.
pub const UNSPECIFIED_ADDRESS: [u8; 4] = [0, 0, 0, 0];

/// The netmask handed out with every lease.
pub const SUBNET_MASK: [u8; 4] = [255, 255, 255, 0];

/// UDP port of the DHCP server.
pub const DHCP_SERVER_PORT: u16 = 67;

/// UDP port of DHCP clients.
pub const DHCP_CLIENT_PORT: u16 = 68;

/// UDP port of the echo service.
pub const UDP_ECHO_PORT: u16 = 9;

/// Lease length, in seconds.
pub const DHCP_LEASE_SECONDS: u32 = 20;

/// Size of the buffer a reply is written into.
pub const DHCP_REPLY_CAPACITY: usize = 300;

/// DHCP message type codes (option 53).
pub const DHCP_DISCOVER: u8 = 1;
pub const DHCP_OFFER: u8 = 2;
pub const DHCP_REQUEST: u8 = 3;
pub const DHCP_ACK: u8 = 5;

/// The fields of a client message that the server answers from.
#[derive(Clone, Copy, Debug, PartialEq, Eq)]
pub struct DhcpRequest {
    /// DHCP message type code.
    pub message_type: u8,
    /// The client's transaction id (`xid`).
    pub transaction_id: u32,
    /// Seconds since the client began acquisition.
    pub secs: u16,
    /// The client's hardware address (`chaddr`).
    pub client_hardware_address: [u8; 6],
    /// The client's current address (`ciaddr`), `0.0.0.0` when it has none.
    pub client_ip: [u8; 4],
    /// Whether the client asked for a broadcast reply.
    pub broadcast: bool,
}

/// A DHCP message to emit: the header fields and the options the server can send.
#[derive(Clone, Copy, Debug, PartialEq, Eq)]
pub struct DhcpReply {
    pub message_type: u8,
    pub transaction_id: u32,
    pub secs: u16,
    pub client_hardware_address: [u8; 6],
    pub client_ip: [u8; 4],
    pub your_ip: [u8; 4],
    pub server_ip: [u8; 4],
    pub router: Option<[u8; 4]>,
    pub subnet_mask: Option<[u8; 4]>,
    pub relay_agent_ip: [u8; 4],
    pub broadcast: bool,
    pub requested_ip: Option<[u8; 4]>,
    pub client_identifier: Option<[u8; 6]>,
    pub server_identifier: Option<[u8; 4]>,
    pub max_size: Option<u16>,
    pub lease_duration: Option<u32>,
    pub renew_duration: Option<u32>,
    pub rebind_duration: Option<u32>,
}

/// Big-endian 16-bit value at `at`.
pub open spec fn be16(s: Seq<u8>, at: int) -> int {
    s[at] * 0x100 + s[at + 1]
}

/// Big-endian 32-bit value at `at`.
pub open spec fn be32(s: Seq<u8>, at: int) -> int {
    s[at] * 0x100_0000 + s[at + 1] * 0x1_0000 + s[at + 2] * 0x100 + s[at + 3]
}

/// What smoltcp's `DhcpRepr::parse` makes of a packet, reduced to the fields the server reads.
pub uninterp spec fn smoltcp_dhcp_parse(payload: Seq<u8>) -> Option<DhcpRequest>;

/// A 16-bit value as two bytes, most significant first.
pub open spec fn be16_bytes(value: u16) -> Seq<u8> {
    seq![(value / 0x100) as u8, (value % 0x100) as u8]
}

/// A 32-bit value as four bytes, most significant first.
pub open spec fn be32_bytes(value: u32) -> Seq<u8> {
    seq![
        (value / 0x100_0000) as u8,
        ((value / 0x1_0000) % 0x100) as u8,
        ((value / 0x100) % 0x100) as u8,
        (value % 0x100) as u8,
    ]
}

/// The BOOTP opcode of a message type: 2 (reply) for an offer, an
/// acknowledgement or a refusal, 1 (request) for the client's messages, and 0
/// for an unknown type.
pub open spec fn dhcp_opcode(message_type: u8) -> u8 {
    if message_type == 2 || message_type == 5 || message_type == 6 {
        2
    } else if 1 <= message_type <= 8 {
        1
    } else {
        0
    }
}

/// The 240-byte fixed part of a DHCP message: opcode, Ethernet with 6-byte
/// addresses, no hops, transaction id, seconds, flags, the four addresses, the
/// client's hardware address, zeroed server name and boot file, magic cookie.
pub open spec fn dhcp_header_bytes(r: DhcpReply) -> Seq<u8> {
    seq![dhcp_opcode(r.message_type), 1u8, 6u8, 0u8] + be32_bytes(r.transaction_id) + be16_bytes(
        r.secs,
    ) + seq![if r.broadcast { 0x80u8 } else { 0u8 }, 0u8] + r.client_ip@ + r.your_ip@
        + r.server_ip@ + r.relay_agent_ip@ + r.client_hardware_address@ + Seq::new(
        202,
        |i: int| 0u8,
    ) + seq![0x63u8, 0x82u8, 0x53u8, 0x63u8]
}

/// One option: its kind, its length, its data.
pub open spec fn dhcp_option(kind: u8, data: Seq<u8>) -> Seq<u8> {
    seq![kind, data.len() as u8] + data
}

/// An option that is present only when `data` is.
pub open spec fn dhcp_option_if(kind: u8, data: Option<Seq<u8>>) -> Seq<u8> {
    match data {
        Some(d) => dhcp_option(kind, d),
        None => Seq::empty(),
    }
}

/// The options of a reply in the order smoltcp writes them: message type (53),
/// client identifier (61), server identifier (54), router (3), subnet mask (1),
/// requested address (50), maximum message size (57), lease time (51), then
/// the end marker (255). Renewal and rebinding times are not written.
pub open spec fn dhcp_options_bytes(r: DhcpReply) -> Seq<u8> {
    dhcp_option(53, seq![r.message_type]) + dhcp_option_if(
        61,
        match r.client_identifier {
            Some(m) => Some(seq![1u8] + m@),
            None => None,
        },
    ) + dhcp_option_if(
        54,
        match r.server_identifier {
            Some(a) => Some(a@),
            None => None,
        },
    ) + dhcp_option_if(
        3,
        match r.router {
            Some(a) => Some(a@),
            None => None,
        },
    ) + dhcp_option_if(
        1,
        match r.subnet_mask {
            Some(a) => Some(a@),
            None => None,
        },
    ) + dhcp_option_if(
        50,
        match r.requested_ip {
            Some(a) => Some(a@),
            None => None,
        },
    ) + dhcp_option_if(
        57,
        match r.max_size {
            Some(v) => Some(be16_bytes(v)),
            None => None,
        },
    ) + dhcp_option_if(
        51,
        match r.lease_duration {
            Some(v) => Some(be32_bytes(v)),
            None => None,
        },
    ) + seq![255u8]
}

/// The bytes smoltcp's `DhcpRepr::emit` writes for a reply: the fixed part,
/// then the options.
pub open spec fn spec_dhcp_emit(reply: DhcpReply) -> Seq<u8> {
    dhcp_header_bytes(reply) + dhcp_options_bytes(reply)
}

/// Whether a parsed request agrees with the fixed-position header fields of `payload`.
pub open spec fn request_matches_header(request: DhcpRequest, payload: Seq<u8>) -> bool {
    &&& payload.len() >= 240
    &&& payload[1] == 1
    &&& payload[2] == 6
    &&& be32(payload, 236) == 0x6382_5363
    &&& request.transaction_id == be32(payload, 4)
    &&& request.secs == be16(payload, 8)
    &&& request.broadcast == (payload[10] >= 0x80)
    &&& request.client_ip@ == payload.subrange(12, 16)
    &&& request.client_hardware_address@ == payload.subrange(28, 34)
}

/// Whether `bytes` carry the fixed header of `reply` as smoltcp writes it: a
/// reply opcode for an offer or acknowledgement, Ethernet with 6-byte hardware
/// addresses, no hops, the transaction id and seconds big-endian, the
/// broadcast flag alone in the flags, the four addresses, the client's
/// hardware address, and the magic cookie.
pub open spec fn reply_matches_header(reply: DhcpReply, bytes: Seq<u8>) -> bool {
    &&& bytes.len() >= 240
    &&& (reply.message_type == DHCP_OFFER || reply.message_type == DHCP_ACK) ==> bytes[0] == 2
    &&& bytes[1] == 1
    &&& bytes[2] == 6
    &&& bytes[3] == 0
    &&& be32(bytes, 4) == reply.transaction_id
    &&& be16(bytes, 8) == reply.secs
    &&& bytes[10] == (if reply.broadcast {
        0x80u8
    } else {
        0u8
    })
    &&& bytes[11] == 0
    &&& bytes.subrange(12, 16) == reply.client_ip@
    &&& bytes.subrange(16, 20) == reply.your_ip@
    &&& bytes.subrange(20, 24) == reply.server_ip@
    &&& bytes.subrange(24, 28) == reply.relay_agent_ip@
    &&& bytes.subrange(28, 34) == reply.client_hardware_address@
    &&& be32(bytes, 236) == 0x6382_5363
}

/// `DhcpPacket::new_checked`: a buffer is accepted as a DHCP packet exactly when
/// it holds the whole 240-byte fixed header (`check_len`).
#[verifier::external_body]
fn dhcp_packet_new_checked(payload: &[u8]) -> (accepted: bool)
    ensures
        accepted == (payload@.len() >= 240),
{
    DhcpPacket::new_checked(payload).is_ok()
}

/// `DhcpRepr::parse` on the packet over `payload`. The result is smoltcp's; what
/// decides it besides the header (the option walk that finds the message type)
/// is left to the name. What the source shows directly is stated: a short buffer
/// is refused, and an accepted one had an Ethernet hardware type, a 6-byte
/// hardware address, the DHCP magic cookie, and the header fields copied out.
#[verifier::external_body]
fn dhcp_repr_parse(payload: &[u8]) -> (request: Option<DhcpRequest>)
    ensures
        request == smoltcp_dhcp_parse(payload@),
        request matches Some(r) ==> request_matches_header(r, payload@),
{
    match DhcpRepr::parse(&DhcpPacket::new_unchecked(payload)) {
        Ok(r) => Some(DhcpRequest { message_type: r.message_type.into(),
            transaction_id: r.transaction_id, secs: r.secs,
            client_hardware_address: r.client_hardware_address.0,
            client_ip: r.client_ip.octets(), broadcast: r.broadcast }),
        Err(_) => None,
    }
}

/// `DhcpRepr::emit` of the reply `r` into `output`, which must be exactly
/// `DhcpRepr::buffer_len` bytes long. Every option then fits, so smoltcp reports
/// success; it writes every byte of the header (zeroing `sname` and `file`) and
/// of the options, as `spec_dhcp_emit` spells out.
#[verifier::external_body]
fn dhcp_repr_emit(r: &DhcpReply, output: &mut [u8]) -> (emitted: bool)
    requires
        old(output)@.len() == spec_dhcp_reply_len(*r),
    ensures
        emitted,
        final(output)@.len() == old(output)@.len(),
        final(output)@ == spec_dhcp_emit(*r),
{
    DhcpRepr { message_type: r.message_type.into(), transaction_id: r.transaction_id,
        secs: r.secs, client_hardware_address: EthernetAddress(r.client_hardware_address),
        client_ip: r.client_ip.into(), your_ip: r.your_ip.into(), server_ip: r.server_ip.into(),
        router: r.router.map(Ipv4Address::from), subnet_mask: r.subnet_mask.map(Ipv4Address::from),
        relay_agent_ip: r.relay_agent_ip.into(), broadcast: r.broadcast,
        requested_ip: r.requested_ip.map(Ipv4Address::from),
        client_identifier: r.client_identifier.map(EthernetAddress),
        server_identifier: r.server_identifier.map(Ipv4Address::from),
        parameter_request_list: None, dns_servers: None, max_size: r.max_size,
        lease_duration: r.lease_duration, renew_duration: r.renew_duration,
        rebind_duration: r.rebind_duration, additional_options: &[] }
        .emit(&mut DhcpPacket::new_unchecked(output)).is_ok()
}

/// Length of the emitted form of `reply`: the fixed header, the message-type
/// option, the end marker, and each option present. (Renewal and rebinding
/// times are carried but not emitted.)
pub open spec fn spec_dhcp_reply_len(reply: DhcpReply) -> nat {
    240 + 3 + 1 + (if reply.requested_ip is Some { 6nat } else { 0 }) + (
    if reply.client_identifier is Some {
        9nat
    } else {
        0
    }) + (if reply.server_identifier is Some { 6nat } else { 0 }) + (if reply.max_size is Some {
        4nat
    } else {
        0
    }) + (if reply.router is Some { 6nat } else { 0 }) + (if reply.subnet_mask is Some {
        6nat
    } else {
        0
    }) + (if reply.lease_duration is Some { 6nat } else { 0 })
}

/// The number of bytes `reply` takes on the wire.
pub fn dhcp_reply_len(reply: &DhcpReply) -> (length: usize)
    ensures
        length == spec_dhcp_reply_len(*reply),
{
    let mut length: usize = 244;
    if reply.requested_ip.is_some() {
        length += 6;
    }
    if reply.client_identifier.is_some() {
        length += 9;
    }
    if reply.server_identifier.is_some() {
        length += 6;
    }
    if reply.max_size.is_some() {
        length += 4;
    }
    if reply.router.is_some() {
        length += 6;
    }
    if reply.subnet_mask.is_some() {
        length += 6;
    }
    if reply.lease_duration.is_some() {
        length += 6;
    }
    length
}

/// Read a client message: `None` unless smoltcp accepts it as a DHCP packet.
pub fn parse_dhcp_request(payload: &[u8]) -> (request: Option<DhcpRequest>)
    ensures
        payload@.len() >= 240 ==> request == smoltcp_dhcp_parse(payload@),
        payload@.len() < 240 ==> request is None,
        request matches Some(r) ==> request_matches_header(r, payload@),
{
    if !dhcp_packet_new_checked(payload) {
        return None;
    }
    dhcp_repr_parse(payload)
}

/// Whether the reply to `request` must be broadcast: the client asked for it,
/// or it has no address yet.
pub open spec fn reply_is_broadcast(request: DhcpRequest) -> bool {
    request.broadcast || request.client_ip@ == UNSPECIFIED_ADDRESS@
}

/// The server's reply of type `message_type` to `request`: it offers or
/// acknowledges `CLIENT_ADDRESS` with a /24 mask and a 20-second lease, names
/// itself as server, and advertises no router.
pub open spec fn spec_dhcp_reply(request: DhcpRequest, message_type: u8) -> DhcpReply {
    DhcpReply {
        message_type: message_type,
        transaction_id: request.transaction_id,
        secs: request.secs,
        client_hardware_address: request.client_hardware_address,
        client_ip: UNSPECIFIED_ADDRESS,
        your_ip: CLIENT_ADDRESS,
        server_ip: SERVER_ADDRESS,
        router: None,
        subnet_mask: Some(SUBNET_MASK),
        relay_agent_ip: UNSPECIFIED_ADDRESS,
        broadcast: reply_is_broadcast(request),
        requested_ip: None,
        client_identifier: None,
        server_identifier: Some(SERVER_ADDRESS),
        max_size: None,
        lease_duration: Some(DHCP_LEASE_SECONDS),
        renew_duration: Some(10),
        rebind_duration: Some(17),
    }
}

fn is_unspecified(address: [u8; 4]) -> (unspecified: bool)
    ensures
        unspecified == (address@ == UNSPECIFIED_ADDRESS@),
{
    let result = address[0] == 0 && address[1] == 0 && address[2] == 0 && address[3] == 0;
    assert(result ==> address@ =~= UNSPECIFIED_ADDRESS@);
    result
}

/// The reply of type `message_type` the server sends to `request`.
pub fn dhcp_reply(request: DhcpRequest, message_type: u8) -> (reply: DhcpReply)
    ensures
        reply == spec_dhcp_reply(request, message_type),
{
    DhcpReply {
        message_type,
        transaction_id: request.transaction_id,
        secs: request.secs,
        client_hardware_address: request.client_hardware_address,
        client_ip: UNSPECIFIED_ADDRESS,
        your_ip: CLIENT_ADDRESS,
        server_ip: SERVER_ADDRESS,
        router: None,
        subnet_mask: Some(SUBNET_MASK),
        relay_agent_ip: UNSPECIFIED_ADDRESS,
        broadcast: request.broadcast || is_unspecified(request.client_ip),
        requested_ip: None,
        client_identifier: None,
        server_identifier: Some(SERVER_ADDRESS),
        max_size: None,
        lease_duration: Some(DHCP_LEASE_SECONDS),
        renew_duration: Some(DHCP_LEASE_SECONDS / 2),
        rebind_duration: Some(DHCP_LEASE_SECONDS * 7 / 8),
    }
}

/// Write the reply of type `message_type` to `request` at the start of `output`.
/// Gives its length, or `None` when `output` is too short for it.
pub fn emit_dhcp_reply(request: DhcpRequest, message_type: u8, output: &mut [u8]) -> (length:
    Option<usize>)
    ensures
        ({
            let reply = spec_dhcp_reply(request, message_type);
            let n = spec_dhcp_reply_len(reply);
            &&& final(output)@.len() == old(output)@.len()
            &&& n > old(output)@.len() ==> length is None && final(output)@ == old(output)@
            &&& n <= old(output)@.len() ==> {
                &&& length == Some(n as usize)
                &&& final(output)@.subrange(0, n as int) == spec_dhcp_emit(reply)
                &&& reply_matches_header(reply, final(output)@.subrange(0, n as int))
                &&& final(output)@.subrange(n as int, old(output)@.len() as int)
                    == old(output)@.subrange(n as int, old(output)@.len() as int)
            }
        }),
{
    let reply = dhcp_reply(request, message_type);
    let length = dhcp_reply_len(&reply);
    if length > output.len() {
        return None;
    }
    let ghost before = output@;
    proof {
        lemma_emit_header(reply);
    }
    let (head, tail) = output.split_at_mut(length);
    let emitted = dhcp_repr_emit(&reply, head);
    assert(output@ =~= spec_dhcp_emit(reply) + before.subrange(length as int, before.len() as int));
    assert(output@.subrange(0, length as int) =~= spec_dhcp_emit(reply));
    assert(output@.subrange(length as int, before.len() as int) =~= before.subrange(
        length as int,
        before.len() as int,
    ));
    if !emitted {
        return None;
    }
    Some(length)
}

/// Every reply the server builds takes 262 bytes, so it always fits the
/// 300-byte reply buffer.
pub proof fn lemma_dhcp_reply_fits(request: DhcpRequest, message_type: u8)
    ensures
        spec_dhcp_reply_len(spec_dhcp_reply(request, message_type)) == 262,
        spec_dhcp_reply_len(spec_dhcp_reply(request, message_type)) <= DHCP_REPLY_CAPACITY,
{
}

/// The header the server writes for its answer to `request` carries a reply
/// opcode, the lease address as `yiaddr`, the client's transaction id and
/// hardware address, and the broadcast bit exactly when the reply is broadcast.
pub proof fn lemma_answer_header(request: DhcpRequest, message_type: u8, bytes: Seq<u8>)
    requires
        message_type == DHCP_OFFER || message_type == DHCP_ACK,
        reply_matches_header(spec_dhcp_reply(request, message_type), bytes),
    ensures
        bytes[0] == 2,
        bytes.subrange(16, 20) == CLIENT_ADDRESS@,
        bytes.subrange(20, 24) == SERVER_ADDRESS@,
        be32(bytes, 4) == request.transaction_id,
        bytes.subrange(28, 34) == request.client_hardware_address@,
        (bytes[10] == 0x80) == reply_is_broadcast(request),
{
}

/// The stated emission has exactly the length smoltcp computes for the reply.
pub proof fn lemma_emit_length(reply: DhcpReply)
    ensures
        spec_dhcp_emit(reply).len() == spec_dhcp_reply_len(reply),
        dhcp_header_bytes(reply).len() == 240,
{
}

/// The emitted bytes carry the reply's fixed header.
pub proof fn lemma_emit_header(reply: DhcpReply)
    ensures
        reply_matches_header(reply, spec_dhcp_emit(reply)),
{
    let b = spec_dhcp_emit(reply);
    let h = dhcp_header_bytes(reply);
    lemma_emit_length(reply);
    assert(b.subrange(0, 240) == h);
    assert(h.subrange(12, 16) =~= reply.client_ip@);
    assert(h.subrange(16, 20) =~= reply.your_ip@);
    assert(h.subrange(20, 24) =~= reply.server_ip@);
    assert(h.subrange(24, 28) =~= reply.relay_agent_ip@);
    assert(h.subrange(28, 34) =~= reply.client_hardware_address@);
    assert(b.subrange(12, 16) =~= h.subrange(12, 16));
    assert(b.subrange(16, 20) =~= h.subrange(16, 20));
    assert(b.subrange(20, 24) =~= h.subrange(20, 24));
    assert(b.subrange(24, 28) =~= h.subrange(24, 28));
    assert(b.subrange(28, 34) =~= h.subrange(28, 34));
    let x = reply.transaction_id;
    assert((x / 0x100_0000) as u8 * 0x100_0000 + ((x / 0x1_0000) % 0x100) as u8 * 0x1_0000 + ((x
        / 0x100) % 0x100) as u8 * 0x100 + (x % 0x100) as u8 == x) by (nonlinear_arith);
    let t = reply.secs;
    assert((t / 0x100) as u8 * 0x100 + (t % 0x100) as u8 == t) by (nonlinear_arith);
}

/// The options of the server's answer, as smoltcp writes them: the message
/// type, the server's own address as server identifier, the /24 mask, the
/// 20-second lease, and the end marker. No router and no renewal or
/// rebinding time goes on the wire.
pub proof fn lemma_answer_options(request: DhcpRequest, message_type: u8)
    ensures
        spec_dhcp_emit(spec_dhcp_reply(request, message_type)).subrange(240, 262) == seq![
            53u8, 1u8, message_type,
            54u8, 4u8, 192u8, 168u8, 4u8, 1u8,
            1u8, 4u8, 255u8, 255u8, 255u8, 0u8,
            51u8, 4u8, 0u8, 0u8, 0u8, 20u8,
            255u8,
        ],
{
    let reply = spec_dhcp_reply(request, message_type);
    lemma_emit_length(reply);
    assert(dhcp_options_bytes(reply) =~= seq![
        53u8, 1u8, message_type,
        54u8, 4u8, 192u8, 168u8, 4u8, 1u8,
        1u8, 4u8, 255u8, 255u8, 255u8, 0u8,
        51u8, 4u8, 0u8, 0u8, 0u8, 20u8,
        255u8,
    ]);
    assert(spec_dhcp_emit(reply).subrange(240, 262) =~= dhcp_options_bytes(reply));
}

} // verus!
