use vstd::prelude::*;

use smoltcp::socket::udp::RecvError;
use smoltcp::socket::udp::Socket as UdpSocket;
use smoltcp::socket::udp::UdpMetadata;
use smoltcp::wire::IpAddress;
use smoltcp::wire::IpEndpoint;

verus! {

#[verifier::external_type_specification]
#[verifier::external_body]
pub struct ExUdpSocket<'a>(UdpSocket<'a>);

/// An IP address by its octets.
#[derive(Clone, Copy, Debug, PartialEq, Eq)]
pub enum PeerAddress {
    V4([u8; 4]),
    V6([u8; 16]),
}

/// Where a datagram came from or goes to, as a UDP socket records it: the
/// remote address and port, the local address it was sent to or should be sent
/// from (none lets the interface choose), and the packet id.
#[derive(Clone, Copy, Debug, PartialEq, Eq)]
pub struct UdpPeer {
    pub address: PeerAddress,
    pub port: u16,
    pub local_address: Option<PeerAddress>,
    pub packet_id: u32,
}

/// The datagrams waiting in a UDP socket's receive buffer, oldest first: each
/// payload with where it came from.
pub uninterp spec fn udp_rx_queue(socket: UdpSocket) -> Seq<(Seq<u8>, UdpPeer)>;

/// The datagrams waiting in a UDP socket's transmit buffer, oldest first: each
/// payload with where it goes.
pub uninterp spec fn udp_tx_queue(socket: UdpSocket) -> Seq<(Seq<u8>, UdpPeer)>;

/// The most payload bytes the socket's transmit buffer can hold, a limit it
/// was made with.
pub uninterp spec fn udp_tx_payload_capacity(socket: UdpSocket) -> nat;

/// The number of datagram slots of the socket's transmit buffer, a limit it
/// was made with.
pub uninterp spec fn udp_tx_slots(socket: UdpSocket) -> nat;

/// Whether the socket's transmit buffer holds nothing at all: no datagram and
/// no wrap-around padding. (A transmit queue without datagrams can still hold
/// padding left by a failed send until the interface next polls the socket.)
pub uninterp spec fn udp_tx_idle(socket: UdpSocket) -> bool;

/// Whether the socket is bound to a local port.
pub uninterp spec fn udp_bound(socket: UdpSocket) -> bool;

/// Whether an address is other than the unspecified address (`0.0.0.0` or `::`).
pub open spec fn peer_address_specified(address: PeerAddress) -> bool {
    match address {
        PeerAddress::V4(o) => !(o[0] == 0 && o[1] == 0 && o[2] == 0 && o[3] == 0),
        PeerAddress::V6(o) => !(forall|i: int| 0 <= i < 16 ==> o[i] == 0),
    }
}

/// Whether the socket is sure to take a datagram of `length` bytes: it is
/// bound and its transmit buffer is idle, with a slot and enough capacity.
pub open spec fn udp_room_for(socket: UdpSocket, length: nat) -> bool {
    &&& udp_bound(socket)
    &&& udp_tx_idle(socket)
    &&& udp_tx_slots(socket) > 0
    &&& length <= udp_tx_payload_capacity(socket)
}

/// What receiving leaves alone: the transmit side and the binding.
pub open spec fn udp_transmit_side_kept(before: UdpSocket, after: UdpSocket) -> bool {
    &&& udp_tx_queue(after) == udp_tx_queue(before)
    &&& udp_tx_idle(after) == udp_tx_idle(before)
    &&& udp_tx_payload_capacity(after) == udp_tx_payload_capacity(before)
    &&& udp_tx_slots(after) == udp_tx_slots(before)
    &&& udp_bound(after) == udp_bound(before)
}

/// What `udp::Socket::recv_slice` did.
#[derive(Clone, Copy, Debug, PartialEq, Eq)]
pub enum UdpReceive {
    /// No datagram was waiting.
    Empty,
    /// The oldest datagram did not fit the buffer; it was taken and dropped.
    Truncated,
    /// The oldest datagram, `length` bytes from `peer`, was copied into the buffer.
    Datagram { length: usize, peer: UdpPeer },
}

/// `udp::Socket::recv`: with a datagram waiting, takes the oldest one off the
/// receive queue and gives its payload (copied out); with none, gives nothing.
/// The transmit buffer and the binding are not touched.
#[verifier::external_body]
pub(crate) fn udp_recv(socket: &mut UdpSocket) -> (payload: Option<Vec<u8>>)
    ensures
        udp_transmit_side_kept(*old(socket), *final(socket)),
        udp_rx_queue(*old(socket)).len() == 0 ==> payload is None && udp_rx_queue(*final(socket))
            == udp_rx_queue(*old(socket)),
        udp_rx_queue(*old(socket)).len() > 0 ==> (payload matches Some(p) && p@ == udp_rx_queue(
            *old(socket),
        )[0].0 && udp_rx_queue(*final(socket)) == udp_rx_queue(*old(socket)).drop_first()),
{
    socket.recv().ok().map(|(payload, _)| payload.to_vec())
}

/// `udp::Socket::recv_slice`: with a datagram waiting, takes the oldest one off
/// the receive queue; if it fits `buffer` its payload is copied to the front of
/// `buffer` and its length and sender are given, else it is dropped and
/// `buffer` is left alone. With none waiting nothing changes. The transmit
/// buffer and the binding are not touched.
#[verifier::external_body]
pub(crate) fn udp_recv_slice(socket: &mut UdpSocket, buffer: &mut [u8]) -> (received: UdpReceive)
    ensures
        udp_transmit_side_kept(*old(socket), *final(socket)),
        ({
            let rx = udp_rx_queue(*old(socket));
            if rx.len() == 0 {
                &&& received is Empty
                &&& udp_rx_queue(*final(socket)) == rx
                &&& final(buffer)@ == old(buffer)@
            } else if rx[0].0.len() > old(buffer)@.len() {
                &&& received is Truncated
                &&& udp_rx_queue(*final(socket)) == rx.drop_first()
                &&& final(buffer)@ == old(buffer)@
            } else {
                &&& received == (UdpReceive::Datagram { length: rx[0].0.len() as usize, peer: rx[0].1 })
                &&& udp_rx_queue(*final(socket)) == rx.drop_first()
                &&& final(buffer)@ == rx[0].0 + old(buffer)@.subrange(
                    rx[0].0.len() as int,
                    old(buffer)@.len() as int,
                )
            }
        }),
{
    let plain = |a: IpAddress| match a {
        IpAddress::Ipv4(a) => PeerAddress::V4(a.octets()),
        IpAddress::Ipv6(a) => PeerAddress::V6(a.octets()),
    };
    match socket.recv_slice(buffer) {
        Ok((length, m)) => UdpReceive::Datagram { length, peer: UdpPeer { address: plain(
            m.endpoint.addr), port: m.endpoint.port, local_address: m.local_address.map(plain),
            packet_id: m.meta.id } },
        Err(RecvError::Truncated) => UdpReceive::Truncated,
        Err(RecvError::Exhausted) => UdpReceive::Empty,
    }
}

/// `udp::Socket::send_slice` of `data` to `peer`: either the datagram is
/// appended to the transmit queue and the call succeeds, or nothing is queued
/// and it fails (the socket is unbound, the destination is unspecified or has
/// port 0, or the buffer has no room). An idle transmit buffer with a slot and
/// enough payload capacity always has room, so a bound socket then queues any
/// datagram to a specified address and a non-zero port. The receive queue, the
/// limits and the binding are not touched.
#[verifier::external_body]
pub(crate) fn udp_send_slice(socket: &mut UdpSocket, data: &[u8], peer: UdpPeer) -> (queued: bool)
    ensures
        udp_rx_queue(*final(socket)) == udp_rx_queue(*old(socket)),
        udp_tx_payload_capacity(*final(socket)) == udp_tx_payload_capacity(*old(socket)),
        udp_tx_slots(*final(socket)) == udp_tx_slots(*old(socket)),
        udp_bound(*final(socket)) == udp_bound(*old(socket)),
        queued ==> udp_tx_queue(*final(socket)) == udp_tx_queue(*old(socket)).push((data@, peer))
            && !udp_tx_idle(*final(socket)),
        !queued ==> udp_tx_queue(*final(socket)) == udp_tx_queue(*old(socket)),
        peer.port == 0 || !peer_address_specified(peer.address) || !udp_bound(*old(socket)) ==> !queued,
        udp_room_for(*old(socket), data@.len()) && peer.port != 0 && peer_address_specified(
            peer.address,
        ) ==> queued,
{
    let ip = |a: PeerAddress| match a {
        PeerAddress::V4(o) => IpAddress::Ipv4(o.into()),
        PeerAddress::V6(o) => IpAddress::Ipv6(o.into()),
    };
    let mut meta = UdpMetadata::from(IpEndpoint::new(ip(peer.address), peer.port));
    meta.local_address = peer.local_address.map(ip);
    meta.meta.id = peer.packet_id;
    socket.send_slice(data, meta).is_ok()
}

} // verus!
