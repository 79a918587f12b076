use vstd::prelude::*;
use crate::SocketState;
use crate::conversions::IpAddress;
use crate::conversions::SocketAddress;

verus! {

/// A UDP socket: closed until connected or bound. Both the connected and
/// the bound variant hold the same native handle type `H`, since a UDP
/// socket sends and receives in either role.
pub struct UdpSocket<H> {
    pub state: SocketState<H, H>,
}

impl<H> UdpSocket<H> {
    /// A new unconnected socket.
    pub fn new() -> (r: Self)
        ensures
            r.state is Closed,
    {
        UdpSocket { state: SocketState::new() }
    }

    /// A socket over an already connected native socket.
    /// Useful for socket features the abstract interface does not expose.
    pub fn connected(socket: H) -> (r: Self)
        ensures
            r.state == SocketState::<H, H>::Connected(socket),
    {
        UdpSocket { state: SocketState::Connected(socket) }
    }

    /// A socket over an already bound native socket.
    /// Useful for socket features the abstract interface does not expose.
    pub fn bound(socket: H) -> (r: Self)
        ensures
            r.state == SocketState::<H, H>::Bound(socket),
    {
        UdpSocket { state: SocketState::Bound(socket) }
    }

    /// Record a successful native connect.
    pub fn complete_connect(&mut self, socket: H)
        ensures
            final(self).state == SocketState::<H, H>::Connected(socket),
    {
        self.state = SocketState::Connected(socket);
    }

    /// Record a successful native bind.
    pub fn complete_bind(&mut self, socket: H)
        ensures
            final(self).state == SocketState::<H, H>::Bound(socket),
    {
        self.state = SocketState::Bound(socket);
    }

    /// Whether the socket is in the connected state.
    pub fn is_connected(&self) -> (r: bool)
        ensures
            r == self.state is Connected,
    {
        match self.state {
            SocketState::Connected(_) => true,
            _ => false,
        }
    }

    /// Closing always succeeds: it only drops the holder, and with it the
    /// native handle.
    pub fn close(self) -> (r: Result<(), crate::SocketError>)
        ensures
            r is Ok,
    {
        Ok(())
    }
}

/// The local address a UDP socket is bound to before connecting to a
/// remote: the unspecified address of the remote's own family, with an
/// ephemeral port chosen by the host (port zero).
pub fn udp_local_bind_addr(remote: &SocketAddress) -> (r: SocketAddress)
    ensures
        remote.ip is V4 ==> r.ip == IpAddress::V4([0u8, 0u8, 0u8, 0u8]),
        remote.ip is V6 ==> r.ip == IpAddress::V6(
            [0u8, 0u8, 0u8, 0u8, 0u8, 0u8, 0u8, 0u8, 0u8, 0u8, 0u8, 0u8, 0u8, 0u8, 0u8, 0u8],
        ),
        r.port == 0,
{
    match remote.ip {
        IpAddress::V4(_) => SocketAddress { ip: IpAddress::V4([0u8, 0u8, 0u8, 0u8]), port: 0 },
        IpAddress::V6(_) => SocketAddress {
            ip: IpAddress::V6(
                [0u8, 0u8, 0u8, 0u8, 0u8, 0u8, 0u8, 0u8, 0u8, 0u8, 0u8, 0u8, 0u8, 0u8, 0u8, 0u8],
            ),
            port: 0,
        },
    }
}

} // verus!
