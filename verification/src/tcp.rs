use vstd::prelude::*;
use crate::SocketState;

verus! {

/// A TCP socket: closed until connected or bound. The connected variant
/// holds a stream handle `C`, the bound variant a listener handle `B`.
pub struct TcpSocket<C, B> {
    pub state: SocketState<C, B>,
}

impl<C, B> TcpSocket<C, B> {
    /// A new closed socket.
    pub fn new() -> (r: Self)
        ensures
            r.state is Closed,
    {
        TcpSocket { state: SocketState::new() }
    }

    /// A socket over an already connected stream.
    /// Useful for socket features the abstract interface does not expose.
    pub fn connected(stream: C) -> (r: Self)
        ensures
            r.state == SocketState::<C, B>::Connected(stream),
    {
        TcpSocket { state: SocketState::Connected(stream) }
    }

    /// A socket over an already bound listener.
    /// Useful for socket features the abstract interface does not expose.
    pub fn bound(listener: B) -> (r: Self)
        ensures
            r.state == SocketState::<C, B>::Bound(listener),
    {
        TcpSocket { state: SocketState::Bound(listener) }
    }

    /// Record a successful native connect: the socket becomes connected
    /// over the returned stream, whatever it held before.
    pub fn complete_connect(&mut self, stream: C)
        ensures
            final(self).state == SocketState::<C, B>::Connected(stream),
    {
        self.state = SocketState::Connected(stream);
    }

    /// Record a successful native bind: the socket becomes bound over the
    /// returned listener, whatever it held before.
    pub fn complete_bind(&mut self, listener: B)
        ensures
            final(self).state == SocketState::<C, B>::Bound(listener),
    {
        self.state = SocketState::Bound(listener);
    }

    /// Whether the socket is in the connected state.
    pub fn is_connected(&self) -> (r: bool)
        ensures
            r == self.state is Connected,
    {
        match self.state {
            SocketState::Connected(_) => true,
            _ => false,
        }
    }

    /// Closing always succeeds: it only drops the holder, and with it the
    /// native handle.
    pub fn close(self) -> (r: Result<(), crate::SocketError>)
        ensures
            r is Ok,
    {
        Ok(())
    }
}

} // verus!
