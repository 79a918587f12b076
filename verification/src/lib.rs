//! A host-side backend for a small abstract networking interface: TCP and
//! UDP sockets with a three-state lifecycle (closed, connected, bound),
//! address translation between the abstract octet form and the host stack's
//! native form, and hostname resolution filtered by address family.
//!
//! The socket lifecycle, the address model and every decision the backend
//! makes are verified here; the host operating system's asynchronous socket
//! calls themselves stay outside the library and hand it plain values.

pub mod conversions;
pub mod dns;
pub mod tcp;
pub mod udp;

use vstd::prelude::*;
use crate::conversions::IpAddress;
use crate::conversions::SocketAddress;

verus! {

/// The single error the library itself raises: an operation was attempted
/// in a lifecycle state that does not support it.
#[derive(Clone, Copy, PartialEq, Eq, Debug)]
pub enum SocketError {
    NotConnected,
}

/// Lifecycle of a socket. A fresh socket is `Closed`; a successful connect
/// stores a stream-oriented handle in `Connected`; a successful bind stores
/// a listening handle in `Bound`. Exactly one variant is active at a time,
/// and closing is a no-op that simply drops the holder.
pub enum SocketState<C, B> {
    Closed,
    Connected(C),
    Bound(B),
}

/// A socket in this state may send and receive on its connected handle.
pub open spec fn can_send<C, B>(s: SocketState<C, B>) -> bool {
    s is Connected
}

/// A socket in this state may accept (TCP) or send-to (UDP) on its bound
/// handle.
pub open spec fn can_accept<C, B>(s: SocketState<C, B>) -> bool {
    s is Bound
}

impl<C, B> SocketState<C, B> {
    /// A freshly allocated socket is closed.
    pub fn new() -> (r: Self)
        ensures
            r is Closed,
            !can_send(r) && !can_accept(r),
    {
        SocketState::Closed
    }

    /// The connected handle, if the state allows symmetric send/receive;
    /// the not-connected condition otherwise.
    pub fn get_connected(&self) -> (r: Result<&C, SocketError>)
        ensures
            r is Ok <==> can_send(*self),
            self matches SocketState::Connected(c0) ==> (r matches Ok(c) && *c == c0),
            !can_send(*self) ==> (r matches Err(e) && e == SocketError::NotConnected),
    {
        match self {
            SocketState::Connected(c) => Ok(c),
            _ => Err(SocketError::NotConnected),
        }
    }

    /// The bound handle, if the state allows accept/send-to; the
    /// not-connected condition otherwise.
    pub fn get_bound(&self) -> (r: Result<&B, SocketError>)
        ensures
            r is Ok <==> can_accept(*self),
            self matches SocketState::Bound(b0) ==> (r matches Ok(b) && *b == b0),
            !can_accept(*self) ==> (r matches Err(e) && e == SocketError::NotConnected),
    {
        match self {
            SocketState::Bound(b) => Ok(b),
            _ => Err(SocketError::NotConnected),
        }
    }
}

impl<T> SocketState<T, T> {
    /// The handle whether connected or bound: a UDP socket can send and
    /// receive in either role. The closed case is never exposed.
    pub fn get_either(&self) -> (r: Result<&T, SocketError>)
        ensures
            r is Ok <==> (can_send(*self) || can_accept(*self)),
            self matches SocketState::Connected(t0) ==> (r matches Ok(t) && *t == t0),
            self matches SocketState::Bound(t0) ==> (r matches Ok(t) && *t == t0),
            self is Closed ==> (r matches Err(e) && e == SocketError::NotConnected),
    {
        match self {
            SocketState::Connected(t) => Ok(t),
            SocketState::Bound(t) => Ok(t),
            SocketState::Closed => Err(SocketError::NotConnected),
        }
    }
}

/// Exactly one lifecycle state is active at a time: a connected socket may
/// send and never accept, a bound socket may accept and never send, and a
/// closed socket may do neither.
pub proof fn lemma_states_exclusive<C, B>(s: SocketState<C, B>)
    ensures
        s is Connected ==> can_send(s) && !can_accept(s),
        s is Bound ==> can_accept(s) && !can_send(s),
        s is Closed ==> !can_send(s) && !can_accept(s),
{
}

/// The backend stack. It owns no resources of its own; it remembers only
/// the local address that bound UDP sockets should use.
#[derive(Clone, Copy)]
pub struct Stack {
    pub ip: IpAddress,
}

impl Stack {
    pub fn new(ip: IpAddress) -> (r: Self)
        ensures
            r.ip == ip,
    {
        Stack { ip }
    }

    /// The local address a TCP listener is bound to for a given port: the
    /// unspecified IPv4 address, whatever the stack was created with.
    pub fn tcp_bind_addr(&self, local_port: u16) -> (r: SocketAddress)
        ensures
            r.ip == IpAddress::V4([0u8, 0u8, 0u8, 0u8]),
            r.port == local_port,
    {
        SocketAddress { ip: IpAddress::V4([0u8, 0u8, 0u8, 0u8]), port: local_port }
    }

    /// The local address a UDP socket is bound to for a given port: the
    /// stack's own address.
    pub fn udp_bind_addr(&self, local_port: u16) -> (r: SocketAddress)
        ensures
            r.ip == self.ip,
            r.port == local_port,
    {
        SocketAddress { ip: self.ip, port: local_port }
    }
}

impl Default for Stack {
    /// The default stack binds UDP sockets to the unspecified IPv4 address.
    fn default() -> (r: Self)
        ensures
            r.ip == IpAddress::V4([0u8, 0u8, 0u8, 0u8]),
    {
        Stack { ip: IpAddress::V4([0u8, 0u8, 0u8, 0u8]) }
    }
}

} // verus!
