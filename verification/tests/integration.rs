//! The two end-to-end scenarios, driven over in-process transport handles:
//! the library is generic over the native handle types, and this host has
//! no network interface to carry real loopback traffic.

use std::cell::RefCell;
use std::collections::VecDeque;
use std::rc::Rc;

use embedded_nal_async_std::conversions::IpAddress;
use embedded_nal_async_std::conversions::SocketAddress;
use embedded_nal_async_std::tcp::TcpSocket;
use embedded_nal_async_std::udp::udp_local_bind_addr;
use embedded_nal_async_std::udp::UdpSocket;
use embedded_nal_async_std::Stack;

const PORT: u16 = 9876;

type Pipe = Rc<RefCell<VecDeque<u8>>>;

/// A stream handle: what a connected TCP socket would hold.
struct Stream {
    tx: Pipe,
    rx: Pipe,
}

impl Stream {
    fn write(&self, data: &[u8]) -> usize {
        let mut q = self.tx.borrow_mut();
        for b in data {
            q.push_back(*b);
        }
        data.len()
    }

    fn read(&self, buf: &mut [u8]) -> usize {
        let mut q = self.rx.borrow_mut();
        let mut n: usize = 0;
        while n < buf.len() {
            match q.pop_front() {
                Some(b) => {
                    buf[n] = b;
                    n += 1;
                }
                None => break,
            }
        }
        n
    }
}

/// A listener handle: what a bound TCP socket would hold.
struct Listener {
    pending: RefCell<VecDeque<(Stream, SocketAddress)>>,
}

impl Listener {
    fn accept(&self) -> (Stream, SocketAddress) {
        self.pending.borrow_mut().pop_front().unwrap()
    }
}

/// Wire a client stream to a listener, as a native connect would.
fn transport_connect(listener: &Listener, client_addr: SocketAddress) -> Stream {
    let up: Pipe = Rc::new(RefCell::new(VecDeque::new()));
    let down: Pipe = Rc::new(RefCell::new(VecDeque::new()));
    let server_side = Stream {
        tx: down.clone(),
        rx: up.clone(),
    };
    listener
        .pending
        .borrow_mut()
        .push_back((server_side, client_addr));
    Stream { tx: up, rx: down }
}

#[test]
fn tcp_ping_pong() {
    let mut buf = [0u8; 256];

    // Create sockets
    let stack = Stack::default();
    let mut client: TcpSocket<Stream, Listener> = TcpSocket::new();
    let mut server: TcpSocket<Stream, Listener> = TcpSocket::new();

    // Bind server
    let bind_addr = stack.tcp_bind_addr(PORT);
    assert_eq!(bind_addr.port, PORT);
    server.complete_bind(Listener {
        pending: RefCell::new(VecDeque::new()),
    });

    // Connect client
    let addr = SocketAddress::new(IpAddress::V4([127, 0, 0, 1]), PORT);
    let client_addr = SocketAddress::new(IpAddress::V4([127, 0, 0, 1]), 50000);
    let stream = transport_connect(server.state.get_bound().unwrap(), client_addr);
    let _ = addr;
    client.complete_connect(stream);

    // Accept the connection
    let (stream, _addr) = server.state.get_bound().unwrap().accept();
    let server: TcpSocket<Stream, Listener> = TcpSocket::connected(stream);

    // Check if connection is ok
    assert!(client.is_connected());

    // Send client -> server
    assert_eq!(client.state.get_connected().unwrap().write(b"PING"), 4);
    assert_eq!(server.state.get_connected().unwrap().read(&mut buf), 4);
    assert_eq!(&buf[..4], b"PING");

    // Send server -> client
    assert_eq!(server.state.get_connected().unwrap().write(b"PONG"), 4);
    assert_eq!(client.state.get_connected().unwrap().read(&mut buf), 4);
    assert_eq!(&buf[..4], b"PONG");

    // Close
    client.close().unwrap();
    server.close().unwrap();
}

/// A datagram handle: what a UDP socket would hold in either role.
struct Datagrams {
    local: SocketAddress,
    queue: Rc<RefCell<VecDeque<(Vec<u8>, SocketAddress)>>>,
    peer: RefCell<Option<(SocketAddress, Rc<RefCell<VecDeque<(Vec<u8>, SocketAddress)>>>)>>,
}

impl Datagrams {
    fn bound(local: SocketAddress) -> Self {
        Datagrams {
            local,
            queue: Rc::new(RefCell::new(VecDeque::new())),
            peer: RefCell::new(None),
        }
    }

    fn connect(&self, remote: SocketAddress, remote_queue: &Datagrams) {
        *self.peer.borrow_mut() = Some((remote, remote_queue.queue.clone()));
    }

    fn send(&self, data: &[u8]) {
        let peer = self.peer.borrow();
        let (_, queue) = peer.as_ref().unwrap();
        queue.borrow_mut().push_back((data.to_vec(), self.local));
    }

    fn send_to(&self, data: &[u8], remote_queue: &Datagrams) {
        remote_queue
            .queue
            .borrow_mut()
            .push_back((data.to_vec(), self.local));
    }

    fn recv_from(&self, buf: &mut [u8]) -> (usize, SocketAddress) {
        let (data, from) = self.queue.borrow_mut().pop_front().unwrap();
        buf[..data.len()].copy_from_slice(&data);
        (data.len(), from)
    }
}

#[test]
fn udp_ping_pong() {
    let mut buf = [0u8; 256];

    // Create sockets
    let stack = Stack::default();
    let mut client: UdpSocket<Datagrams> = UdpSocket::new();
    let mut server: UdpSocket<Datagrams> = UdpSocket::new();

    // Bind server
    let server_transport = Datagrams::bound(stack.udp_bind_addr(PORT));
    server.complete_bind(server_transport);

    // Connect client: bound first to the unspecified address of the
    // remote's family, then directed at the remote
    let addr = SocketAddress::new(IpAddress::V4([127, 0, 0, 1]), PORT);
    let local = udp_local_bind_addr(&addr);
    let client_transport = Datagrams::bound(SocketAddress::new(local.ip, 50001));
    client_transport.connect(addr, server.state.get_bound().unwrap());
    client.complete_connect(client_transport);

    // Send client -> server
    client.state.get_either().unwrap().send(b"PING");
    let (n, remote) = server.state.get_either().unwrap().recv_from(&mut buf);
    assert_eq!(n, 4);
    assert_eq!(&buf[..4], b"PING");

    // Send server -> client: reply to the return address the server
    // learned from the datagram
    assert_eq!(remote.port, 50001);
    server
        .state
        .get_bound()
        .unwrap()
        .send_to(b"PONG", client.state.get_either().unwrap());
    let (n, _remote) = client.state.get_either().unwrap().recv_from(&mut buf);
    assert_eq!(n, 4);
    assert_eq!(&buf[..4], b"PONG");

    // Close
    client.close().unwrap();
    server.close().unwrap();
}
