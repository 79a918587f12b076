use vstd::prelude::*;

verus! {

/// An IP address as the library reasons about it: the bare octets of an
/// IPv4 or IPv6 address, with no behaviour attached.
#[derive(Clone, Copy, PartialEq, Eq, Debug)]
pub enum IpAddress {
    V4([u8; 4]),
    V6([u8; 16]),
}

/// An IP address and port pair.
#[derive(Clone, Copy, PartialEq, Eq, Debug)]
pub struct SocketAddress {
    pub ip: IpAddress,
    pub port: u16,
}

impl SocketAddress {
    pub fn new(ip: IpAddress, port: u16) -> (r: Self)
        ensures
            r == (SocketAddress { ip, port }),
    {
        SocketAddress { ip, port }
    }
}

#[verifier::external_type_specification]
#[verifier::external_body]
pub struct ExNativeIpAddr(async_std::net::IpAddr);

#[verifier::external_type_specification]
#[verifier::external_body]
pub struct ExNativeSocketAddr(async_std::net::SocketAddr);

/// The octets a native IP address carries, as the library's own address
/// form.
pub uninterp spec fn native_ip(ip: async_std::net::IpAddr) -> IpAddress;

/// The address octets and port a native socket address carries, as the
/// library's own address form.
pub uninterp spec fn native_socket_addr(addr: async_std::net::SocketAddr) -> SocketAddress;

/// Relies on async_std::net::Ipv4Addr::from (a re-export of the std type):
/// the address built from a four-byte array has exactly those bytes as its
/// octets.
#[verifier::external_body]
pub(crate) fn native_ip_v4(octets: &[u8; 4]) -> (r: async_std::net::IpAddr)
    ensures
        native_ip(r) == IpAddress::V4(*octets),
{
    async_std::net::IpAddr::V4(async_std::net::Ipv4Addr::from(*octets))
}

/// Relies on async_std::net::Ipv6Addr::from (a re-export of the std type):
/// the address built from a sixteen-byte array has exactly those bytes as
/// its octets.
#[verifier::external_body]
pub(crate) fn native_ip_v6(octets: &[u8; 16]) -> (r: async_std::net::IpAddr)
    ensures
        native_ip(r) == IpAddress::V6(*octets),
{
    async_std::net::IpAddr::V6(async_std::net::Ipv6Addr::from(*octets))
}

/// Relies on async_std::net::IpAddr (a re-export of the std type): its V4
/// and V6 variants carry addresses whose `octets` methods return the
/// address bytes.
#[verifier::external_body]
pub fn ip_from_native(ip: &async_std::net::IpAddr) -> (r: IpAddress)
    ensures
        r == native_ip(*ip),
{
    match ip {
        async_std::net::IpAddr::V4(v4) => IpAddress::V4(v4.octets()),
        async_std::net::IpAddr::V6(v6) => IpAddress::V6(v6.octets()),
    }
}

/// Relies on async_std::net::SocketAddr::new (a re-export of the std
/// type): the socket address built from an IP address and a port carries
/// exactly that address and that port.
#[verifier::external_body]
pub(crate) fn native_socket_addr_new(ip: async_std::net::IpAddr, port: u16) -> (r:
    async_std::net::SocketAddr)
    ensures
        native_socket_addr(r) == (SocketAddress { ip: native_ip(ip), port }),
{
    async_std::net::SocketAddr::new(ip, port)
}

/// Relies on async_std::net::SocketAddr::ip (a re-export of the std type):
/// it returns the IP address the socket address carries.
#[verifier::external_body]
pub(crate) fn native_socket_addr_ip(addr: &async_std::net::SocketAddr) -> (r: IpAddress)
    ensures
        r == native_socket_addr(*addr).ip,
{
    match addr.ip() {
        async_std::net::IpAddr::V4(v4) => IpAddress::V4(v4.octets()),
        async_std::net::IpAddr::V6(v6) => IpAddress::V6(v6.octets()),
    }
}

/// Relies on async_std::net::SocketAddr::port (a re-export of the std
/// type): it returns the port the socket address carries.
#[verifier::external_body]
pub(crate) fn native_socket_addr_port(addr: &async_std::net::SocketAddr) -> (r: u16)
    ensures
        r == native_socket_addr(*addr).port,
{
    addr.port()
}

/// The native form of an address of the library: a native value that
/// carries exactly the given octets.
pub fn ip_to_native(ip: &IpAddress) -> (r: async_std::net::IpAddr)
    ensures
        native_ip(r) == *ip,
{
    match ip {
        IpAddress::V4(octets) => native_ip_v4(octets),
        IpAddress::V6(octets) => native_ip_v6(octets),
    }
}

/// The native form of an address and port pair: a native value that
/// carries exactly the given octets and port.
pub fn socket_addr_to_native(addr: &SocketAddress) -> (r: async_std::net::SocketAddr)
    ensures
        native_socket_addr(r) == *addr,
{
    let ip = ip_to_native(&addr.ip);
    native_socket_addr_new(ip, addr.port)
}

/// The library's form of a native socket address: the octets and port it
/// carries.
pub fn socket_addr_from_native(addr: &async_std::net::SocketAddr) -> (r: SocketAddress)
    ensures
        r == native_socket_addr(*addr),
{
    let ip = native_socket_addr_ip(addr);
    let port = native_socket_addr_port(addr);
    SocketAddress { ip, port }
}

/// The library's form of every address in a resolver's native answer, in
/// the answer's order.
pub fn socket_addrs_from_native(addrs: &Vec<async_std::net::SocketAddr>) -> (r: Vec<
    SocketAddress,
>)
    ensures
        r@.len() == addrs@.len(),
        forall|i: int| 0 <= i < addrs@.len() ==> r@[i] == native_socket_addr(addrs@[i]),
{
    let n = addrs.len();
    let mut r: Vec<SocketAddress> = Vec::new();
    let mut i: usize = 0;
    while i < n
        invariant
            0 <= i <= n,
            n == addrs@.len(),
            r@.len() == i,
            forall|j: int| 0 <= j < i ==> r@[j] == native_socket_addr(addrs@[j]),
        decreases n - i,
    {
        let a = socket_addr_from_native(&addrs[i]);
        r.push(a);
        i = i + 1;
    }
    r
}

/// Address conversion is lossless and invertible: taking an address to its
/// native form and back yields the original value.
pub fn ip_round_trip(ip: &IpAddress) -> (r: IpAddress)
    ensures
        r == *ip,
{
    let native = ip_to_native(ip);
    ip_from_native(&native)
}

/// Address and port conversion is lossless and invertible: taking a socket
/// address to its native form and back yields the original value.
pub fn socket_addr_round_trip(addr: &SocketAddress) -> (r: SocketAddress)
    ensures
        r == *addr,
{
    let native = socket_addr_to_native(addr);
    socket_addr_from_native(&native)
}

} // verus!
