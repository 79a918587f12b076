use vstd::prelude::*;
use vstd::string::*;
use crate::conversions::native_socket_addr;
use crate::conversions::socket_addrs_from_native;
use crate::conversions::IpAddress;
use crate::conversions::SocketAddress;

verus! {

/// The error hostname resolution raises: no address of the requested
/// family was found.
#[derive(Clone, Copy, PartialEq, Eq, Debug)]
pub enum DnsError {
    NotFound,
}

/// Which address records a resolution asks for.
#[derive(Clone, Copy, PartialEq, Eq, Debug)]
pub enum AddrType {
    IPv4,
    IPv6,
    Either,
}

/// Whether an address satisfies the requested record type: an IPv4 address
/// is refused only when IPv6 records were demanded, and the other way
/// round.
pub open spec fn family_matches(ip: IpAddress, addr_type: AddrType) -> bool {
    match addr_type {
        AddrType::IPv4 => ip is V4,
        AddrType::IPv6 => ip is V6,
        AddrType::Either => true,
    }
}

/// The first address of the requested family in a resolver's answer, if
/// any.
pub open spec fn first_match(addrs: Seq<SocketAddress>, addr_type: AddrType) -> Option<IpAddress>
    decreases addrs.len(),
{
    if addrs.len() == 0 {
        None
    } else if family_matches(addrs[0].ip, addr_type) {
        Some(addrs[0].ip)
    } else {
        first_match(addrs.drop_first(), addr_type)
    }
}

/// Pick the host address out of a resolver's answer: the first address of
/// the requested family, or not-found when no address of that family is
/// present.
pub fn pick_host(addrs: &Vec<SocketAddress>, addr_type: AddrType) -> (r: Result<IpAddress, DnsError>)
    ensures
        r matches Ok(ip) ==> first_match(addrs@, addr_type) == Some(ip),
        r matches Err(e) ==> first_match(addrs@, addr_type) is None && e == DnsError::NotFound,
        r is Err <==> (forall|i: int|
            0 <= i < addrs@.len() ==> !family_matches(addrs@[i].ip, addr_type)),
        r matches Ok(ip) ==> exists|i: int|
            {
                &&& 0 <= i < addrs@.len()
                &&& family_matches(#[trigger] addrs@[i].ip, addr_type)
                &&& addrs@[i].ip == ip
                &&& forall|j: int| 0 <= j < i ==> !family_matches(addrs@[j].ip, addr_type)
            },
{
    let n = addrs.len();
    let mut i: usize = 0;
    proof {
        assert(addrs@.skip(0) =~= addrs@);
    }
    while i < n
        invariant
            0 <= i <= n,
            n == addrs@.len(),
            first_match(addrs@, addr_type) == first_match(addrs@.skip(i as int), addr_type),
            forall|j: int| 0 <= j < i ==> !family_matches(addrs@[j].ip, addr_type),
        decreases n - i,
    {
        let matched = match (&addrs[i].ip, &addr_type) {
            (IpAddress::V4(_), AddrType::IPv6) => false,
            (IpAddress::V6(_), AddrType::IPv4) => false,
            _ => true,
        };
        proof {
            assert(addrs@.skip(i as int)[0] == addrs@[i as int]);
            assert(addrs@.skip(i as int).drop_first() =~= addrs@.skip(i as int + 1));
        }
        if matched {
            return Ok(addrs[i].ip);
        }
        i = i + 1;
    }
    proof {
        assert(addrs@.skip(n as int) =~= Seq::<SocketAddress>::empty());
    }
    Err(DnsError::NotFound)
}

/// Pick the host address straight out of a resolver's native answer: the
/// first address of the requested family it carries, or not-found when no
/// address of that family is present.
pub fn host_from_answer(
    natives: &Vec<async_std::net::SocketAddr>,
    addr_type: AddrType,
) -> (r: Result<IpAddress, DnsError>)
    ensures
        r matches Err(e) ==> e == DnsError::NotFound,
        r is Err <==> (forall|i: int|
            0 <= i < natives@.len() ==> !family_matches(
                native_socket_addr(#[trigger] natives@[i]).ip,
                addr_type,
            )),
        r matches Ok(ip) ==> exists|i: int|
            {
                &&& 0 <= i < natives@.len()
                &&& family_matches(native_socket_addr(#[trigger] natives@[i]).ip, addr_type)
                &&& native_socket_addr(natives@[i]).ip == ip
                &&& forall|j: int|
                    0 <= j < i ==> !family_matches(native_socket_addr(natives@[j]).ip, addr_type)
            },
{
    let answer = socket_addrs_from_native(natives);
    let r = pick_host(&answer, addr_type);
    proof {
        if r is Err {
            assert forall|i: int| 0 <= i < natives@.len() implies !family_matches(
                native_socket_addr(#[trigger] natives@[i]).ip,
                addr_type,
            ) by {
                assert(answer@[i] == native_socket_addr(natives@[i]));
                assert(!family_matches(answer@[i].ip, addr_type));
            }
        }
        if r is Ok {
            let ip = r->Ok_0;
            let w = choose|i: int|
                {
                    &&& 0 <= i < answer@.len()
                    &&& family_matches(#[trigger] answer@[i].ip, addr_type)
                    &&& answer@[i].ip == ip
                    &&& forall|j: int| 0 <= j < i ==> !family_matches(answer@[j].ip, addr_type)
                };
            assert(answer@[w] == native_socket_addr(natives@[w]));
            assert forall|j: int| 0 <= j < w implies !family_matches(
                native_socket_addr(#[trigger] natives@[j]).ip,
                addr_type,
            ) by {
                assert(answer@[j] == native_socket_addr(natives@[j]));
                assert(!family_matches(answer@[j].ip, addr_type));
            }
            assert(0 <= w < natives@.len() && family_matches(
                native_socket_addr(natives@[w]).ip,
                addr_type,
            ) && native_socket_addr(natives@[w]).ip == ip);
        }
        if forall|i: int|
            0 <= i < natives@.len() ==> !family_matches(
                native_socket_addr(#[trigger] natives@[i]).ip,
                addr_type,
            ) {
            assert forall|i: int| 0 <= i < answer@.len() implies !family_matches(
                #[trigger] answer@[i].ip,
                addr_type,
            ) by {
                assert(answer@[i] == native_socket_addr(natives@[i]));
            }
        }
    }
    r
}

/// Whether a host name contains a colon: a bare numeric IPv6 address does,
/// and must be bracketed before a port can be appended to it.
pub open spec fn contains_colon(s: Seq<char>) -> bool {
    exists|i: int| 0 <= i < s.len() && s[i] == ':'
}

/// Scan a host name for a colon.
pub fn host_has_colon(host: &str) -> (r: bool)
    ensures
        r == contains_colon(host@),
{
    let n = host.unicode_len();
    let mut i: usize = 0;
    while i < n
        invariant
            0 <= i <= n,
            n == host@.len(),
            forall|j: int| 0 <= j < i ==> host@[j] != ':',
        decreases n - i,
    {
        if host.get_char(i) == ':' {
            return true;
        }
        i = i + 1;
    }
    false
}

/// The query handed to the host's resolver for a host name: the name with
/// a placeholder port appended, and bracketed first when it is a bare
/// numeric IPv6 address.
pub open spec fn resolver_query_form(host: Seq<char>) -> Seq<char> {
    if contains_colon(host) {
        "["@ + host + "]:1234"@
    } else {
        host + ":1234"@
    }
}

/// Build the resolver query for a host name.
pub fn resolver_query(host: &str) -> (r: String)
    ensures
        r@ == resolver_query_form(host@),
{
    if host_has_colon(host) {
        let mut s = String::from_str("[");
        s.append(host);
        s.append("]:1234");
        s
    } else {
        let mut s = String::from_str(host);
        s.append(":1234");
        s
    }
}

/// Reverse resolution (address to hostname) is not offered: it reports
/// not-found for every address.
pub fn get_host_by_address(_addr: &IpAddress) -> (r: Result<String, DnsError>)
    ensures
        r matches Err(e) && e == DnsError::NotFound,
{
    Err(DnsError::NotFound)
}

} // verus!
