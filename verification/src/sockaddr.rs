//! Conversion between a generic socket address and the OS's tagged
//! address-family structure (`SOCKADDR_INET`), modelled field for field.
//!
//! The structure is tagged by the address family; the port travels in
//! network byte order, the IPv4 address as its four octets packed into the
//! 32-bit word exactly as they sit in memory on the (little-endian) targets
//! the OS supports, and the IPv6 address as its sixteen raw octets together
//! with flow-info and scope-id in host order.

use vstd::prelude::*;

verus! {

broadcast use vstd::array::group_array_axioms;

/// Address-family tag for IPv4 in the OS's socket structures.
pub const AF_INET: u16 = 2;

/// Address-family tag for IPv6 in the OS's socket structures.
pub const AF_INET6: u16 = 23;

/// Family filter meaning "any address family" when registering for
/// interface-change notifications.
pub const AF_UNSPEC: u16 = 0;

#[derive(Clone, Copy, Debug, PartialEq, Eq, Structural)]
pub enum Error {
    /// The structure's family tag is neither the IPv4 nor the IPv6 tag.
    UnknownAddressFamily(i32),
}

/// An IPv4 address as its four octets, most significant first.
#[derive(Clone, Copy, Debug, PartialEq, Eq)]
pub struct Ipv4Address {
    pub octets: [u8; 4],
}

/// An IPv6 address as its sixteen octets, most significant first.
#[derive(Clone, Copy, Debug, PartialEq, Eq)]
pub struct Ipv6Address {
    pub octets: [u8; 16],
}

/// A generic IPv4 socket address: an address and a host-order port.
#[derive(Clone, Copy, Debug, PartialEq, Eq)]
pub struct SocketAddressV4 {
    pub ip: Ipv4Address,
    pub port: u16,
}

/// A generic IPv6 socket address: an address, a host-order port, and the
/// flow-info and scope-id that accompany an IPv6 endpoint.
#[derive(Clone, Copy, Debug, PartialEq, Eq)]
pub struct SocketAddressV6 {
    pub ip: Ipv6Address,
    pub port: u16,
    pub flowinfo: u32,
    pub scope_id: u32,
}

/// A generic socket address, IPv4 or IPv6.
#[derive(Clone, Copy, Debug, PartialEq, Eq)]
pub enum SocketAddress {
    V4(SocketAddressV4),
    V6(SocketAddressV6),
}

/// The OS's IPv4 address value: the four network-order octets packed into a
/// host 32-bit word, first octet in the least significant byte.
#[derive(Clone, Copy, Debug, PartialEq, Eq)]
pub struct InAddr {
    pub s_addr: u32,
}

/// The OS's IPv6 address value: sixteen raw octets.
#[derive(Clone, Copy, Debug, PartialEq, Eq)]
pub struct In6Addr {
    pub octets: [u8; 16],
}

/// The OS's tagged socket-address structure, with the fields of both
/// family-specific layouts laid out side by side; `family` selects which of
/// them are meaningful, and encoding zeroes the rest.
#[derive(Clone, Copy, Debug, PartialEq, Eq)]
pub struct SockAddrInet {
    pub family: u16,
    /// Port in network byte order.
    pub port: u16,
    pub v4_addr: InAddr,
    pub v6_addr: In6Addr,
    /// IPv6 flow information, host order; zero in the IPv4 layout.
    pub flowinfo: u32,
    /// IPv6 scope identifier, host order; zero in the IPv4 layout.
    pub scope_id: u32,
}

/// Mathematical image of a generic socket address.
pub enum SocketAddressModel {
    V4 { octets: Seq<u8>, port: u16 },
    V6 { octets: Seq<u8>, port: u16, flowinfo: u32, scope_id: u32 },
}

impl SocketAddressModel {
    /// The octet sequence has the length of its family's address.
    pub open spec fn wf(self) -> bool {
        match self {
            SocketAddressModel::V4 { octets, .. } => octets.len() == 4,
            SocketAddressModel::V6 { octets, .. } => octets.len() == 16,
        }
    }
}

/// Mathematical image of the OS's tagged socket-address structure.
pub struct SockAddrInetModel {
    pub family: u16,
    pub port: u16,
    pub v4_addr: u32,
    pub v6_octets: Seq<u8>,
    pub flowinfo: u32,
    pub scope_id: u32,
}

impl View for SocketAddress {
    type V = SocketAddressModel;

    open spec fn view(&self) -> SocketAddressModel {
        match *self {
            SocketAddress::V4(v4) => SocketAddressModel::V4 {
                octets: v4.ip.octets@,
                port: v4.port,
            },
            SocketAddress::V6(v6) => SocketAddressModel::V6 {
                octets: v6.ip.octets@,
                port: v6.port,
                flowinfo: v6.flowinfo,
                scope_id: v6.scope_id,
            },
        }
    }
}

impl View for SockAddrInet {
    type V = SockAddrInetModel;

    open spec fn view(&self) -> SockAddrInetModel {
        SockAddrInetModel {
            family: self.family,
            port: self.port,
            v4_addr: self.v4_addr.s_addr,
            v6_octets: self.v6_addr.octets@,
            flowinfo: self.flowinfo,
            scope_id: self.scope_id,
        }
    }
}

/// The two bytes of a 16-bit value exchanged: what storing a host-order port
/// in network byte order does on a little-endian machine.
pub open spec fn swap16(x: u16) -> u16 {
    (((x & 0xff) << 8) | (x >> 8)) as u16
}

pub proof fn lemma_swap16_involution(x: u16)
    ensures
        swap16(swap16(x)) == x,
{
    assert((((((((x & 0xff) << 8) | (x >> 8)) as u16) & 0xff) << 8) | ((((x & 0xff) << 8) | (x
        >> 8)) as u16 >> 8)) as u16 == x) by (bit_vector);
}

/// Exchanges the two bytes of a 16-bit value.
pub fn swap_port_order(x: u16) -> (r: u16)
    ensures
        r == swap16(x),
{
    let r: u16 = (x << 8) | (x >> 8);
    proof {
        assert((x << 8) | (x >> 8) == (((x & 0xff) << 8) | (x >> 8)) as u16) by (bit_vector);
    }
    r
}

/// Four network-order octets packed into a host 32-bit word, first octet in
/// the least significant byte.
pub open spec fn pack4(o: Seq<u8>) -> u32
    recommends
        o.len() == 4,
{
    ((o[0] as u32) | ((o[1] as u32) << 8) | ((o[2] as u32) << 16) | ((o[3] as u32) << 24)) as u32
}

/// The four octets of a packed IPv4 address, least significant byte first.
pub open spec fn unpack4(x: u32) -> Seq<u8> {
    seq![(x & 0xff) as u8, ((x >> 8) & 0xff) as u8, ((x >> 16) & 0xff) as u8, ((x >> 24)
        & 0xff) as u8]
}

pub proof fn lemma_unpack4_pack4(o: Seq<u8>)
    requires
        o.len() == 4,
    ensures
        unpack4(pack4(o)) == o,
{
    let a = o[0];
    let b = o[1];
    let c = o[2];
    let d = o[3];
    let x = pack4(o);
    assert(((((a as u32) | ((b as u32) << 8) | ((c as u32) << 16) | ((d as u32) << 24)) as u32)
        & 0xff) as u8 == a) by (bit_vector);
    assert((((((a as u32) | ((b as u32) << 8) | ((c as u32) << 16) | ((d as u32) << 24)) as u32)
        >> 8) & 0xff) as u8 == b) by (bit_vector);
    assert((((((a as u32) | ((b as u32) << 8) | ((c as u32) << 16) | ((d as u32) << 24)) as u32)
        >> 16) & 0xff) as u8 == c) by (bit_vector);
    assert((((((a as u32) | ((b as u32) << 8) | ((c as u32) << 16) | ((d as u32) << 24)) as u32)
        >> 24) & 0xff) as u8 == d) by (bit_vector);
    assert(unpack4(x) =~= o);
}

/// What encoding a generic socket address writes into each field of the
/// OS structure.
pub open spec fn encode_model(a: SocketAddressModel) -> SockAddrInetModel {
    match a {
        SocketAddressModel::V4 { octets, port } => SockAddrInetModel {
            family: AF_INET,
            port: swap16(port),
            v4_addr: pack4(octets),
            v6_octets: Seq::new(16, |i: int| 0u8),
            flowinfo: 0,
            scope_id: 0,
        },
        SocketAddressModel::V6 { octets, port, flowinfo, scope_id } => SockAddrInetModel {
            family: AF_INET6,
            port: swap16(port),
            v4_addr: 0,
            v6_octets: octets,
            flowinfo: flowinfo,
            scope_id: scope_id,
        },
    }
}

/// What decoding reads back out of the OS structure: the address of the
/// tagged family, or the unknown tag as an error.
pub open spec fn decode_model(s: SockAddrInetModel) -> Result<SocketAddressModel, Error> {
    if s.family == AF_INET {
        Ok(SocketAddressModel::V4 { octets: unpack4(s.v4_addr), port: swap16(s.port) })
    } else if s.family == AF_INET6 {
        Ok(
            SocketAddressModel::V6 {
                octets: s.v6_octets,
                port: swap16(s.port),
                flowinfo: s.flowinfo,
                scope_id: s.scope_id,
            },
        )
    } else {
        Err(Error::UnknownAddressFamily(s.family as i32))
    }
}

/// Decoding fails exactly when the family tag is neither the IPv4 nor the
/// IPv6 tag, and the error then names the offending tag.
pub proof fn lemma_decode_fails_iff_unknown_family(s: SockAddrInetModel)
    ensures
        decode_model(s) is Err <==> (s.family != AF_INET && s.family != AF_INET6),
        decode_model(s) is Err ==> decode_model(s) == Err::<SocketAddressModel, Error>(
            Error::UnknownAddressFamily(s.family as i32),
        ),
{
}

/// Round trip: decoding an encoded address gives the address back, for
/// every representable address, including non-zero scope-id and flow-info
/// and every port.
pub proof fn lemma_sockaddr_roundtrip(a: SocketAddressModel)
    requires
        a.wf(),
    ensures
        decode_model(encode_model(a)) == Ok::<SocketAddressModel, Error>(a),
{
    match a {
        SocketAddressModel::V4 { octets, port } => {
            lemma_unpack4_pack4(octets);
            lemma_swap16_involution(port);
        },
        SocketAddressModel::V6 { octets, port, .. } => {
            lemma_swap16_involution(port);
        },
    }
}

/// Converts an IPv4 address to the OS's packed 32-bit form.
pub fn inaddr_from_ipaddr(addr: Ipv4Address) -> (r: InAddr)
    ensures
        r.s_addr == pack4(addr.octets@),
{
    let o0 = addr.octets[0];
    let o1 = addr.octets[1];
    let o2 = addr.octets[2];
    let o3 = addr.octets[3];
    InAddr { s_addr: (o0 as u32) | ((o1 as u32) << 8) | ((o2 as u32) << 16) | ((o3 as u32) << 24) }
}

/// Converts the OS's packed 32-bit form back to an IPv4 address.
pub fn ipaddr_from_inaddr(addr: InAddr) -> (r: Ipv4Address)
    ensures
        r.octets@ == unpack4(addr.s_addr),
{
    let x = addr.s_addr;
    let mut octets: [u8; 4] = [0u8; 4];
    octets[0] = (x & 0xff) as u8;
    octets[1] = ((x >> 8) & 0xff) as u8;
    octets[2] = ((x >> 16) & 0xff) as u8;
    octets[3] = ((x >> 24) & 0xff) as u8;
    proof {
        assert(octets@ =~= unpack4(addr.s_addr));
    }
    Ipv4Address { octets }
}

/// Converts an IPv6 address to the OS's sixteen-octet form.
pub fn in6addr_from_ipaddr(addr: Ipv6Address) -> (r: In6Addr)
    ensures
        r.octets@ == addr.octets@,
{
    In6Addr { octets: addr.octets }
}

/// Converts the OS's sixteen-octet form back to an IPv6 address.
pub fn ipaddr_from_in6addr(addr: In6Addr) -> (r: Ipv6Address)
    ensures
        r.octets@ == addr.octets@,
{
    Ipv6Address { octets: addr.octets }
}

/// Encodes a generic socket address into the OS's tagged structure.
/// Deterministic and total: every address has an encoding.
pub fn inet_sockaddr_from_socketaddr(addr: SocketAddress) -> (r: SockAddrInet)
    ensures
        r@ == encode_model(addr@),
{
    match addr {
        SocketAddress::V4(v4) => {
            let r = SockAddrInet {
                family: AF_INET,
                port: swap_port_order(v4.port),
                v4_addr: inaddr_from_ipaddr(v4.ip),
                v6_addr: In6Addr { octets: [0u8; 16] },
                flowinfo: 0,
                scope_id: 0,
            };
            proof {
                assert(r@.v6_octets =~= Seq::new(16, |i: int| 0u8));
            }
            r
        },
        SocketAddress::V6(v6) => SockAddrInet {
            family: AF_INET6,
            port: swap_port_order(v6.port),
            v4_addr: InAddr { s_addr: 0 },
            v6_addr: in6addr_from_ipaddr(v6.ip),
            flowinfo: v6.flowinfo,
            scope_id: v6.scope_id,
        },
    }
}

/// Decodes the OS's tagged structure back into a generic socket address.
/// Fails exactly when the family tag is neither the IPv4 nor the IPv6 tag,
/// and then names the offending tag.
pub fn try_socketaddr_from_inet_sockaddr(addr: SockAddrInet) -> (r: Result<SocketAddress, Error>)
    ensures
        r matches Ok(a) ==> decode_model(addr@) == Ok::<SocketAddressModel, Error>(a@),
        r matches Err(e) ==> decode_model(addr@) == Err::<SocketAddressModel, Error>(e),
        r is Err <==> addr.family != AF_INET && addr.family != AF_INET6,
{
    if addr.family == AF_INET {
        Ok(
            SocketAddress::V4(
                SocketAddressV4 {
                    ip: ipaddr_from_inaddr(addr.v4_addr),
                    port: swap_port_order(addr.port),
                },
            ),
        )
    } else if addr.family == AF_INET6 {
        Ok(
            SocketAddress::V6(
                SocketAddressV6 {
                    ip: ipaddr_from_in6addr(addr.v6_addr),
                    port: swap_port_order(addr.port),
                    flowinfo: addr.flowinfo,
                    scope_id: addr.scope_id,
                },
            ),
        )
    } else {
        Err(Error::UnknownAddressFamily(addr.family as i32))
    }
}

} // verus!
