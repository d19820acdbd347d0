//! Plain representation of socket addresses, holding exactly what the
//! adapter's decisions read: the address family, the four IPv4 octets, and
//! the port. The runtime converts between this representation and its own
//! socket address values.

use vstd::prelude::*;

verus! {

/// An IPv4 address as its four octets, most significant first.
#[derive(Clone, Copy, Debug, PartialEq, Eq, Structural)]
pub struct Ipv4Rep {
    pub octet0: u8,
    pub octet1: u8,
    pub octet2: u8,
    pub octet3: u8,
}

/// A socket address as the adapter reads it: an IPv4 address with its port,
/// or an IPv6 address, of which the adapter's decisions read only the port.
#[derive(Clone, Copy, Debug, PartialEq, Eq, Structural)]
pub enum SocketAddrRep {
    V4 { ip: Ipv4Rep, port: u16 },
    V6 { port: u16 },
}

/// An IPv4 address is multicast when it lies in 224.0.0.0/4, that is when
/// its first octet is between 224 and 239.
pub open spec fn ipv4_multicast_spec(ip: Ipv4Rep) -> bool {
    224 <= ip.octet0 <= 239
}

/// Tests whether an IPv4 address is a multicast (224.0.0.0/4) address.
pub fn ipv4_is_multicast(ip: &Ipv4Rep) -> (r: bool)
    ensures
        r == ipv4_multicast_spec(*ip),
{
    224 <= ip.octet0 && ip.octet0 <= 239
}

/// The unspecified (wildcard) IPv4 address, 0.0.0.0.
pub open spec fn ipv4_unspecified_spec() -> Ipv4Rep {
    Ipv4Rep { octet0: 0, octet1: 0, octet2: 0, octet3: 0 }
}

/// Builds the unspecified (wildcard) IPv4 address, 0.0.0.0.
pub fn ipv4_unspecified() -> (r: Ipv4Rep)
    ensures
        r == ipv4_unspecified_spec(),
{
    Ipv4Rep { octet0: 0, octet1: 0, octet2: 0, octet3: 0 }
}

/// The local address an outbound endpoint binds before associating with its
/// peer: the wildcard address with port zero, so the operating system picks
/// an ephemeral port.
pub fn ephemeral_bind_address() -> (r: SocketAddrRep)
    ensures
        (r matches SocketAddrRep::V4 { ip, port } && ip == ipv4_unspecified_spec() && port == 0u16),
{
    SocketAddrRep::V4 { ip: ipv4_unspecified(), port: 0 }
}

} // verus!
