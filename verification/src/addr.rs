//! Plain-value address types: IPv4, IPv6 and hardware (MAC) addresses.

use vstd::prelude::*;

verus! {

/// An IPv4 address as four octets.
#[derive(Clone, Copy, Debug, PartialEq, Eq, Structural)]
pub struct Ipv4Address {
    pub a: u8,
    pub b: u8,
    pub c: u8,
    pub d: u8,
}

impl Ipv4Address {
    /// The four octets of the address, most significant first.
    pub open spec fn spec_octets(self) -> Seq<u8> {
        seq![self.a, self.b, self.c, self.d]
    }

    pub fn new(a: u8, b: u8, c: u8, d: u8) -> (r: Ipv4Address)
        ensures
            r == (Ipv4Address { a, b, c, d }),
    {
        Ipv4Address { a, b, c, d }
    }

    /// The all-zero address `0.0.0.0`.
    pub fn unspecified() -> (r: Ipv4Address)
        ensures
            r == (Ipv4Address { a: 0, b: 0, c: 0, d: 0 }),
    {
        Ipv4Address { a: 0, b: 0, c: 0, d: 0 }
    }
}

/// The number of leading one bits of `o` when `o` is a valid netmask octet
/// (ones followed by zeros), `None` otherwise.
pub open spec fn octet_ones(o: u8) -> Option<u8> {
    if o == 0 {
        Some(0u8)
    } else if o == 128 {
        Some(1u8)
    } else if o == 192 {
        Some(2u8)
    } else if o == 224 {
        Some(3u8)
    } else if o == 240 {
        Some(4u8)
    } else if o == 248 {
        Some(5u8)
    } else if o == 252 {
        Some(6u8)
    } else if o == 254 {
        Some(7u8)
    } else if o == 255 {
        Some(8u8)
    } else {
        None
    }
}

/// The prefix length `m` denotes when it is a contiguous netmask — a run of
/// ones followed by zeros — and `None` otherwise.
pub open spec fn spec_netmask_prefix_len(m: Ipv4Address) -> Option<u8> {
    match (octet_ones(m.a), octet_ones(m.b), octet_ones(m.c), octet_ones(m.d)) {
        (Some(x), Some(y), Some(z), Some(w)) => {
            if (m.a == 255 || (m.b == 0 && m.c == 0 && m.d == 0)) && (m.b == 255 || (m.c == 0
                && m.d == 0)) && (m.c == 255 || m.d == 0) {
                Some((x + y + z + w) as u8)
            } else {
                None
            }
        },
        _ => None,
    }
}

/// Reads the number of leading one bits of a netmask octet.
fn octet_ones_of(o: u8) -> (r: Option<u8>)
    ensures
        r == octet_ones(o),
{
    if o == 0 {
        Some(0)
    } else if o == 128 {
        Some(1)
    } else if o == 192 {
        Some(2)
    } else if o == 224 {
        Some(3)
    } else if o == 240 {
        Some(4)
    } else if o == 248 {
        Some(5)
    } else if o == 252 {
        Some(6)
    } else if o == 254 {
        Some(7)
    } else if o == 255 {
        Some(8)
    } else {
        None
    }
}

/// The prefix length of a contiguous netmask (`255.255.252.0` has 22), and
/// `None` for an address that is no netmask.
pub fn netmask_prefix_len(m: &Ipv4Address) -> (r: Option<u8>)
    ensures
        r == spec_netmask_prefix_len(*m),
{
    let (x, y, z, w) = match (
        octet_ones_of(m.a),
        octet_ones_of(m.b),
        octet_ones_of(m.c),
        octet_ones_of(m.d),
    ) {
        (Some(x), Some(y), Some(z), Some(w)) => (x, y, z, w),
        _ => {
            return None;
        },
    };
    if (m.a == 255 || (m.b == 0 && m.c == 0 && m.d == 0)) && (m.b == 255 || (m.c == 0 && m.d == 0))
        && (m.c == 255 || m.d == 0) {
        Some(x + y + z + w)
    } else {
        None
    }
}

/// An IPv6 address as sixteen octets.
#[derive(Clone, Copy, Debug, PartialEq, Eq)]
pub struct Ipv6Address {
    pub octets: [u8; 16],
}

/// An IP address of either family.
#[derive(Clone, Copy, Debug, PartialEq, Eq)]
pub enum IpAddress {
    V4(Ipv4Address),
    V6(Ipv6Address),
}

/// A 48-bit hardware address.
#[derive(Clone, Copy, Debug, PartialEq, Eq)]
pub struct MacAddress {
    pub octets: [u8; 6],
}

impl MacAddress {
    pub fn new(octets: [u8; 6]) -> (r: MacAddress)
        ensures
            r.octets == octets,
    {
        MacAddress { octets }
    }
}

/// Whether two IPv6 addresses hold the same octets.
pub fn same_ipv6(x: &Ipv6Address, y: &Ipv6Address) -> (r: bool)
    ensures
        r == (x.octets@ == y.octets@),
{
    let mut i: usize = 0;
    while i < 16
        invariant
            i <= 16,
            forall|j: int| 0 <= j < i ==> x.octets@[j] == y.octets@[j],
        decreases 16 - i,
    {
        if x.octets[i] != y.octets[i] {
            return false;
        }
        i += 1;
    }
    proof {
        assert(x.octets@ =~= y.octets@);
    }
    true
}

/// Whether two IP addresses are equal (same family, same octets).
pub open spec fn ip_eq(x: IpAddress, y: IpAddress) -> bool {
    match (x, y) {
        (IpAddress::V4(p), IpAddress::V4(q)) => p == q,
        (IpAddress::V6(p), IpAddress::V6(q)) => p.octets@ == q.octets@,
        _ => false,
    }
}

/// Decides `ip_eq` on two IP addresses.
pub fn same_ip(x: &IpAddress, y: &IpAddress) -> (r: bool)
    ensures
        r == ip_eq(*x, *y),
{
    match (x, y) {
        (IpAddress::V4(p), IpAddress::V4(q)) => p.a == q.a && p.b == q.b && p.c == q.c && p.d == q.d,
        (IpAddress::V6(p), IpAddress::V6(q)) => same_ipv6(p, q),
        _ => false,
    }
}

} // verus!
