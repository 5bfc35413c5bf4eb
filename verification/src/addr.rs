//! Internet addresses as plain octets.

use vstd::prelude::*;

verus! {

/// An IPv4 or IPv6 address, by its octets in network order.
#[derive(Debug, Clone, Copy, PartialEq, Eq)]
pub enum IpAddr {
    V4([u8; 4]),
    V6([u8; 16]),
}

/// An address and a port.
#[derive(Debug, Clone, Copy, PartialEq, Eq)]
pub struct SocketAddr {
    pub ip: IpAddr,
    pub port: u16,
}

fn same_octets<const N: usize>(a: &[u8; N], b: &[u8; N]) -> (same: bool)
    ensures
        same == (*a == *b),
{
    let mut i: usize = 0;
    while i < N
        invariant
            i <= N,
            forall|j: int| 0 <= j < i ==> a@[j] == b@[j],
        decreases N - i,
    {
        if a[i] != b[i] {
            return false;
        }
        i = i + 1;
    }
    assert(*a =~= *b);
    true
}

impl IpAddr {
    /// The octets of the address: four or sixteen.
    pub open spec fn octets(self) -> Seq<u8> {
        match self {
            IpAddr::V4(o) => o@,
            IpAddr::V6(o) => o@,
        }
    }

    /// Whether this is an IPv4 address.
    pub fn is_ipv4(&self) -> (b: bool)
        ensures
            b == (*self is V4),
    {
        match self {
            IpAddr::V4(_) => true,
            IpAddr::V6(_) => false,
        }
    }

    /// The wildcard address of a family: all octets are zero.
    pub fn wildcard(v6: bool) -> (ip: IpAddr)
        ensures
            ip == wildcard(v6),
    {
        if v6 {
            IpAddr::V6([0, 0, 0, 0, 0, 0, 0, 0, 0, 0, 0, 0, 0, 0, 0, 0])
        } else {
            IpAddr::V4([0, 0, 0, 0])
        }
    }

    /// Whether the address is the wildcard of its family, as the peer of a
    /// session between two applications of one VPP instance is.
    pub fn is_unspecified(&self) -> (b: bool)
        ensures
            b == (*self == wildcard(*self is V6)),
    {
        self.same(&IpAddr::wildcard(!self.is_ipv4()))
    }

    /// Whether the two addresses are equal: the same family and octets.
    pub fn same(&self, other: &IpAddr) -> (b: bool)
        ensures
            b == (*self == *other),
    {
        match (self, other) {
            (IpAddr::V4(a), IpAddr::V4(b)) => same_octets(a, b),
            (IpAddr::V6(a), IpAddr::V6(b)) => same_octets(a, b),
            _ => false,
        }
    }
}

/// The wildcard address of a family.
pub open spec fn wildcard(v6: bool) -> IpAddr {
    if v6 {
        IpAddr::V6([0, 0, 0, 0, 0, 0, 0, 0, 0, 0, 0, 0, 0, 0, 0, 0])
    } else {
        IpAddr::V4([0, 0, 0, 0])
    }
}

impl SocketAddr {
    /// The address `ip` with port `port`.
    pub fn new(ip: IpAddr, port: u16) -> (addr: SocketAddr)
        ensures
            addr == (SocketAddr { ip, port }),
    {
        SocketAddr { ip, port }
    }
}

/// The big-endian octets of a 16-bit number.
pub open spec fn be16(n: u16) -> Seq<u8> {
    seq![(n / 256) as u8, (n % 256) as u8]
}

/// The 16-bit number whose big-endian octets these are.
pub open spec fn from_be16(hi: u8, lo: u8) -> u16 {
    (hi * 256 + lo) as u16
}

/// The big-endian octets of `n`.
pub fn u16_to_be(n: u16) -> (octets: [u8; 2])
    ensures
        octets@ == be16(n),
{
    let octets: [u8; 2] = [(n / 256) as u8, (n % 256) as u8];
    assert(octets@ =~= be16(n));
    octets
}

/// The number whose big-endian octets are `octets`.
pub fn u16_from_be(octets: [u8; 2]) -> (n: u16)
    ensures
        n == from_be16(octets@[0], octets@[1]),
{
    octets[0] as u16 * 256 + octets[1] as u16
}

/// Writing a number in network order and reading it back gives the number, and
/// so does the other way round.
pub proof fn be16_round_trips(n: u16, hi: u8, lo: u8)
    ensures
        from_be16(be16(n)[0], be16(n)[1]) == n,
        be16(from_be16(hi, lo)) == seq![hi, lo],
{
    assert(be16(from_be16(hi, lo)) =~= seq![hi, lo]);
}

/// Network order puts the high octet first.
pub proof fn high_octet_comes_first(n: u16, hi: u8, lo: u8)
    ensures
        be16(n).len() == 2,
        be16(n)[0] * 256 + be16(n)[1] == n,
        from_be16(hi, lo) == hi * 256 + lo,
{
}

/// The wildcard is of the family asked for, and every octet of it is zero.
pub proof fn wildcard_is_all_zero(v6: bool)
    ensures
        wildcard(v6) is V6 <==> v6,
        wildcard(v6).octets().len() == (if v6 {
            16int
        } else {
            4int
        }),
        forall|i: int|
            0 <= i < wildcard(v6).octets().len() ==> #[trigger] wildcard(v6).octets()[i] == 0,
{
}

} // verus!
