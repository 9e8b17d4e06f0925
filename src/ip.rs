//! Classification of IP addresses: which ones are globally routable.

use vstd::prelude::*;

verus! {

/// An IP address, IPv4 as four octets or IPv6 as eight 16-bit segments.
#[derive(Clone, Copy, Debug, PartialEq, Eq)]
pub enum IpAddress {
    V4([u8; 4]),
    V6([u16; 8]),
}

// ---------------------------------------------------------------------------
// IPv4 ranges
// ---------------------------------------------------------------------------

/// `0.0.0.0/8`: "this network", which holds the unspecified address.
pub open spec fn v4_this_network(o: [u8; 4]) -> bool {
    o[0] == 0
}

/// `10.0.0.0/8`, `172.16.0.0/12` and `192.168.0.0/16`.
pub open spec fn v4_private(o: [u8; 4]) -> bool {
    o[0] == 10 || (o[0] == 172 && 16 <= o[1] <= 31) || (o[0] == 192 && o[1] == 168)
}

/// `100.64.0.0/10`: shared address space (carrier-grade NAT).
pub open spec fn v4_shared(o: [u8; 4]) -> bool {
    o[0] == 100 && 64 <= o[1] <= 127
}

/// `127.0.0.0/8`.
pub open spec fn v4_loopback(o: [u8; 4]) -> bool {
    o[0] == 127
}

/// `169.254.0.0/16`.
pub open spec fn v4_link_local(o: [u8; 4]) -> bool {
    o[0] == 169 && o[1] == 254
}

/// `192.0.0.0/24`, IETF protocol assignments, but for `.9` and `.10`, which
/// are globally reachable anycast addresses.
pub open spec fn v4_protocol_assignment(o: [u8; 4]) -> bool {
    o[0] == 192 && o[1] == 0 && o[2] == 0 && o[3] != 9 && o[3] != 10
}

/// `192.0.2.0/24`, `198.51.100.0/24` and `203.0.113.0/24`.
pub open spec fn v4_documentation(o: [u8; 4]) -> bool {
    (o[0] == 192 && o[1] == 0 && o[2] == 2) || (o[0] == 198 && o[1] == 51 && o[2] == 100)
        || (o[0] == 203 && o[1] == 0 && o[2] == 113)
}

/// `198.18.0.0/15`.
pub open spec fn v4_benchmarking(o: [u8; 4]) -> bool {
    o[0] == 198 && (o[1] == 18 || o[1] == 19)
}

/// `224.0.0.0/4`.
pub open spec fn v4_multicast(o: [u8; 4]) -> bool {
    224 <= o[0] <= 239
}

/// `240.0.0.0/4`, reserved, which holds the broadcast address `255.255.255.255`.
pub open spec fn v4_reserved(o: [u8; 4]) -> bool {
    o[0] >= 240
}

/// An IPv4 address is globally routable when it lies in none of the
/// special-purpose ranges.
pub open spec fn v4_is_global(o: [u8; 4]) -> bool {
    !(v4_this_network(o) || v4_private(o) || v4_shared(o) || v4_loopback(o)
        || v4_link_local(o) || v4_protocol_assignment(o) || v4_documentation(o)
        || v4_benchmarking(o) || v4_multicast(o) || v4_reserved(o))
}

// ---------------------------------------------------------------------------
// IPv6 ranges
// ---------------------------------------------------------------------------

/// `::`.
pub open spec fn v6_unspecified(s: [u16; 8]) -> bool {
    s[0] == 0 && s[1] == 0 && s[2] == 0 && s[3] == 0 && s[4] == 0 && s[5] == 0 && s[6] == 0
        && s[7] == 0
}

/// `::1`.
pub open spec fn v6_loopback(s: [u16; 8]) -> bool {
    s[0] == 0 && s[1] == 0 && s[2] == 0 && s[3] == 0 && s[4] == 0 && s[5] == 0 && s[6] == 0
        && s[7] == 1
}

/// `::ffff:0:0/96`: IPv4-mapped addresses.
pub open spec fn v6_ipv4_mapped(s: [u16; 8]) -> bool {
    s[0] == 0 && s[1] == 0 && s[2] == 0 && s[3] == 0 && s[4] == 0 && s[5] == 0xffff
}

/// `64:ff9b:1::/48`: local-use IPv4/IPv6 translation.
pub open spec fn v6_local_translation(s: [u16; 8]) -> bool {
    s[0] == 0x64 && s[1] == 0xff9b && s[2] == 1
}

/// `100::/64`: discard-only block.
pub open spec fn v6_discard(s: [u16; 8]) -> bool {
    s[0] == 0x100 && s[1] == 0 && s[2] == 0 && s[3] == 0
}

/// The parts of `2001::/23` that are globally reachable: `2001:1::1`,
/// `2001:1::2`, `2001:3::/32`, `2001:4:112::/48`, `2001:20::/28` (ORCHIDv2)
/// and `2001:30::/28` (DRIP).
pub open spec fn v6_reachable_assignment(s: [u16; 8]) -> bool {
    (s[1] == 1 && s[2] == 0 && s[3] == 0 && s[4] == 0 && s[5] == 0 && s[6] == 0 && (s[7] == 1
        || s[7] == 2)) || s[1] == 3 || (s[1] == 4 && s[2] == 0x112) || (0x20 <= s[1] <= 0x3f)
}

/// `2001::/23`, IETF protocol assignments, but for the reachable parts.
pub open spec fn v6_protocol_assignment(s: [u16; 8]) -> bool {
    s[0] == 0x2001 && s[1] < 0x200 && !v6_reachable_assignment(s)
}

/// `2001:db8::/32` and `3fff::/20`.
pub open spec fn v6_documentation(s: [u16; 8]) -> bool {
    (s[0] == 0x2001 && s[1] == 0xdb8) || (0x3ff0 <= s[0] <= 0x3fff)
}

/// `fc00::/7`.
pub open spec fn v6_unique_local(s: [u16; 8]) -> bool {
    0xfc00 <= s[0] <= 0xfdff
}

/// `fe80::/10`.
pub open spec fn v6_link_local(s: [u16; 8]) -> bool {
    0xfe80 <= s[0] <= 0xfebf
}

/// `ff00::/8`.
pub open spec fn v6_multicast(s: [u16; 8]) -> bool {
    s[0] >= 0xff00
}

/// An IPv6 address is globally routable when it lies in none of the
/// special-purpose ranges.
pub open spec fn v6_is_global(s: [u16; 8]) -> bool {
    !(v6_unspecified(s) || v6_loopback(s) || v6_ipv4_mapped(s) || v6_local_translation(s)
        || v6_discard(s) || v6_protocol_assignment(s) || v6_documentation(s)
        || v6_unique_local(s) || v6_link_local(s) || v6_multicast(s))
}

/// Whether an address of either family is globally routable.
pub open spec fn addr_is_global(a: IpAddress) -> bool {
    match a {
        IpAddress::V4(o) => v4_is_global(o),
        IpAddress::V6(s) => v6_is_global(s),
    }
}

/// Decides whether an IPv4 address is globally routable.
pub fn ipv4_is_global(o: [u8; 4]) -> (r: bool)
    ensures
        r == v4_is_global(o),
{
    let (a, b, c, d) = (o[0], o[1], o[2], o[3]);
    let this_network = a == 0;
    let private = a == 10 || (a == 172 && 16 <= b && b <= 31) || (a == 192 && b == 168);
    let shared = a == 100 && 64 <= b && b <= 127;
    let loopback = a == 127;
    let link_local = a == 169 && b == 254;
    let assignment = a == 192 && b == 0 && c == 0 && d != 9 && d != 10;
    let documentation = (a == 192 && b == 0 && c == 2) || (a == 198 && b == 51 && c == 100) || (
    a == 203 && b == 0 && c == 113);
    let benchmarking = a == 198 && (b == 18 || b == 19);
    let multicast = 224 <= a && a <= 239;
    let reserved = a >= 240;
    !(this_network || private || shared || loopback || link_local || assignment || documentation
        || benchmarking || multicast || reserved)
}

/// Decides whether an IPv6 address is globally routable.
pub fn ipv6_is_global(s: [u16; 8]) -> (r: bool)
    ensures
        r == v6_is_global(s),
{
    let upper_zero = s[0] == 0 && s[1] == 0 && s[2] == 0 && s[3] == 0 && s[4] == 0;
    let unspecified = upper_zero && s[5] == 0 && s[6] == 0 && s[7] == 0;
    let loopback = upper_zero && s[5] == 0 && s[6] == 0 && s[7] == 1;
    let ipv4_mapped = upper_zero && s[5] == 0xffff;
    let local_translation = s[0] == 0x64 && s[1] == 0xff9b && s[2] == 1;
    let discard = s[0] == 0x100 && s[1] == 0 && s[2] == 0 && s[3] == 0;
    let anycast = s[1] == 1 && s[2] == 0 && s[3] == 0 && s[4] == 0 && s[5] == 0 && s[6] == 0 && (
    s[7] == 1 || s[7] == 2);
    let reachable = anycast || s[1] == 3 || (s[1] == 4 && s[2] == 0x112) || (0x20 <= s[1] && s[1]
        <= 0x3f);
    let assignment = s[0] == 0x2001 && s[1] < 0x200 && !reachable;
    let documentation = (s[0] == 0x2001 && s[1] == 0xdb8) || (0x3ff0 <= s[0] && s[0] <= 0x3fff);
    let unique_local = 0xfc00 <= s[0] && s[0] <= 0xfdff;
    let link_local = 0xfe80 <= s[0] && s[0] <= 0xfebf;
    let multicast = s[0] >= 0xff00;
    !(unspecified || loopback || ipv4_mapped || local_translation || discard || assignment
        || documentation || unique_local || link_local || multicast)
}

impl IpAddress {
    /// Whether this address is globally routable (public unicast).
    pub fn is_global(&self) -> (r: bool)
        ensures
            r == addr_is_global(*self),
    {
        match self {
            IpAddress::V4(o) => ipv4_is_global(*o),
            IpAddress::V6(s) => ipv6_is_global(*s),
        }
    }
}

} // verus!
