//! IP addresses and networks as plain integers, and network membership.
use vstd::prelude::*;

verus! {

/// An IP address: the 32 bits of an IPv4 address or the 128 bits of an
/// IPv6 address, most significant bit first.
#[derive(Clone, Copy, Debug, PartialEq, Eq, Structural)]
pub enum IpAddrValue {
    V4(u32),
    V6(u128),
}

/// An IP network written as `address/prefix_len`; the address keeps the
/// host bits that were written.
#[derive(Clone, Copy, Debug, PartialEq, Eq, Structural)]
pub enum NetValue {
    V4 { addr: u32, prefix_len: u8 },
    V6 { addr: u128, prefix_len: u8 },
}

/// What `IpAddr::from_str` gives for a text: the address it denotes, or
/// `None` where the text is not an IP address.
pub uninterp spec fn spec_parse_ip_addr(s: Seq<char>) -> Option<IpAddrValue>;

/// What `ipnet::IpNet::from_str` gives for a text: the network it denotes,
/// or `None` where the text is not a network in `address/prefix_len` form.
pub uninterp spec fn spec_parse_ip_net(s: Seq<char>) -> Option<NetValue>;

/// Parses an IP address (IPv4 dotted quad or IPv6) with the standard
/// library's `IpAddr::from_str`.
/// Trusted: the result is the one that `spec_parse_ip_addr` names for the
/// text; which texts are addresses is not stated here.
#[verifier::external_body]
pub(crate) fn parse_ip_addr(s: &str) -> (r: Option<IpAddrValue>)
    ensures
        r == spec_parse_ip_addr(s@),
{
    match s.parse::<core::net::IpAddr>() {
        Ok(core::net::IpAddr::V4(a)) => Some(IpAddrValue::V4(u32::from(a))),
        Ok(core::net::IpAddr::V6(a)) => Some(IpAddrValue::V6(u128::from(a))),
        Err(_) => None,
    }
}

/// Parses an IP network with `ipnet::IpNet::from_str`.
/// Trusted: the result is the one that `spec_parse_ip_net` names for the
/// text, and (as `Ipv4Net::new` and `Ipv6Net::new` check) its prefix length
/// is at most 32 for IPv4 and at most 128 for IPv6. Which texts are
/// networks is not stated here.
#[verifier::external_body]
pub(crate) fn parse_ip_net(s: &str) -> (r: Option<NetValue>)
    ensures
        r == spec_parse_ip_net(s@),
        r matches Some(NetValue::V4 { prefix_len, .. }) ==> prefix_len <= 32,
        r matches Some(NetValue::V6 { prefix_len, .. }) ==> prefix_len <= 128,
{
    match s.parse::<ipnet::IpNet>() {
        Ok(ipnet::IpNet::V4(n)) => Some(
            NetValue::V4 { addr: u32::from(n.addr()), prefix_len: n.prefix_len() },
        ),
        Ok(ipnet::IpNet::V6(n)) => Some(
            NetValue::V6 { addr: u128::from(n.addr()), prefix_len: n.prefix_len() },
        ),
        Err(_) => None,
    }
}

/// The network mask of an IPv4 prefix: `prefix_len` one bits, then zeros.
pub open spec fn v4_netmask(prefix_len: u8) -> u32 {
    if prefix_len == 0 {
        0
    } else if prefix_len >= 32 {
        0xffff_ffff
    } else {
        0xffff_ffffu32 << ((32 - prefix_len) as u32)
    }
}

/// The host mask of an IPv4 prefix: `prefix_len` zero bits, then ones.
pub open spec fn v4_hostmask(prefix_len: u8) -> u32 {
    if prefix_len >= 32 {
        0
    } else {
        0xffff_ffffu32 >> (prefix_len as u32)
    }
}

/// The network mask of an IPv6 prefix.
pub open spec fn v6_netmask(prefix_len: u8) -> u128 {
    if prefix_len == 0 {
        0
    } else if prefix_len >= 128 {
        0xffff_ffff_ffff_ffff_ffff_ffff_ffff_ffff
    } else {
        0xffff_ffff_ffff_ffff_ffff_ffff_ffff_ffffu128 << ((128 - prefix_len) as u32)
    }
}

/// The host mask of an IPv6 prefix.
pub open spec fn v6_hostmask(prefix_len: u8) -> u128 {
    if prefix_len >= 128 {
        0
    } else {
        0xffff_ffff_ffff_ffff_ffff_ffff_ffff_ffffu128 >> (prefix_len as u32)
    }
}

/// Network membership as `ipnet::IpNet::contains(&IpAddr)` decides it: the
/// address lies between the network address (host bits cleared) and the
/// broadcast address (host bits set), and an IPv4 network never contains
/// an IPv6 address nor the other way round.
pub open spec fn spec_net_contains(net: NetValue, ip: IpAddrValue) -> bool {
    match (net, ip) {
        (NetValue::V4 { addr, prefix_len }, IpAddrValue::V4(x)) => {
            &&& addr & v4_netmask(prefix_len) <= x
            &&& x <= addr | v4_hostmask(prefix_len)
        },
        (NetValue::V6 { addr, prefix_len }, IpAddrValue::V6(x)) => {
            &&& addr & v6_netmask(prefix_len) <= x
            &&& x <= addr | v6_hostmask(prefix_len)
        },
        _ => false,
    }
}

/// An IPv4 network contains exactly the addresses whose first `prefix_len`
/// bits are those of the network's address.
pub proof fn lemma_v4_contains_iff_prefix_agrees(addr: u32, prefix_len: u8, x: u32)
    requires
        prefix_len <= 32,
    ensures
        spec_net_contains(NetValue::V4 { addr, prefix_len }, IpAddrValue::V4(x)) <==> (x
            & v4_netmask(prefix_len)) == (addr & v4_netmask(prefix_len)),
{
    if prefix_len == 0 {
        assert(0xffff_ffffu32 >> 0u32 == 0xffff_ffffu32) by (bit_vector);
        assert(addr & 0u32 == 0u32 && x & 0u32 == 0u32 && addr | 0xffff_ffffu32 == 0xffff_ffffu32)
            by (bit_vector);
    } else if prefix_len == 32 {
        assert(addr & 0xffff_ffffu32 == addr && x & 0xffff_ffffu32 == x && addr | 0u32 == addr)
            by (bit_vector);
    } else {
        let p: u32 = prefix_len as u32;
        assert(v4_netmask(prefix_len) == 0xffff_ffffu32 << ((32 - p) as u32));
        assert(v4_hostmask(prefix_len) == 0xffff_ffffu32 >> p);
        assert(((addr & (0xffff_ffffu32 << ((32 - p) as u32))) <= x && x <= (addr | (0xffff_ffffu32
            >> p))) <==> ((x & (0xffff_ffffu32 << ((32 - p) as u32))) == (addr & (0xffff_ffffu32
            << ((32 - p) as u32))))) by (bit_vector)
            requires
                1 <= p <= 31,
        ;
    }
}

/// An IPv6 network contains exactly the addresses whose first `prefix_len`
/// bits are those of the network's address.
pub proof fn lemma_v6_contains_iff_prefix_agrees(addr: u128, prefix_len: u8, x: u128)
    requires
        prefix_len <= 128,
    ensures
        spec_net_contains(NetValue::V6 { addr, prefix_len }, IpAddrValue::V6(x)) <==> (x
            & v6_netmask(prefix_len)) == (addr & v6_netmask(prefix_len)),
{
    if prefix_len == 0 {
        assert(0xffff_ffff_ffff_ffff_ffff_ffff_ffff_ffffu128 >> 0u32
            == 0xffff_ffff_ffff_ffff_ffff_ffff_ffff_ffffu128) by (bit_vector);
        assert(addr & 0u128 == 0u128 && x & 0u128 == 0u128 && addr
            | 0xffff_ffff_ffff_ffff_ffff_ffff_ffff_ffffu128 == 0xffff_ffff_ffff_ffff_ffff_ffff_ffff_ffffu128)
            by (bit_vector);
    } else if prefix_len == 128 {
        assert(addr & 0xffff_ffff_ffff_ffff_ffff_ffff_ffff_ffffu128 == addr && x
            & 0xffff_ffff_ffff_ffff_ffff_ffff_ffff_ffffu128 == x && addr | 0u128 == addr)
            by (bit_vector);
    } else {
        let p: u32 = prefix_len as u32;
        assert(v6_netmask(prefix_len) == 0xffff_ffff_ffff_ffff_ffff_ffff_ffff_ffffu128 << ((128 - p) as u32));
        assert(v6_hostmask(prefix_len) == 0xffff_ffff_ffff_ffff_ffff_ffff_ffff_ffffu128 >> p);
        assert(((addr & (0xffff_ffff_ffff_ffff_ffff_ffff_ffff_ffffu128 << ((128 - p) as u32)))
            <= x && x <= (addr | (0xffff_ffff_ffff_ffff_ffff_ffff_ffff_ffffu128 >> p))) <==> ((x
            & (0xffff_ffff_ffff_ffff_ffff_ffff_ffff_ffffu128 << ((128 - p) as u32))) == (addr
            & (0xffff_ffff_ffff_ffff_ffff_ffff_ffff_ffffu128 << ((128 - p) as u32)))))
            by (bit_vector)
            requires
                1 <= p <= 127,
        ;
    }
}

/// An IPv4 network never contains an IPv6 address, and an IPv6 network
/// never contains an IPv4 address.
pub proof fn lemma_families_never_mix(net: NetValue, ip: IpAddrValue)
    ensures
        (net is V4 && ip is V6) || (net is V6 && ip is V4) ==> !spec_net_contains(net, ip),
{
}

fn v4_netmask_of(prefix_len: u8) -> (m: u32)
    ensures
        m == v4_netmask(prefix_len),
{
    if prefix_len == 0 {
        0
    } else if prefix_len >= 32 {
        0xffff_ffff
    } else {
        0xffff_ffffu32 << (32 - prefix_len as u32)
    }
}

fn v4_hostmask_of(prefix_len: u8) -> (m: u32)
    ensures
        m == v4_hostmask(prefix_len),
{
    if prefix_len >= 32 {
        0
    } else {
        0xffff_ffffu32 >> (prefix_len as u32)
    }
}

fn v6_netmask_of(prefix_len: u8) -> (m: u128)
    ensures
        m == v6_netmask(prefix_len),
{
    if prefix_len == 0 {
        0
    } else if prefix_len >= 128 {
        0xffff_ffff_ffff_ffff_ffff_ffff_ffff_ffff
    } else {
        0xffff_ffff_ffff_ffff_ffff_ffff_ffff_ffffu128 << (128 - prefix_len as u32)
    }
}

fn v6_hostmask_of(prefix_len: u8) -> (m: u128)
    ensures
        m == v6_hostmask(prefix_len),
{
    if prefix_len >= 128 {
        0
    } else {
        0xffff_ffff_ffff_ffff_ffff_ffff_ffff_ffffu128 >> (prefix_len as u32)
    }
}

/// Whether the network `net` contains the address `ip`.
pub fn net_contains(net: NetValue, ip: IpAddrValue) -> (r: bool)
    ensures
        r == spec_net_contains(net, ip),
{
    match (net, ip) {
        (NetValue::V4 { addr, prefix_len }, IpAddrValue::V4(x)) => {
            let low = addr & v4_netmask_of(prefix_len);
            let high = addr | v4_hostmask_of(prefix_len);
            low <= x && x <= high
        },
        (NetValue::V6 { addr, prefix_len }, IpAddrValue::V6(x)) => {
            let low = addr & v6_netmask_of(prefix_len);
            let high = addr | v6_hostmask_of(prefix_len);
            low <= x && x <= high
        },
        _ => false,
    }
}

} // verus!
