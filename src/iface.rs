//! Network interfaces: flags, hardware types, and the address table that
//! the interface listing returns.

use vstd::prelude::*;
use crate::bytes::{le16_at, le32_at, read_u16_ne, read_u32_ne, zeros};

verus! {

/// Interface flag (`IFF_*`).
#[derive(Debug, Clone, Copy, PartialEq, Eq)]
pub enum IfFlag {
    /// 1: administratively up; independent of `Running`
    Up,
    /// 2
    Broadcast,
    /// 4
    Debug,
    /// 8
    Loopback,
    /// 16
    PointToPoint,
    /// 32: obsolete trailer encapsulation
    NoTrailer,
    /// 64: link operational; independent of `Up`
    Running,
    /// 128
    NoARP,
    /// 0x100: receives all packets
    Promisc,
    /// 0x200: receives all multicast packets
    AllMulti,
    /// 0x400
    Master,
    /// 0x800
    Slave,
    /// 0x1000
    Multicast,
    /// 0x2000: port selection
    PortSel,
    /// 0x4000: automatic media selection
    AutoMedia,
    /// 0x8000
    Dynamic,
}

impl IfFlag {
    pub open spec fn spec_to_bits(&self) -> u32 {
        match *self {
            IfFlag::Up => 1,
            IfFlag::Broadcast => 2,
            IfFlag::Debug => 4,
            IfFlag::Loopback => 8,
            IfFlag::PointToPoint => 16,
            IfFlag::NoTrailer => 32,
            IfFlag::Running => 64,
            IfFlag::NoARP => 128,
            IfFlag::Promisc => 0x100,
            IfFlag::AllMulti => 0x200,
            IfFlag::Master => 0x400,
            IfFlag::Slave => 0x800,
            IfFlag::Multicast => 0x1000,
            IfFlag::PortSel => 0x2000,
            IfFlag::AutoMedia => 0x4000,
            IfFlag::Dynamic => 0x8000,
        }
    }

    /// The raw value.
    #[verifier::when_used_as_spec(spec_to_bits)]
    pub fn to_bits(&self) -> (r: u32)
        ensures
            r == self.spec_to_bits(),
    {
        match *self {
            IfFlag::Up => 1,
            IfFlag::Broadcast => 2,
            IfFlag::Debug => 4,
            IfFlag::Loopback => 8,
            IfFlag::PointToPoint => 16,
            IfFlag::NoTrailer => 32,
            IfFlag::Running => 64,
            IfFlag::NoARP => 128,
            IfFlag::Promisc => 0x100,
            IfFlag::AllMulti => 0x200,
            IfFlag::Master => 0x400,
            IfFlag::Slave => 0x800,
            IfFlag::Multicast => 0x1000,
            IfFlag::PortSel => 0x2000,
            IfFlag::AutoMedia => 0x4000,
            IfFlag::Dynamic => 0x8000,
        }
    }
}

/// A set of interface flags.
#[derive(Debug, Clone, Copy, PartialEq, Eq, Default)]
pub struct IfFlags(pub u32);

impl IfFlags {
    /// Whether `f` is set.
    pub fn contains(&self, f: IfFlag) -> (r: bool)
        ensures
            r == (self.0 & f.spec_to_bits() != 0),
    {
        self.0 & f.to_bits() != 0
    }

    /// The raw value.
    pub fn to_bits(&self) -> (r: u32)
        ensures
            r == self.0,
    {
        self.0
    }
}

/// Interface statistics (`struct rtnl_link_stats`).
#[derive(Default, Clone, Copy, Debug, Eq, PartialEq, Hash)]
pub struct RtnlLinkStats {
    pub rx_packets: u32,
    pub tx_packets: u32,
    pub rx_bytes: u32,
    pub tx_bytes: u32,
    pub rx_errors: u32,
    pub tx_errors: u32,
    pub rx_dropped: u32,
    pub tx_dropped: u32,
    pub multicast: u32,
    pub collisions: u32,
    pub rx_length_errors: u32,
    pub rx_over_errors: u32,
    pub rx_crc_errors: u32,
    pub rx_frame_errors: u32,
    pub rx_fifo_errors: u32,
    pub rx_missed_errors: u32,
    pub tx_aborted_errors: u32,
    pub tx_carrier_errors: u32,
    pub tx_fifo_errors: u32,
    pub tx_heartbeat_errors: u32,
    pub tx_window_errors: u32,
    pub rx_compressed: u32,
    pub tx_compressed: u32,
    pub rx_nohandler: u32,
}

/// Hardware type (`ARPHRD_*`).
#[derive(Clone, Copy, Debug, Eq, PartialEq, Hash)]
pub enum HwType {
    /// 1
    Ether,
    /// 0x200: point-to-point protocol
    PPP,
    /// 0x300
    Tunnel,
    /// 0x301
    Tunnel6,
    /// 0x304
    Loopback,
    /// 0x321: Wi-Fi
    IEEE80211,
}

impl HwType {
    pub open spec fn spec_to_bits(&self) -> u16 {
        match *self {
            HwType::Ether => 1,
            HwType::PPP => 0x200,
            HwType::Tunnel => 0x300,
            HwType::Tunnel6 => 0x301,
            HwType::Loopback => 0x304,
            HwType::IEEE80211 => 0x321,
        }
    }

    /// The raw value.
    #[verifier::when_used_as_spec(spec_to_bits)]
    pub fn to_bits(&self) -> (r: u16)
        ensures
            r == self.spec_to_bits(),
    {
        match *self {
            HwType::Ether => 1,
            HwType::PPP => 0x200,
            HwType::Tunnel => 0x300,
            HwType::Tunnel6 => 0x301,
            HwType::Loopback => 0x304,
            HwType::IEEE80211 => 0x321,
        }
    }

    pub open spec fn spec_from_bits(v: u16) -> Option<HwType> {
        if v == 1 {
            Some(HwType::Ether)
        } else if v == 0x200 {
            Some(HwType::PPP)
        } else if v == 0x300 {
            Some(HwType::Tunnel)
        } else if v == 0x301 {
            Some(HwType::Tunnel6)
        } else if v == 0x304 {
            Some(HwType::Loopback)
        } else if v == 0x321 {
            Some(HwType::IEEE80211)
        } else {
            None
        }
    }

    /// The value named by `v`, if there is one.
    #[verifier::when_used_as_spec(spec_from_bits)]
    pub fn from_bits(v: u16) -> (r: Option<HwType>)
        ensures
            r == Self::spec_from_bits(v),
    {
        match v {
            1 => Some(HwType::Ether),
            0x200 => Some(HwType::PPP),
            0x300 => Some(HwType::Tunnel),
            0x301 => Some(HwType::Tunnel6),
            0x304 => Some(HwType::Loopback),
            0x321 => Some(HwType::IEEE80211),
            _ => None,
        }
    }
}

/// One entry of the interface address table.
#[derive(Debug)]
pub enum IfAddr {
    Inet { name: String, addr: [u8; 4], mask: [u8; 4], flags: IfFlags },
    Inet6 { name: String, addr: [u8; 16], mask: [u8; 16], flags: IfFlags },
    Packet { name: String, ifindex: i32, addr: [u8; 6], flags: IfFlags, stats: RtnlLinkStats },
}

/// The interface address table.
#[derive(Debug)]
pub struct IfAddrTbl(pub Vec<IfAddr>);

/// An IPv4 entry of an interface that is up, running, and not loopback.
pub open spec fn is_available_ipv4(a: IfAddr) -> bool {
    match a {
        IfAddr::Inet { flags, .. } => flags.0 & 0x1 != 0 && flags.0 & 0x40 != 0 && flags.0 & 0x8
            == 0,
        _ => false,
    }
}

/// The name of an entry.
pub open spec fn ifaddr_name(a: IfAddr) -> Seq<char> {
    match a {
        IfAddr::Inet { name, .. } => name@,
        IfAddr::Inet6 { name, .. } => name@,
        IfAddr::Packet { name, .. } => name@,
    }
}

/// Names of the available IPv4 entries, in table order.
pub open spec fn available_ipv4_names(tbl: Seq<IfAddr>) -> Seq<Seq<char>>
    decreases tbl.len(),
{
    if tbl.len() == 0 {
        Seq::empty()
    } else {
        let rest = available_ipv4_names(tbl.drop_last());
        if is_available_ipv4(tbl.last()) {
            rest.push(ifaddr_name(tbl.last()))
        } else {
            rest
        }
    }
}

/// Names of the interfaces with an IPv4 address that are up, running and
/// not loopback, in table order.
pub fn get_available_ipv4_ifname(tbl: &IfAddrTbl) -> (r: Vec<String>)
    ensures
        r@.map_values(|s: String| s@) == available_ipv4_names(tbl.0@),
{
    let mut out: Vec<String> = Vec::new();
    let mut i: usize = 0;
    while i < tbl.0.len()
        invariant
            i <= tbl.0@.len(),
            out@.map_values(|s: String| s@) == available_ipv4_names(tbl.0@.take(i as int)),
        decreases tbl.0@.len() - i,
    {
        assert(tbl.0@.take(i + 1).drop_last() =~= tbl.0@.take(i as int));
        assert(tbl.0@.take(i + 1).last() == tbl.0@[i as int]);
        let ghost before = out@;
        match &tbl.0[i] {
            IfAddr::Inet { name, flags, .. } => {
                if flags.contains(IfFlag::Up) && flags.contains(IfFlag::Running) && !flags.contains(
                    IfFlag::Loopback,
                ) {
                    out.push(name.clone());
                    assert(out@.map_values(|s: String| s@) =~= before.map_values(|s: String| s@).push(name@));
                }
            },
            _ => {},
        }
        i = i + 1;
    }
    assert(tbl.0@.take(i as int) =~= tbl.0@);
    out
}

/// The IPv4 address in the bytes of a `sockaddr_in`.
pub open spec fn inet_octets(s: Seq<u8>) -> Option<Seq<u8>> {
    if s.len() == 16 && le16_at(s, 0) == 2 {
        Some(s.subrange(4, 8))
    } else {
        None
    }
}

/// The IPv6 address in the bytes of a `sockaddr_in6`.
pub open spec fn inet6_octets(s: Seq<u8>) -> Option<Seq<u8>> {
    if s.len() == 28 && le16_at(s, 0) == 10 {
        Some(s.subrange(8, 24))
    } else {
        None
    }
}

/// The interface index and MAC address in the bytes of a `sockaddr_ll`.
pub open spec fn packet_parts(s: Seq<u8>) -> Option<(i32, Seq<u8>)> {
    if s.len() == 20 && le16_at(s, 0) == 17 {
        Some((le32_at(s, 4) as i32, s.subrange(12, 18)))
    } else {
        None
    }
}

/// A netmask, or all zeros when there is none of the family.
pub open spec fn mask_or_zero(m: Option<Seq<u8>>, n: int) -> Seq<u8> {
    match m {
        Some(x) => x,
        None => zeros(n),
    }
}

/// Copies `s[at .. at + N]`.
fn copy_array<const N: usize>(s: &[u8], at: usize) -> (r: [u8; N])
    requires
        at + N <= s@.len(),
    ensures
        r@ == s@.subrange(at as int, at + N),
{
    let mut r = [0u8; N];
    let mut i: usize = 0;
    let end = s.len();
    while i < N
        invariant
            i <= N,
            end == s@.len(),
            at + N <= s@.len(),
            forall|j: int| 0 <= j < i ==> r@[j] == s@[at + j],
        decreases N - i,
    {
        r[i] = s[at + i];
        i = i + 1;
    }
    assert(r@ =~= s@.subrange(at as int, at + N));
    r
}

/// The table entry for one interface address record: `addr` and `mask`
/// are the bytes of its address and netmask structures, `stats` its link
/// statistics if it has any. IPv4 and IPv6 records give their address and
/// netmask (zeros if the netmask is missing); a link-layer record with
/// statistics gives its index and MAC address; anything else gives `None`.
pub fn ifaddr_entry(
    name: String,
    flags: IfFlags,
    addr: &[u8],
    mask: &[u8],
    stats: Option<RtnlLinkStats>,
) -> (r: Option<IfAddr>)
    ensures
        match r {
            Some(IfAddr::Inet { name: n, addr: a, mask: m, flags: f }) => n@ == name@ && f == flags
                && inet_octets(addr@) == Some(a@) && m@ == mask_or_zero(inet_octets(mask@), 4),
            Some(IfAddr::Inet6 { name: n, addr: a, mask: m, flags: f }) => n@ == name@ && f
                == flags && inet_octets(addr@) is None && inet6_octets(addr@) == Some(a@) && m@
                == mask_or_zero(inet6_octets(mask@), 16),
            Some(IfAddr::Packet { name: n, ifindex, addr: a, flags: f, stats: st }) => n@ == name@
                && f == flags && inet_octets(addr@) is None && inet6_octets(addr@) is None
                && packet_parts(addr@) == Some((ifindex, a@)) && stats == Some(st),
            None => inet_octets(addr@) is None && inet6_octets(addr@) is None && (packet_parts(
                addr@,
            ) is None || stats is None),
        },
{
    let tag = if addr.len() >= 2 {
        read_u16_ne(addr, 0)
    } else {
        0
    };
    let mask_tag = if mask.len() >= 2 {
        read_u16_ne(mask, 0)
    } else {
        0
    };
    if addr.len() == 16 && tag == 2 {
        let a: [u8; 4] = copy_array(addr, 4);
        let m: [u8; 4] = if mask.len() == 16 && mask_tag == 2 {
            copy_array(mask, 4)
        } else {
            [0u8; 4]
        };
        assert(m@ =~= mask_or_zero(inet_octets(mask@), 4));
        Some(IfAddr::Inet { name, addr: a, mask: m, flags })
    } else if addr.len() == 28 && tag == 10 {
        let a: [u8; 16] = copy_array(addr, 8);
        let m: [u8; 16] = if mask.len() == 28 && mask_tag == 10 {
            copy_array(mask, 8)
        } else {
            [0u8; 16]
        };
        assert(m@ =~= mask_or_zero(inet6_octets(mask@), 16));
        Some(IfAddr::Inet6 { name, addr: a, mask: m, flags })
    } else if addr.len() == 20 && tag == 17 {
        match stats {
            Some(st) => {
                let ifindex = read_u32_ne(addr, 4) as i32;
                let a: [u8; 6] = copy_array(addr, 12);
                Some(IfAddr::Packet { name, ifindex, addr: a, flags, stats: st })
            },
            None => None,
        }
    } else {
        None
    }
}

} // verus!
