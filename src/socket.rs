//! Socket addresses laid out byte for byte as the kernel's `sockaddr_*`
//! structures, socket parameters, and the decisions of the retrying
//! send/receive loops.

use vstd::prelude::*;
use crate::be::{U16Be, U32Be};
use crate::bytes::{le16, le32, le16_at, le32_at, lemma_le16_at, lemma_le16_of_at, lemma_le32_at, lemma_le32_of_at, lemma_u32_i32, push_bytes, push_u16_ne, push_u32_ne, read_u16_ne, read_u32_ne};
use crate::errno::PosixError;
use crate::ether::EthTypeSpec;

verus! {

////////////////////////////////////////////////////////////////////////////////
//// Address structures

/// Address family tag (`sa_family_t`), in native order.
#[derive(Default, Clone, Copy, Debug, Eq, PartialEq, Hash)]
pub enum SaFamily {
    /// `AF_UNSPEC`, 0
    #[default]
    UnSpec,
    /// `AF_LOCAL` / `AF_UNIX`, 1
    Local,
    /// `AF_INET`, 2
    Inet,
    /// `AF_INET6`, 10
    Inet6,
    /// `AF_NETLINK`, 16
    Netlink,
    /// `AF_PACKET`, 17: raw packets at the link layer.
    Packet,
}

/// Packet type of a link-layer address.
#[derive(Default, Clone, Copy, Debug, Eq, PartialEq, Hash)]
pub enum PktType {
    /// 0: to us.
    #[default]
    Host,
    /// 1: to all.
    Broadcast,
    /// 2: to a group.
    Multicast,
    /// 3: to someone else.
    OtherHost,
    /// 4: outgoing.
    Outgoing,
    /// 5: looped back.
    Loopback,
    /// 6: to user space.
    User,
    /// 7: to kernel space.
    Kernel,
}

/// A socket address of one of the supported families.
#[derive(Debug, Clone, Copy, PartialEq, Eq)]
pub enum SockAddr {
    Inet(SockAddrIn),
    Inet6(SockAddrIn6),
    Unix(SockAddrUn),
    Packet(SockAddrLL),
    Netlink(SockAddrNL),
}

/// `struct sockaddr_in`, 16 bytes.
#[derive(Default, Clone, Copy, Debug, Eq, PartialEq, Hash)]
pub struct SockAddrIn {
    pub family: SaFamily,
    pub port: U16Be,
    pub addr: InAddr,
    pub padding: [u8; 8],
}

/// An IPv4 address in network order.
#[derive(Default, Clone, Copy, Debug, Eq, PartialEq, Hash)]
pub struct InAddr(pub U32Be);

/// `struct sockaddr_in6`, 28 bytes.
#[derive(Default, Clone, Copy, Debug, Eq, PartialEq, Hash)]
pub struct SockAddrIn6 {
    pub family: SaFamily,
    pub port: U16Be,
    pub flowinfo: U32Be,
    pub addr: InAddr6,
    pub scope_id: u32,
}

/// An IPv6 address in network order.
#[derive(Default, Clone, Copy, Debug, Eq, PartialEq, Hash)]
pub struct InAddr6(pub [u8; 16]);

/// `struct sockaddr_un`, 110 bytes.
#[derive(Clone, Copy, Debug, Eq, PartialEq, Hash)]
pub struct SockAddrUn {
    pub family: SaFamily,
    pub path: [u8; 108],
}

/// `struct sockaddr_ll`, 20 bytes.
#[derive(Clone, Copy, Debug, Eq, PartialEq, Hash)]
pub struct SockAddrLL {
    pub family: SaFamily,
    /// Ethernet protocol, network order.
    pub protocol: U16Be,
    /// Interface index, native order.
    pub ifindex: i32,
    /// ARP hardware type, network order.
    pub hatype: U16Be,
    pub pkttype: PktType,
    /// Length of the hardware address (6 for a MAC).
    pub halen: u8,
    /// Hardware address.
    pub addr: PhyAddr,
}

/// `struct sockaddr_nl`, 12 bytes.
#[derive(Debug, Clone, Copy, Default, PartialEq, Eq, Hash)]
pub struct SockAddrNL {
    pub family: SaNlFamily,
    pub padding: u16,
    /// Port id; 0 is the kernel.
    pub portid: i32,
    /// Multicast groups mask.
    pub groups: u32,
}

/// Family of a netlink address.
#[derive(Debug, Clone, Copy, Default, PartialEq, Eq, Hash)]
pub enum SaNlFamily {
    /// `AF_NETLINK`, 16
    #[default]
    NetlinkRoute,
}

/// Physical-layer address, 8 bytes.
#[derive(Debug, Clone, Copy, PartialEq, Eq, Hash)]
pub struct PhyAddr(pub [u8; 8]);

impl SaFamily {
    pub open spec fn spec_to_bits(&self) -> u16 {
        match *self {
            SaFamily::UnSpec => 0,
            SaFamily::Local => 1,
            SaFamily::Inet => 2,
            SaFamily::Inet6 => 10,
            SaFamily::Netlink => 16,
            SaFamily::Packet => 17,
        }
    }

    pub open spec fn spec_from_bits(v: u16) -> Option<SaFamily> {
        if v == 0 {
            Some(SaFamily::UnSpec)
        } else if v == 1 {
            Some(SaFamily::Local)
        } else if v == 2 {
            Some(SaFamily::Inet)
        } else if v == 10 {
            Some(SaFamily::Inet6)
        } else if v == 16 {
            Some(SaFamily::Netlink)
        } else if v == 17 {
            Some(SaFamily::Packet)
        } else {
            None
        }
    }

    /// The family's code.
    #[verifier::when_used_as_spec(spec_to_bits)]
    pub fn to_bits(&self) -> (r: u16)
        ensures
            r == self.spec_to_bits(),
    {
        match *self {
            SaFamily::UnSpec => 0,
            SaFamily::Local => 1,
            SaFamily::Inet => 2,
            SaFamily::Inet6 => 10,
            SaFamily::Netlink => 16,
            SaFamily::Packet => 17,
        }
    }

    /// The family with code `v`, if it is one of these.
    #[verifier::when_used_as_spec(spec_from_bits)]
    pub fn from_bits(v: u16) -> (r: Option<SaFamily>)
        ensures
            r == Self::spec_from_bits(v),
    {
        match v {
            0 => Some(SaFamily::UnSpec),
            1 => Some(SaFamily::Local),
            2 => Some(SaFamily::Inet),
            10 => Some(SaFamily::Inet6),
            16 => Some(SaFamily::Netlink),
            17 => Some(SaFamily::Packet),
            _ => None,
        }
    }
}

impl PktType {
    pub open spec fn spec_to_bits(&self) -> u8 {
        match *self {
            PktType::Host => 0,
            PktType::Broadcast => 1,
            PktType::Multicast => 2,
            PktType::OtherHost => 3,
            PktType::Outgoing => 4,
            PktType::Loopback => 5,
            PktType::User => 6,
            PktType::Kernel => 7,
        }
    }

    pub open spec fn spec_from_bits(v: u8) -> Option<PktType> {
        if v == 0 {
            Some(PktType::Host)
        } else if v == 1 {
            Some(PktType::Broadcast)
        } else if v == 2 {
            Some(PktType::Multicast)
        } else if v == 3 {
            Some(PktType::OtherHost)
        } else if v == 4 {
            Some(PktType::Outgoing)
        } else if v == 5 {
            Some(PktType::Loopback)
        } else if v == 6 {
            Some(PktType::User)
        } else if v == 7 {
            Some(PktType::Kernel)
        } else {
            None
        }
    }

    /// The packet type's code.
    #[verifier::when_used_as_spec(spec_to_bits)]
    pub fn to_bits(&self) -> (r: u8)
        ensures
            r == self.spec_to_bits(),
    {
        match *self {
            PktType::Host => 0,
            PktType::Broadcast => 1,
            PktType::Multicast => 2,
            PktType::OtherHost => 3,
            PktType::Outgoing => 4,
            PktType::Loopback => 5,
            PktType::User => 6,
            PktType::Kernel => 7,
        }
    }

    /// The packet type with code `v`, if there is one.
    #[verifier::when_used_as_spec(spec_from_bits)]
    pub fn from_bits(v: u8) -> (r: Option<PktType>)
        ensures
            r == Self::spec_from_bits(v),
    {
        match v {
            0 => Some(PktType::Host),
            1 => Some(PktType::Broadcast),
            2 => Some(PktType::Multicast),
            3 => Some(PktType::OtherHost),
            4 => Some(PktType::Outgoing),
            5 => Some(PktType::Loopback),
            6 => Some(PktType::User),
            7 => Some(PktType::Kernel),
            _ => None,
        }
    }
}

////////////////////////////////////////////////////////////////////////////////
//// Layout

/// Size in bytes of each address structure.
pub open spec fn sockaddr_len(v: SockAddr) -> nat {
    match v {
        SockAddr::Inet(_) => 16,
        SockAddr::Inet6(_) => 28,
        SockAddr::Unix(_) => 110,
        SockAddr::Packet(_) => 20,
        SockAddr::Netlink(_) => 12,
    }
}

/// The kernel's byte image of an address: the family tag in native order,
/// then the fields in declaration order, ports and IPv4 addresses in
/// network order.
pub open spec fn sockaddr_bytes(v: SockAddr) -> Seq<u8> {
    match v {
        SockAddr::Inet(a) => le16(2) + a.port@ + a.addr.0@ + a.padding@,
        SockAddr::Inet6(a) => le16(10) + a.port@ + a.flowinfo@ + a.addr.0@ + le32(a.scope_id),
        SockAddr::Unix(a) => le16(1) + a.path@,
        SockAddr::Packet(a) => le16(17) + a.protocol@ + le32(a.ifindex as u32) + a.hatype@ + seq![
            a.pkttype.spec_to_bits(),
            a.halen,
        ] + a.addr.0@,
        SockAddr::Netlink(a) => le16(16) + le16(a.padding) + le32(a.portid as u32) + le32(
            a.groups,
        ),
    }
}

/// The first `len` bytes of `s` can be read as an address: the tag names
/// a supported family and `len` is exactly that family's size; a
/// link-layer address must also hold a known packet type.
pub open spec fn raw_parts_ok(s: Seq<u8>, len: u32) -> bool {
    2 <= len <= s.len() && match SaFamily::spec_from_bits(le16_at(s, 0)) {
        Some(SaFamily::Inet) => len == 16,
        Some(SaFamily::Inet6) => len == 28,
        Some(SaFamily::Local) => len == 110,
        Some(SaFamily::Packet) => len == 20 && PktType::spec_from_bits(s[10]) is Some,
        Some(SaFamily::Netlink) => len == 12,
        _ => false,
    }
}

impl SockAddr {
    /// Each variant carries its own family tag.
    pub open spec fn wf(&self) -> bool {
        match *self {
            SockAddr::Inet(a) => a.family == SaFamily::Inet,
            SockAddr::Inet6(a) => a.family == SaFamily::Inet6,
            SockAddr::Unix(a) => a.family == SaFamily::Local,
            SockAddr::Packet(a) => a.family == SaFamily::Packet,
            SockAddr::Netlink(_) => true,
        }
    }

    /// Size of the address structure, for the length argument of a system
    /// call.
    pub fn address_len(&self) -> (r: u32)
        ensures
            r == sockaddr_len(*self),
    {
        match self {
            SockAddr::Inet(..) => 16,
            SockAddr::Inet6(..) => 28,
            SockAddr::Unix(..) => 110,
            SockAddr::Packet(..) => 20,
            SockAddr::Netlink(..) => 12,
        }
    }

    /// The address as the kernel lays it out in memory.
    pub fn address(&self) -> (r: Vec<u8>)
        ensures
            r@ == sockaddr_bytes(*self),
            r@.len() == sockaddr_len(*self),
    {
        let mut out: Vec<u8> = Vec::new();
        match self {
            SockAddr::Inet(a) => {
                push_u16_ne(&mut out, 2);
                push_bytes(&mut out, a.port.0.as_slice());
                push_bytes(&mut out, a.addr.0.0.as_slice());
                push_bytes(&mut out, a.padding.as_slice());
            },
            SockAddr::Inet6(a) => {
                push_u16_ne(&mut out, 10);
                push_bytes(&mut out, a.port.0.as_slice());
                push_bytes(&mut out, a.flowinfo.0.as_slice());
                push_bytes(&mut out, a.addr.0.as_slice());
                push_u32_ne(&mut out, a.scope_id);
            },
            SockAddr::Unix(a) => {
                push_u16_ne(&mut out, 1);
                push_bytes(&mut out, a.path.as_slice());
            },
            SockAddr::Packet(a) => {
                push_u16_ne(&mut out, 17);
                push_bytes(&mut out, a.protocol.0.as_slice());
                push_u32_ne(&mut out, a.ifindex as u32);
                push_bytes(&mut out, a.hatype.0.as_slice());
                out.push(a.pkttype.to_bits());
                out.push(a.halen);
                push_bytes(&mut out, a.addr.0.as_slice());
                assert(out@ =~= sockaddr_bytes(*self));
            },
            SockAddr::Netlink(a) => {
                push_u16_ne(&mut out, 16);
                push_u16_ne(&mut out, a.padding);
                push_u32_ne(&mut out, a.portid as u32);
                push_u32_ne(&mut out, a.groups);
            },
        }
        out
    }

    /// Whether `from_raw_parts` accepts these bytes and this length.
    pub fn raw_parts_valid(sockaddr: &[u8], addrlen: u32) -> (r: bool)
        ensures
            r == raw_parts_ok(sockaddr@, addrlen),
    {
        if addrlen < 2 || addrlen as usize > sockaddr.len() {
            return false;
        }
        match SaFamily::from_bits(read_u16_ne(sockaddr, 0)) {
            Some(SaFamily::Inet) => addrlen == 16,
            Some(SaFamily::Inet6) => addrlen == 28,
            Some(SaFamily::Local) => addrlen == 110,
            Some(SaFamily::Packet) => addrlen == 20 && PktType::from_bits(sockaddr[10]).is_some(),
            Some(SaFamily::Netlink) => addrlen == 12,
            _ => false,
        }
    }

    /// Reads the address held by the first `addrlen` bytes of `sockaddr`,
    /// a copy of memory that a system call filled. The result is the
    /// address whose layout is exactly those bytes.
    pub fn from_raw_parts(sockaddr: &[u8], addrlen: u32) -> (r: SockAddr)
        requires
            raw_parts_ok(sockaddr@, addrlen),
        ensures
            r.wf(),
            sockaddr_len(r) == addrlen,
            sockaddr_bytes(r) == sockaddr@.subrange(0, addrlen as int),
    {
        let b = sockaddr;
        let ghost s = sockaddr@;
        proof {
            lemma_le16_of_at(s, 0);
        }
        let fam = read_u16_ne(b, 0);
        match SaFamily::from_bits(fam) {
            Some(SaFamily::Inet) => {
                let r = SockAddr::Inet(
                    SockAddrIn {
                        family: SaFamily::Inet,
                        port: U16Be([b[2], b[3]]),
                        addr: InAddr(U32Be([b[4], b[5], b[6], b[7]])),
                        padding: [b[8], b[9], b[10], b[11], b[12], b[13], b[14], b[15]],
                    },
                );
                assert(sockaddr_bytes(r) =~= s.subrange(0, 16));
                r
            },
            Some(SaFamily::Inet6) => {
                let scope_id = read_u32_ne(b, 24);
                proof {
                    lemma_le32_of_at(s, 24);
                }
                let r = SockAddr::Inet6(
                    SockAddrIn6 {
                        family: SaFamily::Inet6,
                        port: U16Be([b[2], b[3]]),
                        flowinfo: U32Be([b[4], b[5], b[6], b[7]]),
                        addr: InAddr6(
                            [
                                b[8],
                                b[9],
                                b[10],
                                b[11],
                                b[12],
                                b[13],
                                b[14],
                                b[15],
                                b[16],
                                b[17],
                                b[18],
                                b[19],
                                b[20],
                                b[21],
                                b[22],
                                b[23],
                            ],
                        ),
                        scope_id,
                    },
                );
                assert(sockaddr_bytes(r) =~= s.subrange(0, 28));
                r
            },
            Some(SaFamily::Packet) => {
                let ifindex = read_u32_ne(b, 4) as i32;
                let pkttype = PktType::from_bits(b[10]);
                proof {
                    lemma_le32_of_at(s, 4);
                    lemma_u32_i32(le32_at(s, 4), 0);
                }
                let r = SockAddr::Packet(
                    SockAddrLL {
                        family: SaFamily::Packet,
                        protocol: U16Be([b[2], b[3]]),
                        ifindex,
                        hatype: U16Be([b[8], b[9]]),
                        pkttype: match pkttype {
                            Some(t) => t,
                            None => PktType::Host,
                        },
                        halen: b[11],
                        addr: PhyAddr([b[12], b[13], b[14], b[15], b[16], b[17], b[18], b[19]]),
                    },
                );
                assert(sockaddr_bytes(r) =~= s.subrange(0, 20));
                r
            },
            Some(SaFamily::Netlink) => {
                let padding = read_u16_ne(b, 2);
                let portid = read_u32_ne(b, 4) as i32;
                let groups = read_u32_ne(b, 8);
                proof {
                    lemma_le16_of_at(s, 2);
                    lemma_le32_of_at(s, 4);
                    lemma_le32_of_at(s, 8);
                    lemma_u32_i32(le32_at(s, 4), 0);
                }
                let r = SockAddr::Netlink(
                    SockAddrNL { family: SaNlFamily::NetlinkRoute, padding, portid, groups },
                );
                assert(sockaddr_bytes(r) =~= s.subrange(0, 12));
                r
            },
            _ => {
                let r = SockAddr::Unix(SockAddrUn::from_raw_parts(sockaddr, addrlen));
                assert(sockaddr_bytes(r) =~= s.subrange(0, 110));
                r
            },
        }
    }
}

impl SockAddrUn {
    /// Reads a Unix address from its 110 bytes: the tag, then the 108-byte
    /// path.
    pub fn from_raw_parts(sockaddr: &[u8], addrlen: u32) -> (r: SockAddrUn)
        requires
            addrlen == 110,
            addrlen <= sockaddr@.len(),
            le16_at(sockaddr@, 0) == 1,
        ensures
            r.family == SaFamily::Local,
            r.path@ == sockaddr@.subrange(2, 110),
    {
        let b = sockaddr;
        let ghost s = sockaddr@;
        let mut path = [0u8; 108];
        let mut i: usize = 0;
        while i < 108
            invariant
                110 <= s.len(),
                s == b@,
                i <= 108,
                forall|j: int| 0 <= j < i ==> path@[j] == s[j + 2],
            decreases 108 - i,
        {
            path[i] = b[i + 2];
            i = i + 1;
        }
        let r = SockAddrUn { family: SaFamily::Local, path };
        assert(r.path@ =~= s.subrange(2, 110));
        r
    }
}

/// The code in the first byte of each address's layout.
pub open spec fn family_tag(v: SockAddr) -> u8 {
    match v {
        SockAddr::Inet(_) => 2,
        SockAddr::Inet6(_) => 10,
        SockAddr::Unix(_) => 1,
        SockAddr::Packet(_) => 17,
        SockAddr::Netlink(_) => 16,
    }
}

proof fn lemma_layout_facts(v: SockAddr)
    ensures
        sockaddr_bytes(v).len() == sockaddr_len(v),
        sockaddr_bytes(v)[0] == family_tag(v),
        v.wf() ==> SaFamily::spec_from_bits(le16_at(sockaddr_bytes(v), 0)) == Some(
            match v {
                SockAddr::Inet(_) => SaFamily::Inet,
                SockAddr::Inet6(_) => SaFamily::Inet6,
                SockAddr::Unix(_) => SaFamily::Local,
                SockAddr::Packet(_) => SaFamily::Packet,
                SockAddr::Netlink(_) => SaFamily::Netlink,
            },
        ),
{
    let b = sockaddr_bytes(v);
    let code: u16 = family_tag(v) as u16;
    assert(b.subrange(0, 2) =~= le16(code));
    lemma_le16_at(b, 0, code);
}

/// Two well-formed addresses with the same layout are the same address.
proof fn lemma_layout_injective(v: SockAddr, r: SockAddr)
    requires
        v.wf(),
        r.wf(),
        sockaddr_bytes(r) == sockaddr_bytes(v),
    ensures
        r == v,
{
    let b = sockaddr_bytes(v);
    lemma_layout_facts(v);
    lemma_layout_facts(r);
    match (v, r) {
        (SockAddr::Inet(a), SockAddr::Inet(c)) => {
            assert(a.port.0@ =~= b.subrange(2, 4) && c.port.0@ =~= b.subrange(2, 4));
            assert(a.addr.0.0@ =~= b.subrange(4, 8) && c.addr.0.0@ =~= b.subrange(4, 8));
            assert(a.padding@ =~= b.subrange(8, 16) && c.padding@ =~= b.subrange(8, 16));
            assert(a.port.0 =~= c.port.0);
            assert(a.addr.0.0 =~= c.addr.0.0);
            assert(a.padding =~= c.padding);
        },
        (SockAddr::Inet6(a), SockAddr::Inet6(c)) => {
            assert(a.port.0@ =~= b.subrange(2, 4) && c.port.0@ =~= b.subrange(2, 4));
            assert(a.flowinfo.0@ =~= b.subrange(4, 8) && c.flowinfo.0@ =~= b.subrange(4, 8));
            assert(a.addr.0@ =~= b.subrange(8, 24) && c.addr.0@ =~= b.subrange(8, 24));
            assert(le32(a.scope_id) =~= b.subrange(24, 28) && le32(c.scope_id) =~= b.subrange(24, 28));
            lemma_le32_at(b, 24, a.scope_id);
            lemma_le32_at(b, 24, c.scope_id);
            assert(a.port.0 =~= c.port.0);
            assert(a.flowinfo.0 =~= c.flowinfo.0);
            assert(a.addr.0 =~= c.addr.0);
        },
        (SockAddr::Unix(a), SockAddr::Unix(c)) => {
            assert(a.path@ =~= b.subrange(2, 110) && c.path@ =~= b.subrange(2, 110));
            assert(a.path =~= c.path);
        },
        (SockAddr::Packet(a), SockAddr::Packet(c)) => {
            assert(a.protocol.0@ =~= b.subrange(2, 4) && c.protocol.0@ =~= b.subrange(2, 4));
            let x = a.ifindex as u32;
            let y = c.ifindex as u32;
            assert(le32(x) =~= b.subrange(4, 8));
            assert(le32(y) =~= b.subrange(4, 8));
            lemma_le32_at(b, 4, x);
            lemma_le32_at(b, 4, y);
            lemma_u32_i32(0, a.ifindex);
            lemma_u32_i32(0, c.ifindex);
            assert(a.ifindex == c.ifindex);
            assert(a.hatype.0@ =~= b.subrange(8, 10) && c.hatype.0@ =~= b.subrange(8, 10));
            assert(b[10] == a.pkttype.spec_to_bits() && b[10] == c.pkttype.spec_to_bits());
            assert(b[11] == a.halen && b[11] == c.halen);
            assert(a.addr.0@ =~= b.subrange(12, 20) && c.addr.0@ =~= b.subrange(12, 20));
            assert(a.protocol.0 =~= c.protocol.0);
            assert(a.hatype.0 =~= c.hatype.0);
            assert(a.addr.0 =~= c.addr.0);
            assert(a.pkttype == c.pkttype);
        },
        (SockAddr::Netlink(a), SockAddr::Netlink(c)) => {
            assert(le16(a.padding) =~= b.subrange(2, 4) && le16(c.padding) =~= b.subrange(2, 4));
            assert(le32(a.portid as u32) =~= b.subrange(4, 8) && le32(c.portid as u32) =~= b.subrange(4, 8));
            assert(le32(a.groups) =~= b.subrange(8, 12) && le32(c.groups) =~= b.subrange(8, 12));
            lemma_le16_at(b, 2, a.padding);
            lemma_le16_at(b, 2, c.padding);
            lemma_le32_at(b, 4, a.portid as u32);
            lemma_le32_at(b, 4, c.portid as u32);
            lemma_le32_at(b, 8, a.groups);
            lemma_le32_at(b, 8, c.groups);
            lemma_u32_i32(0, a.portid);
            lemma_u32_i32(0, c.portid);
        },
        _ => {
            assert(family_tag(v) == family_tag(r));
        },
    }
}

/// Round trip through raw bytes: the layout of a well-formed address is
/// accepted by `from_raw_parts` at the address's own length, and any
/// address that `from_raw_parts` may return for it is the address itself.
pub proof fn lemma_raw_round_trip(v: SockAddr, r: SockAddr)
    requires
        v.wf(),
        r.wf(),
        sockaddr_len(r) == sockaddr_len(v),
        sockaddr_bytes(r) == sockaddr_bytes(v).subrange(0, sockaddr_len(v) as int),
    ensures
        raw_parts_ok(sockaddr_bytes(v), sockaddr_len(v) as u32),
        r == v,
{
    let b = sockaddr_bytes(v);
    lemma_layout_facts(v);
    lemma_layout_facts(r);
    assert(sockaddr_bytes(r)[0] == b[0]);
    assert(family_tag(r) == family_tag(v));
    assert(sockaddr_len(r) == sockaddr_len(v));
    assert(sockaddr_bytes(r) =~= b);
    lemma_layout_injective(v, r);
    if let SockAddr::Packet(a) = v {
        assert(b[10] == a.pkttype.spec_to_bits());
    }
}

////////////////////////////////////////////////////////////////////////////////
//// Retrying transfers
//
// `recv_all`, `send_all` and their `*to`/`*from` forms call the kernel in
// a loop on the rest of the buffer. The calls are made by the caller; these
// functions decide, after each call, whether to call again and where.

/// What a transfer loop does after one call.
#[derive(Debug, Clone, Copy, PartialEq, Eq)]
pub enum Transfer {
    /// Call again on the buffer from this offset (the bytes moved so far).
    Again(usize),
    /// Stop with this result: the bytes moved, or a hard error.
    Done(Result<usize, PosixError>),
}

/// Decision of the receiving loop after a call that returned `res`, with
/// `cnt` bytes received before it: end of stream or "would block" stop
/// with the count so far, an interrupted call is repeated where it was,
/// data moves the offset on, any other error stops the loop.
pub open spec fn recv_next(cnt: usize, res: Result<usize, PosixError>) -> Transfer {
    match res {
        Ok(n) => if n == 0 {
            Transfer::Done(Ok(cnt))
        } else {
            Transfer::Again((cnt + n) as usize)
        },
        Err(PosixError::EAGAIN) => Transfer::Done(Ok(cnt)),
        Err(PosixError::EINTR) => Transfer::Again(cnt),
        Err(e) => Transfer::Done(Err(e)),
    }
}

/// Decision of the sending loop after a call that returned `res`, with
/// `cnt` of `len` bytes sent before it: it stops once everything is sent,
/// repeats an interrupted call, and stops on any other error ("would
/// block" included). A call that sends nothing while bytes remain also
/// stops it, with the count so far, rather than spinning.
pub open spec fn send_next(cnt: usize, len: usize, res: Result<usize, PosixError>) -> Transfer {
    match res {
        Ok(n) => if cnt + n >= len || n == 0 {
            Transfer::Done(Ok((cnt + n) as usize))
        } else {
            Transfer::Again((cnt + n) as usize)
        },
        Err(PosixError::EINTR) => Transfer::Again(cnt),
        Err(e) => Transfer::Done(Err(e)),
    }
}

/// A call on the rest of a `len`-byte buffer from offset `cnt` moves at
/// most the bytes that remain.
pub open spec fn call_fits(cnt: usize, len: usize, res: Result<usize, PosixError>) -> bool {
    cnt <= len && match res {
        Ok(n) => n <= len - cnt,
        Err(_) => true,
    }
}

/// Decision of `recv_all` and `recvfrom_all` after one call.
pub fn recv_all_next(cnt: usize, len: usize, res: Result<usize, PosixError>) -> (r: Transfer)
    requires
        call_fits(cnt, len, res),
    ensures
        r == recv_next(cnt, res),
{
    match res {
        Ok(0) => Transfer::Done(Ok(cnt)),
        Ok(n) => Transfer::Again(cnt + n),
        Err(PosixError::EAGAIN) => Transfer::Done(Ok(cnt)),
        Err(PosixError::EINTR) => Transfer::Again(cnt),
        Err(e) => Transfer::Done(Err(e)),
    }
}

/// Decision of `send_all` and `sendto_all` after one call.
pub fn send_all_next(cnt: usize, len: usize, res: Result<usize, PosixError>) -> (r: Transfer)
    requires
        call_fits(cnt, len, res),
    ensures
        r == send_next(cnt, len, res),
{
    match res {
        Ok(n) => if cnt + n >= len || n == 0 {
            Transfer::Done(Ok(cnt + n))
        } else {
            Transfer::Again(cnt + n)
        },
        Err(PosixError::EINTR) => Transfer::Again(cnt),
        Err(e) => Transfer::Done(Err(e)),
    }
}

/// The receiving loop run against a transport that answers its calls
/// with `outs` in turn: the result and the number of calls made, or
/// `None` if the answers run out first.
pub open spec fn recv_run(cnt: usize, outs: Seq<Result<usize, PosixError>>) -> Option<
    (Result<usize, PosixError>, nat),
>
    decreases outs.len(),
{
    if outs.len() == 0 {
        None
    } else {
        match recv_next(cnt, outs[0]) {
            Transfer::Done(r) => Some((r, 1)),
            Transfer::Again(c) => match recv_run(c, outs.skip(1)) {
                Some((r, k)) => Some((r, k + 1)),
                None => None,
            },
        }
    }
}

/// The sending loop run against a transport that answers with `outs`.
pub open spec fn send_run(cnt: usize, len: usize, outs: Seq<Result<usize, PosixError>>) -> Option<
    (Result<usize, PosixError>, nat),
>
    decreases outs.len(),
{
    if outs.len() == 0 {
        None
    } else {
        match send_next(cnt, len, outs[0]) {
            Transfer::Done(r) => Some((r, 1)),
            Transfer::Again(c) => match send_run(c, len, outs.skip(1)) {
                Some((r, k)) => Some((r, k + 1)),
                None => None,
            },
        }
    }
}

/// An interrupted call is retried once, and the loop then ends as it
/// would have without the interruption, with one call more.
pub proof fn lemma_interrupt_retried(cnt: usize, len: usize, outs: Seq<Result<usize, PosixError>>)
    ensures
        recv_run(cnt, seq![Err(PosixError::EINTR)] + outs) == match recv_run(cnt, outs) {
            Some((r, k)) => Some((r, k + 1)),
            None => None,
        },
        send_run(cnt, len, seq![Err(PosixError::EINTR)] + outs) == match send_run(cnt, len, outs) {
            Some((r, k)) => Some((r, k + 1)),
            None => None,
        },
{
    assert((seq![Err(PosixError::EINTR)] + outs).skip(1) =~= outs);
}

/// "Would block" ends a receiving loop without error, with what was
/// received so far; so after `n` bytes it gives `n`.
pub proof fn lemma_would_block_keeps_partial(
    cnt: usize,
    n: usize,
    outs: Seq<Result<usize, PosixError>>,
)
    requires
        0 < n,
        cnt + n <= usize::MAX,
    ensures
        recv_run(cnt, seq![Err(PosixError::EAGAIN)] + outs) == Some((Ok::<usize, PosixError>(cnt), 1nat)),
        recv_run(cnt, seq![Ok(n), Err(PosixError::EAGAIN)] + outs) == Some(
            (Ok::<usize, PosixError>((cnt + n) as usize), 2nat),
        ),
{
    let s = seq![Ok(n), Err(PosixError::EAGAIN)] + outs;
    assert(s.skip(1) =~= seq![Err(PosixError::EAGAIN)] + outs);
    assert(recv_run((cnt + n) as usize, s.skip(1)) == Some(
        (Ok::<usize, PosixError>((cnt + n) as usize), 1nat),
    ));
}

////////////////////////////////////////////////////////////////////////////////
//// Socket parameters

/// Socket domain (see address_families(7)).
#[derive(Debug, Clone, Copy, PartialEq, Eq)]
pub enum AddressFamily {
    /// 0
    UNSPEC,
    /// 1: also `LOCAL`
    UNIX,
    /// 2
    INET,
    /// 3
    AX25,
    /// 4
    IPX,
    /// 5
    APPLETALK,
    /// 6: AX.25 packet layer protocol
    NETROM,
    /// 7: bridge links in rtnetlink commands; no sockets
    BRIDGE,
    /// 8
    ATMPVC,
    /// 9
    X25,
    /// 10
    INET6,
    /// 11
    ROSE,
    /// 12
    DECnet,
    /// 13
    NETBEUI,
    /// 14
    SECURITY,
    /// 15
    KEY,
    /// 16: also `ROUTE`
    NETLINK,
    /// 17
    PACKET,
    /// 18
    ASH,
    /// 19
    ECONET,
    /// 20
    ATMSVC,
    /// 21
    RDS,
    /// 22
    SNA,
    /// 23
    RDA,
    /// 24
    PPPOX,
    /// 25
    WANPIPE,
    /// 26
    LLC,
    /// 27
    CAN,
    /// 28
    TIPC,
    /// 31
    BLUETOOTH,
    /// 32
    IUCV,
    /// 33
    RXRPC,
    /// 34
    ISDN,
    /// 35: Nokia cellular modem IPC/RPC interface
    PHONET,
    /// 36
    IEEE802154,
    /// 37
    CAIF,
    /// 38: interface to the kernel crypto API
    ALG,
    /// 40
    VSOCK,
    /// 44
    XDP,
}

impl AddressFamily {
    pub open spec fn spec_to_bits(&self) -> i32 {
        match *self {
            AddressFamily::UNSPEC => 0,
            AddressFamily::UNIX => 1,
            AddressFamily::INET => 2,
            AddressFamily::AX25 => 3,
            AddressFamily::IPX => 4,
            AddressFamily::APPLETALK => 5,
            AddressFamily::NETROM => 6,
            AddressFamily::BRIDGE => 7,
            AddressFamily::ATMPVC => 8,
            AddressFamily::X25 => 9,
            AddressFamily::INET6 => 10,
            AddressFamily::ROSE => 11,
            AddressFamily::DECnet => 12,
            AddressFamily::NETBEUI => 13,
            AddressFamily::SECURITY => 14,
            AddressFamily::KEY => 15,
            AddressFamily::NETLINK => 16,
            AddressFamily::PACKET => 17,
            AddressFamily::ASH => 18,
            AddressFamily::ECONET => 19,
            AddressFamily::ATMSVC => 20,
            AddressFamily::RDS => 21,
            AddressFamily::SNA => 22,
            AddressFamily::RDA => 23,
            AddressFamily::PPPOX => 24,
            AddressFamily::WANPIPE => 25,
            AddressFamily::LLC => 26,
            AddressFamily::CAN => 27,
            AddressFamily::TIPC => 28,
            AddressFamily::BLUETOOTH => 31,
            AddressFamily::IUCV => 32,
            AddressFamily::RXRPC => 33,
            AddressFamily::ISDN => 34,
            AddressFamily::PHONET => 35,
            AddressFamily::IEEE802154 => 36,
            AddressFamily::CAIF => 37,
            AddressFamily::ALG => 38,
            AddressFamily::VSOCK => 40,
            AddressFamily::XDP => 44,
        }
    }

    /// The raw value.
    #[verifier::when_used_as_spec(spec_to_bits)]
    pub fn to_bits(&self) -> (r: i32)
        ensures
            r == self.spec_to_bits(),
    {
        match *self {
            AddressFamily::UNSPEC => 0,
            AddressFamily::UNIX => 1,
            AddressFamily::INET => 2,
            AddressFamily::AX25 => 3,
            AddressFamily::IPX => 4,
            AddressFamily::APPLETALK => 5,
            AddressFamily::NETROM => 6,
            AddressFamily::BRIDGE => 7,
            AddressFamily::ATMPVC => 8,
            AddressFamily::X25 => 9,
            AddressFamily::INET6 => 10,
            AddressFamily::ROSE => 11,
            AddressFamily::DECnet => 12,
            AddressFamily::NETBEUI => 13,
            AddressFamily::SECURITY => 14,
            AddressFamily::KEY => 15,
            AddressFamily::NETLINK => 16,
            AddressFamily::PACKET => 17,
            AddressFamily::ASH => 18,
            AddressFamily::ECONET => 19,
            AddressFamily::ATMSVC => 20,
            AddressFamily::RDS => 21,
            AddressFamily::SNA => 22,
            AddressFamily::RDA => 23,
            AddressFamily::PPPOX => 24,
            AddressFamily::WANPIPE => 25,
            AddressFamily::LLC => 26,
            AddressFamily::CAN => 27,
            AddressFamily::TIPC => 28,
            AddressFamily::BLUETOOTH => 31,
            AddressFamily::IUCV => 32,
            AddressFamily::RXRPC => 33,
            AddressFamily::ISDN => 34,
            AddressFamily::PHONET => 35,
            AddressFamily::IEEE802154 => 36,
            AddressFamily::CAIF => 37,
            AddressFamily::ALG => 38,
            AddressFamily::VSOCK => 40,
            AddressFamily::XDP => 44,
        }
    }

    pub open spec fn spec_from_bits(v: i32) -> Option<AddressFamily> {
        if v == 0 {
            Some(AddressFamily::UNSPEC)
        } else if v == 1 {
            Some(AddressFamily::UNIX)
        } else if v == 2 {
            Some(AddressFamily::INET)
        } else if v == 3 {
            Some(AddressFamily::AX25)
        } else if v == 4 {
            Some(AddressFamily::IPX)
        } else if v == 5 {
            Some(AddressFamily::APPLETALK)
        } else if v == 6 {
            Some(AddressFamily::NETROM)
        } else if v == 7 {
            Some(AddressFamily::BRIDGE)
        } else if v == 8 {
            Some(AddressFamily::ATMPVC)
        } else if v == 9 {
            Some(AddressFamily::X25)
        } else if v == 10 {
            Some(AddressFamily::INET6)
        } else if v == 11 {
            Some(AddressFamily::ROSE)
        } else if v == 12 {
            Some(AddressFamily::DECnet)
        } else if v == 13 {
            Some(AddressFamily::NETBEUI)
        } else if v == 14 {
            Some(AddressFamily::SECURITY)
        } else if v == 15 {
            Some(AddressFamily::KEY)
        } else if v == 16 {
            Some(AddressFamily::NETLINK)
        } else if v == 17 {
            Some(AddressFamily::PACKET)
        } else if v == 18 {
            Some(AddressFamily::ASH)
        } else if v == 19 {
            Some(AddressFamily::ECONET)
        } else if v == 20 {
            Some(AddressFamily::ATMSVC)
        } else if v == 21 {
            Some(AddressFamily::RDS)
        } else if v == 22 {
            Some(AddressFamily::SNA)
        } else if v == 23 {
            Some(AddressFamily::RDA)
        } else if v == 24 {
            Some(AddressFamily::PPPOX)
        } else if v == 25 {
            Some(AddressFamily::WANPIPE)
        } else if v == 26 {
            Some(AddressFamily::LLC)
        } else if v == 27 {
            Some(AddressFamily::CAN)
        } else if v == 28 {
            Some(AddressFamily::TIPC)
        } else if v == 31 {
            Some(AddressFamily::BLUETOOTH)
        } else if v == 32 {
            Some(AddressFamily::IUCV)
        } else if v == 33 {
            Some(AddressFamily::RXRPC)
        } else if v == 34 {
            Some(AddressFamily::ISDN)
        } else if v == 35 {
            Some(AddressFamily::PHONET)
        } else if v == 36 {
            Some(AddressFamily::IEEE802154)
        } else if v == 37 {
            Some(AddressFamily::CAIF)
        } else if v == 38 {
            Some(AddressFamily::ALG)
        } else if v == 40 {
            Some(AddressFamily::VSOCK)
        } else if v == 44 {
            Some(AddressFamily::XDP)
        } else {
            None
        }
    }

    /// The value named by `v`, if there is one.
    #[verifier::when_used_as_spec(spec_from_bits)]
    pub fn from_bits(v: i32) -> (r: Option<AddressFamily>)
        ensures
            r == Self::spec_from_bits(v),
    {
        match v {
            0 => Some(AddressFamily::UNSPEC),
            1 => Some(AddressFamily::UNIX),
            2 => Some(AddressFamily::INET),
            3 => Some(AddressFamily::AX25),
            4 => Some(AddressFamily::IPX),
            5 => Some(AddressFamily::APPLETALK),
            6 => Some(AddressFamily::NETROM),
            7 => Some(AddressFamily::BRIDGE),
            8 => Some(AddressFamily::ATMPVC),
            9 => Some(AddressFamily::X25),
            10 => Some(AddressFamily::INET6),
            11 => Some(AddressFamily::ROSE),
            12 => Some(AddressFamily::DECnet),
            13 => Some(AddressFamily::NETBEUI),
            14 => Some(AddressFamily::SECURITY),
            15 => Some(AddressFamily::KEY),
            16 => Some(AddressFamily::NETLINK),
            17 => Some(AddressFamily::PACKET),
            18 => Some(AddressFamily::ASH),
            19 => Some(AddressFamily::ECONET),
            20 => Some(AddressFamily::ATMSVC),
            21 => Some(AddressFamily::RDS),
            22 => Some(AddressFamily::SNA),
            23 => Some(AddressFamily::RDA),
            24 => Some(AddressFamily::PPPOX),
            25 => Some(AddressFamily::WANPIPE),
            26 => Some(AddressFamily::LLC),
            27 => Some(AddressFamily::CAN),
            28 => Some(AddressFamily::TIPC),
            31 => Some(AddressFamily::BLUETOOTH),
            32 => Some(AddressFamily::IUCV),
            33 => Some(AddressFamily::RXRPC),
            34 => Some(AddressFamily::ISDN),
            35 => Some(AddressFamily::PHONET),
            36 => Some(AddressFamily::IEEE802154),
            37 => Some(AddressFamily::CAIF),
            38 => Some(AddressFamily::ALG),
            40 => Some(AddressFamily::VSOCK),
            44 => Some(AddressFamily::XDP),
            _ => None,
        }
    }
}

/// Socket type.
#[derive(Debug, Clone, Copy, PartialEq, Eq)]
pub enum SocketType {
    /// 0
    ZERO,
    /// 1
    STREAM,
    /// 2
    DGRAM,
    /// 3
    RAW,
    /// 4
    RDM,
    /// 5
    SEQPACKET,
}

impl SocketType {
    pub open spec fn spec_to_bits(&self) -> i32 {
        match *self {
            SocketType::ZERO => 0,
            SocketType::STREAM => 1,
            SocketType::DGRAM => 2,
            SocketType::RAW => 3,
            SocketType::RDM => 4,
            SocketType::SEQPACKET => 5,
        }
    }

    /// The raw value.
    #[verifier::when_used_as_spec(spec_to_bits)]
    pub fn to_bits(&self) -> (r: i32)
        ensures
            r == self.spec_to_bits(),
    {
        match *self {
            SocketType::ZERO => 0,
            SocketType::STREAM => 1,
            SocketType::DGRAM => 2,
            SocketType::RAW => 3,
            SocketType::RDM => 4,
            SocketType::SEQPACKET => 5,
        }
    }

    pub open spec fn spec_from_bits(v: i32) -> Option<SocketType> {
        if v == 0 {
            Some(SocketType::ZERO)
        } else if v == 1 {
            Some(SocketType::STREAM)
        } else if v == 2 {
            Some(SocketType::DGRAM)
        } else if v == 3 {
            Some(SocketType::RAW)
        } else if v == 4 {
            Some(SocketType::RDM)
        } else if v == 5 {
            Some(SocketType::SEQPACKET)
        } else {
            None
        }
    }

    /// The value named by `v`, if there is one.
    #[verifier::when_used_as_spec(spec_from_bits)]
    pub fn from_bits(v: i32) -> (r: Option<SocketType>)
        ensures
            r == Self::spec_from_bits(v),
    {
        match v {
            0 => Some(SocketType::ZERO),
            1 => Some(SocketType::STREAM),
            2 => Some(SocketType::DGRAM),
            3 => Some(SocketType::RAW),
            4 => Some(SocketType::RDM),
            5 => Some(SocketType::SEQPACKET),
            _ => None,
        }
    }
}

/// Flag of a send or receive call (`MSG_*`).
#[derive(Debug, Clone, Copy, PartialEq, Eq, Hash)]
pub enum Msg {
    /// 1
    OOB,
    /// 2
    PEEK,
    /// 4
    DONTROUTE,
    /// 8
    CTRUNC,
    /// 32
    TRUNC,
    /// 64
    DONTWAIT,
    /// 0x200
    FIN,
    /// 0x400
    SYN,
    /// 0x800
    CONFIRM,
    /// 0x1000
    RST,
    /// 0x2000
    ERRQUEUE,
    /// 0x4000
    NOSIGNAL,
    /// 0x8000
    MORE,
    /// 0x10000
    WAITFORNE,
    /// 0x20000000
    FASTOPEN,
    /// 0x40000000: `MSG_CMSG_CLOEXEC`
    CLOEXEC,
}

impl Msg {
    pub open spec fn spec_to_bits(&self) -> i32 {
        match *self {
            Msg::OOB => 1,
            Msg::PEEK => 2,
            Msg::DONTROUTE => 4,
            Msg::CTRUNC => 8,
            Msg::TRUNC => 32,
            Msg::DONTWAIT => 64,
            Msg::FIN => 0x200,
            Msg::SYN => 0x400,
            Msg::CONFIRM => 0x800,
            Msg::RST => 0x1000,
            Msg::ERRQUEUE => 0x2000,
            Msg::NOSIGNAL => 0x4000,
            Msg::MORE => 0x8000,
            Msg::WAITFORNE => 0x10000,
            Msg::FASTOPEN => 0x20000000,
            Msg::CLOEXEC => 0x40000000,
        }
    }

    /// The raw value.
    #[verifier::when_used_as_spec(spec_to_bits)]
    pub fn to_bits(&self) -> (r: i32)
        ensures
            r == self.spec_to_bits(),
    {
        match *self {
            Msg::OOB => 1,
            Msg::PEEK => 2,
            Msg::DONTROUTE => 4,
            Msg::CTRUNC => 8,
            Msg::TRUNC => 32,
            Msg::DONTWAIT => 64,
            Msg::FIN => 0x200,
            Msg::SYN => 0x400,
            Msg::CONFIRM => 0x800,
            Msg::RST => 0x1000,
            Msg::ERRQUEUE => 0x2000,
            Msg::NOSIGNAL => 0x4000,
            Msg::MORE => 0x8000,
            Msg::WAITFORNE => 0x10000,
            Msg::FASTOPEN => 0x20000000,
            Msg::CLOEXEC => 0x40000000,
        }
    }
}

/// `SOCK_NONBLOCK`
pub const SOCK_NONBLOCK: i32 = 0o4000;

/// `SOCK_CLOEXEC`
pub const SOCK_CLOEXEC: i32 = 0o2000000;

/// Flags of a send or receive call.
#[derive(Debug, Default, PartialEq, Eq, Hash, Clone, Copy)]
pub struct Flags(pub i32);

impl Flags {
    /// These flags with `m` added.
    pub fn with(self, m: Msg) -> (r: Self)
        ensures
            r.0 == self.0 | m.spec_to_bits(),
    {
        Flags(self.0 | m.to_bits())
    }

    /// Whether `m` is set.
    pub fn contains(&self, m: Msg) -> (r: bool)
        ensures
            r == (self.0 & m.spec_to_bits() != 0),
    {
        self.0 & m.to_bits() != 0
    }

    /// The raw value.
    pub fn to_bits(&self) -> (r: i32)
        ensures
            r == self.0,
    {
        self.0
    }
}

/// Behaviour added to a socket when it is created.
#[derive(Debug, Default, Clone, Copy, PartialEq, Eq)]
pub struct ExtraBehavior {
    pub non_block: bool,
    pub close_on_exec: bool,
}

impl ExtraBehavior {
    /// Nothing added.
    pub fn new() -> (r: Self)
        ensures
            !r.non_block,
            !r.close_on_exec,
    {
        ExtraBehavior { non_block: false, close_on_exec: false }
    }

    /// Also non-blocking.
    pub fn non_block(self) -> (r: Self)
        ensures
            r.non_block,
            r.close_on_exec == self.close_on_exec,
    {
        ExtraBehavior { non_block: true, ..self }
    }

    /// Also closed on `exec`.
    pub fn close_on_exec(self) -> (r: Self)
        ensures
            r.close_on_exec,
            r.non_block == self.non_block,
    {
        ExtraBehavior { close_on_exec: true, ..self }
    }

    /// The bits to or into the socket type.
    pub fn to_bits(self) -> (r: i32)
        ensures
            r == (if self.non_block { SOCK_NONBLOCK } else { 0 }) | (if self.close_on_exec {
                SOCK_CLOEXEC
            } else {
                0
            }),
    {
        let a: i32 = if self.non_block {
            SOCK_NONBLOCK
        } else {
            0
        };
        let b: i32 = if self.close_on_exec {
            SOCK_CLOEXEC
        } else {
            0
        };
        a | b
    }
}

/// Protocol argument of `socket`.
#[derive(Clone, Copy, Debug, PartialEq, Eq, Default)]
pub enum SocketProtocol {
    /// An IP protocol number (TCP 6, UDP 17, ...).
    IP(u8),
    /// An Ethernet protocol, for packet sockets.
    Eth(EthTypeSpec),
    /// 0
    #[default]
    Zero,
    /// `NETLINK_ROUTE`, 0
    NetlinkRoute,
}

impl SocketProtocol {
    /// The raw protocol value: an IP protocol number as it is, an Ethernet
    /// protocol in network order (its two bytes swapped on this target).
    pub fn to_protocol(&self) -> (r: i32)
        ensures
            r == match *self {
                SocketProtocol::IP(p) => p as i32,
                SocketProtocol::Eth(e) => (((e.spec_to_bits() & 0xff) << 8) | (e.spec_to_bits()
                    >> 8)) as i32,
                SocketProtocol::Zero | SocketProtocol::NetlinkRoute => 0,
            },
    {
        match self {
            SocketProtocol::IP(p) => *p as i32,
            SocketProtocol::Eth(e) => {
                let v = e.to_bits();
                (((v & 0xff) << 8) | (v >> 8)) as i32
            },
            SocketProtocol::Zero | SocketProtocol::NetlinkRoute => 0,
        }
    }

    /// The IP protocol with number `value`.
    pub fn from_raw_ip(value: u8) -> (r: Self)
        ensures
            r == SocketProtocol::IP(value),
    {
        SocketProtocol::IP(value)
    }
}

impl InAddr {
    /// The address as a native-order integer (`a.b.c.d` is `a << 24 | ...`).
    pub fn to_bits(&self) -> (r: u32)
        ensures
            r == crate::bytes::be32_value(self.0@),
    {
        self.0.to_ne()
    }

    /// The address `o[0].o[1].o[2].o[3]`.
    pub fn from_octets(o: [u8; 4]) -> (r: Self)
        ensures
            r.0@ == o@,
    {
        InAddr(U32Be::from_bytes(o))
    }
}

impl SockAddrIn {
    /// IPv4 address `addr` with port 0.
    pub fn from_ipv4(addr: InAddr) -> (r: Self)
        ensures
            r.family == SaFamily::Inet,
            r.port@ == seq![0u8, 0u8],
            r.addr == addr,
            r.padding@ == seq![0u8, 0u8, 0u8, 0u8, 0u8, 0u8, 0u8, 0u8],
    {
        let r = SockAddrIn { family: SaFamily::Inet, port: U16Be([0, 0]), addr, padding: [0; 8] };
        assert(r.port@ =~= seq![0u8, 0u8]);
        assert(r.padding@ =~= seq![0u8, 0u8, 0u8, 0u8, 0u8, 0u8, 0u8, 0u8]);
        r
    }
}

impl SockAddrNL {
    /// The kernel's address: port id 0, no multicast group.
    pub fn kernel() -> (r: Self)
        ensures
            r.portid == 0,
            r.groups == 0,
            r.padding == 0,
    {
        SockAddrNL { family: SaNlFamily::NetlinkRoute, padding: 0, portid: 0, groups: 0 }
    }
}

} // verus!
