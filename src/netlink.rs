//! Netlink / rtnetlink route messages (RFC 3549): wire layout, the
//! request that dumps the IPv4 routing table, and the parser that turns a
//! dump back into route messages and their attributes.

use vstd::prelude::*;
use crate::cursor::{align4, step_len, BufCursor};
use crate::bytes::{zeros, le16, le32, le16_at, le32_at, lemma_le16_at, lemma_le32_at, push_u16_ne, push_u32_ne, read_u16_ne, read_u32_ne};

verus! {

pub const NLMSG_ALIGNTO: usize = 4;

pub const RTA_ALIGNTO: usize = 4;

/// Size of `NlMsgHdr` on the wire.
pub const NLMSG_HDRLEN: usize = 16;

/// Size of `RtMsgHdr` on the wire.
pub const RTMSG_HDRLEN: usize = 12;

/// Size of `RtAttrHdr` on the wire.
pub const RTA_HDRLEN: usize = 4;

/// A protocol value that is written to a request buffer as bytes.
pub trait FillBuf {
    /// The bytes the value is written as.
    spec fn wire_bytes(&self) -> Seq<u8>;

    /// How many bytes the value takes.
    fn buf_len(&self) -> (r: usize)
        ensures
            r == self.wire_bytes().len(),
    ;

    /// Appends the value's bytes to `buf`.
    fn fill_buf(&self, buf: &mut Vec<u8>)
        ensures
            final(buf)@ == old(buf)@ + self.wire_bytes(),
    ;
}

////////////////////////////////////////////////////////////////////////////////
//// Wire types

/// Netlink message header (`struct nlmsghdr`), 16 bytes in native order.
#[derive(Clone, Copy, Debug, PartialEq, Eq)]
pub struct NlMsgHdr {
    /// Message length, header included.
    pub len: u32,
    pub ty: NlMsgType,
    pub flags: NlMsgFlags,
    /// Used to track messages.
    pub seq: u32,
    /// Sending port id (not necessarily a process id).
    pub pid: u32,
}

/// Raw netlink message type.
#[derive(Clone, Copy, Debug, PartialEq, Eq)]
pub struct NlMsgType(pub u16);

/// What a netlink message type stands for.
#[derive(Clone, Copy, Debug, PartialEq, Eq)]
pub enum NlMsgTypeKind {
    Ctrl(NlMsgCtrlType),
    Route(NlMsgRouteType),
    Oth(u16),
}

/// Control message types.
#[derive(Clone, Copy, Debug, PartialEq, Eq)]
pub enum NlMsgCtrlType {
    /// 1
    NoOp,
    /// 2
    Error,
    /// 3: ends a multipart dump.
    Done,
    /// 4
    OverRun,
}

/// Route message types.
#[derive(Clone, Copy, Debug, PartialEq, Eq)]
pub enum NlMsgRouteType {
    /// 24
    NewRoute,
    /// 26
    GetRoute,
}

/// Netlink header flags.
#[derive(Clone, Copy, Debug, PartialEq, Eq, Default)]
pub struct NlMsgFlags(pub u16);

/// Flags of every request.
#[derive(Clone, Copy, Debug, PartialEq, Eq)]
pub enum NlMsgStdFlag {
    /// 0x1: must be set on all requests.
    Request,
    /// 0x2: multipart message, terminated by `Done`.
    Multi,
    /// 0x4: reply with an acknowledgement.
    Ack,
    /// 0x8: echo this request.
    Echo,
    /// 0x10: dump was inconsistent.
    DumpIntr,
}

/// Flags of get requests.
#[derive(Clone, Copy, Debug, PartialEq, Eq)]
pub enum NlMsgGetFlag {
    /// 0x100: return the complete table.
    Root,
    /// 0x200: return all entries matching the criteria.
    Match,
    /// 0x400: return an atomic snapshot.
    Atomic,
    /// 0x300: `Root` and `Match`.
    Dump,
}

/// Flags of creation requests.
#[derive(Clone, Copy, Debug, PartialEq, Eq)]
pub enum NlMsgNewFlag {
    /// 0x100: replace an existing entry.
    Replace,
    /// 0x200: do not touch an existing entry.
    Exec,
    /// 0x400: create the entry if it does not exist.
    Create,
    /// 0x800: add to the end of the list.
    Append,
}

/// Route message header (`struct rtmsg`), 12 bytes.
#[derive(Clone, Copy, Debug, PartialEq, Eq)]
pub struct RtMsgHdr {
    pub family: RtFamily,
    /// Length of the destination prefix, 0 for any.
    pub dst_len: u8,
    /// Length of the source prefix, 0 for any.
    pub src_len: u8,
    /// Type of service.
    pub tos: u8,
    pub table: RtMsgTable,
    pub protocol: RtMsgProto,
    pub scope: RtMsgScope,
    pub ty: RtType,
    pub flags: RtMsgFlags,
}

/// Address family of a route.
#[derive(Clone, Copy, Debug, PartialEq, Eq)]
pub enum RtFamily {
    /// 0
    Unspec,
    /// 2
    IPv4,
    /// 10
    IPv6,
    /// Any other code.
    Other(u8),
}

/// Routing table id.
#[derive(Default, Clone, Copy, Debug, PartialEq, Eq)]
pub struct RtMsgTable(pub u8);

/// Origin of a route.
#[derive(Default, Clone, Copy, Debug, PartialEq, Eq)]
pub struct RtMsgProto(pub u8);

/// Distance to the destination.
#[derive(Default, Clone, Copy, Debug, PartialEq, Eq)]
pub enum RtMsgScope {
    /// 0
    #[default]
    Universe,
    /// 200
    Site,
    /// 253
    Link,
    /// 254
    Host,
    /// 255
    Nowhere,
    /// Any other code.
    Other(u8),
}

/// Route type.
#[derive(Default, Clone, Copy, Debug, PartialEq, Eq)]
pub enum RtType {
    /// 0
    #[default]
    Unspec,
    /// 1
    Unicast,
    /// 2
    Local,
    /// 3
    Broadcast,
    /// 4
    Anycast,
    /// 5
    Multicast,
    /// 6
    Blackhole,
    /// 7
    Unreachable,
    /// 8
    Prohibit,
    /// 9
    Throw,
    /// 10
    Nat,
    /// 11
    Xresolve,
    /// Any other code.
    Other(u8),
}

/// Route message flags.
#[derive(Default, Clone, Copy, Debug, PartialEq, Eq)]
pub struct RtMsgFlags(pub u32);

/// One route message flag.
#[derive(Clone, Copy, Debug, PartialEq, Eq)]
pub enum RtMsgFlag {
    /// 0x100
    Notify,
    /// 0x200
    Cloned,
    /// 0x400
    Equalize,
    /// 0x800
    Prefix,
}

/// Route attribute header (`struct rtattr`), 4 bytes.
#[derive(Clone, Copy, Debug, PartialEq, Eq)]
pub struct RtAttrHdr {
    /// Attribute length, header included.
    pub len: u16,
    pub ty: RtAttrType,
}

/// Raw route attribute type.
#[derive(Clone, Copy, Debug, PartialEq, Eq)]
pub struct RtAttrType(pub u16);

/// What a route attribute type stands for.
#[derive(Clone, Copy, Debug, PartialEq, Eq)]
pub enum RtAttrKind {
    /// 3: input interface.
    Iif,
    /// 4: output interface.
    Oif,
    /// 5: gateway address.
    Gateway,
    Oth(u16),
}

/// Attribute of a route request.
#[derive(Clone, Copy, Debug, PartialEq, Eq)]
pub enum RtReqAttr {
    /// Output interface index.
    OIf(i32),
    /// Input interface index.
    IIf(i32),
}

/// An IP address as its network-order octets.
#[derive(Clone, Copy, Debug, PartialEq, Eq)]
pub enum IpAddr {
    V4([u8; 4]),
    V6([u8; 16]),
}

/// Decoded attribute of a route response.
#[derive(Clone, Copy, Debug, PartialEq, Eq)]
pub enum RtRespAttr {
    Gateway(IpAddr),
    OIf(i32),
    IIf(i32),
    Oth,
}

/// A netlink frame: its header and payload.
#[derive(Debug)]
pub struct NlMsgRaw {
    pub hdr: NlMsgHdr,
    pub payload: Vec<u8>,
}

/// A route attribute as found on the wire.
#[derive(Debug)]
pub struct RtAttrRaw {
    pub hdr: RtAttrHdr,
    pub payload: Vec<u8>,
}

/// A route message with its attributes not yet decoded.
#[derive(Debug)]
pub struct RtMsgRaw {
    pub hdr: RtMsgHdr,
    pub attrs: Vec<RtAttrRaw>,
}

/// A route message with decoded attributes.
#[derive(Debug)]
pub struct RtMsg {
    pub hdr: RtMsgHdr,
    pub attrs: Vec<RtRespAttr>,
}

impl View for NlMsgRaw {
    type V = (NlMsgHdr, Seq<u8>);

    open spec fn view(&self) -> (NlMsgHdr, Seq<u8>) {
        (self.hdr, self.payload@)
    }
}

impl View for RtAttrRaw {
    type V = (RtAttrHdr, Seq<u8>);

    open spec fn view(&self) -> (RtAttrHdr, Seq<u8>) {
        (self.hdr, self.payload@)
    }
}

impl View for RtMsgRaw {
    type V = (RtMsgHdr, Seq<(RtAttrHdr, Seq<u8>)>);

    open spec fn view(&self) -> (RtMsgHdr, Seq<(RtAttrHdr, Seq<u8>)>) {
        (self.hdr, self.attrs@.map_values(|a: RtAttrRaw| a@))
    }
}

impl View for RtMsg {
    type V = (RtMsgHdr, Seq<RtRespAttr>);

    open spec fn view(&self) -> (RtMsgHdr, Seq<RtRespAttr>) {
        (self.hdr, self.attrs@)
    }
}

////////////////////////////////////////////////////////////////////////////////
//// Wire layout

/// The 16 bytes of a netlink header.
pub open spec fn nlmsghdr_bytes(h: NlMsgHdr) -> Seq<u8> {
    le32(h.len) + le16(h.ty.0) + le16(h.flags.0) + le32(h.seq) + le32(h.pid)
}

/// The netlink header held by the first 16 bytes of `s`.
pub open spec fn nlmsghdr_of(s: Seq<u8>) -> NlMsgHdr {
    NlMsgHdr {
        len: le32_at(s, 0),
        ty: NlMsgType(le16_at(s, 4)),
        flags: NlMsgFlags(le16_at(s, 6)),
        seq: le32_at(s, 8),
        pid: le32_at(s, 12),
    }
}

/// The route attribute header held by the first 4 bytes of `s`.
pub open spec fn rtattrhdr_of(s: Seq<u8>) -> RtAttrHdr {
    RtAttrHdr { len: le16_at(s, 0), ty: RtAttrType(le16_at(s, 2)) }
}

/// `s` starts with a complete netlink frame: a whole header whose declared
/// length covers the header and stays within `s`.
pub open spec fn frame_ok(s: Seq<u8>) -> bool {
    s.len() >= NLMSG_HDRLEN && NLMSG_HDRLEN <= le32_at(s, 0) <= s.len()
}

/// `s` starts with a complete route attribute.
pub open spec fn attr_ok(s: Seq<u8>) -> bool {
    s.len() >= RTA_HDRLEN && RTA_HDRLEN <= le16_at(s, 0) <= s.len()
}

/// Stage one: the frames at the start of `s`, up to the first incomplete
/// frame or the first `Done` frame (which is not part of the result).
pub open spec fn nl_frames(s: Seq<u8>) -> Seq<(NlMsgHdr, Seq<u8>)>
    decreases s.len(),
{
    if frame_ok(s) {
        let h = nlmsghdr_of(s);
        if h.ty.0 == NLMSG_DONE {
            Seq::empty()
        } else {
            seq![(h, s.subrange(NLMSG_HDRLEN as int, h.len as int))] + nl_frames(
                s.skip(step_len(s, h.len as int)),
            )
        }
    } else {
        Seq::empty()
    }
}

/// The route attributes at the start of `s`, up to the first incomplete one.
pub open spec fn rt_attrs(s: Seq<u8>) -> Seq<(RtAttrHdr, Seq<u8>)>
    decreases s.len(),
{
    if attr_ok(s) {
        let h = rtattrhdr_of(s);
        seq![(h, s.subrange(RTA_HDRLEN as int, h.len as int))] + rt_attrs(
            s.skip(step_len(s, h.len as int)),
        )
    } else {
        Seq::empty()
    }
}

/// Type of the control message that ends a multipart dump.
pub const NLMSG_DONE: u16 = 3;

////////////////////////////////////////////////////////////////////////////////
//// Length arithmetic

/// Rounds `len` up to the netlink alignment (C macro `NLMSG_ALIGN`).
pub fn nlmsg_align(len: usize) -> (r: usize)
    requires
        len <= usize::MAX - 3,
    ensures
        r == align4(len as int),
{
    let x = len + 3;
    let r = x & !3usize;
    assert(x & !3usize == x - x % 4) by (bit_vector);
    r
}

/// Value of a header's length field for a payload of `size` bytes
/// (C macro `NLMSG_LENGTH`).
pub fn nlmsg_length(size: usize) -> (r: usize)
    requires
        size <= usize::MAX - NLMSG_HDRLEN,
    ensures
        r == NLMSG_HDRLEN + size,
{
    nlmsg_align(NLMSG_HDRLEN) + size
}

/// Length of an attribute with a payload of `size` bytes (C macro
/// `RTA_LENGTH`).
pub fn rta_len(size: usize) -> (r: usize)
    requires
        size <= usize::MAX - RTA_HDRLEN,
    ensures
        r == RTA_HDRLEN + size,
{
    RTA_HDRLEN + size
}

/// Whether the unread bytes start with a complete frame (C macro
/// `NLMSG_OK`).
pub fn nlmsg_ok(buf: &BufCursor) -> (r: bool)
    ensures
        r == frame_ok(buf@),
{
    let rem = buf.rem_len();
    if rem >= NLMSG_HDRLEN {
        let len = buf.peek_u32(0) as usize;
        len >= NLMSG_HDRLEN && len <= rem
    } else {
        false
    }
}

/// Whether the unread bytes start with a complete route attribute (C
/// macro `RTA_OK`).
pub fn rta_ok(buf: &BufCursor) -> (r: bool)
    ensures
        r == attr_ok(buf@),
{
    let rem = buf.rem_len();
    if rem >= RTA_HDRLEN {
        let len = buf.peek_u16(0) as usize;
        len >= RTA_HDRLEN && len <= rem
    } else {
        false
    }
}

impl NlMsgHdr {
    /// Payload length: the declared length less the header, 0 when the
    /// declared length is shorter than a header.
    pub fn payload_len(&self) -> (r: usize)
        ensures
            r == (if self.len < NLMSG_HDRLEN { 0 } else { self.len - NLMSG_HDRLEN }),
    {
        if (self.len as usize) < NLMSG_HDRLEN {
            0
        } else {
            self.len as usize - NLMSG_HDRLEN
        }
    }
}

impl RtAttrHdr {
    /// Payload length: the declared length less the header, 0 when the
    /// declared length is shorter than a header.
    pub fn payload_len(&self) -> (r: usize)
        ensures
            r == (if self.len < RTA_HDRLEN { 0 } else { self.len - RTA_HDRLEN }),
    {
        if (self.len as usize) < RTA_HDRLEN {
            0
        } else {
            self.len as usize - RTA_HDRLEN
        }
    }
}

////////////////////////////////////////////////////////////////////////////////
//// Parsing

/// The netlink header at the cursor, without moving it.
pub fn peek_nlmsghdr(buf: &BufCursor) -> (r: NlMsgHdr)
    requires
        buf@.len() >= NLMSG_HDRLEN,
    ensures
        r == nlmsghdr_of(buf@),
{
    NlMsgHdr {
        len: buf.peek_u32(0),
        ty: NlMsgType(buf.peek_u16(4)),
        flags: NlMsgFlags(buf.peek_u16(6)),
        seq: buf.peek_u32(8),
        pid: buf.peek_u32(12),
    }
}

/// The route attribute header at the cursor, without moving it.
pub fn peek_rtattrhdr(buf: &BufCursor) -> (r: RtAttrHdr)
    requires
        buf@.len() >= RTA_HDRLEN,
    ensures
        r == rtattrhdr_of(buf@),
{
    RtAttrHdr { len: buf.peek_u16(0), ty: RtAttrType(buf.peek_u16(2)) }
}

/// Stage one: splits a response into frames, stopping at the first
/// incomplete frame or at the `Done` frame that ends a dump.
pub fn parse_nlm_raw(buf: &[u8]) -> (r: Vec<NlMsgRaw>)
    ensures
        r@.map_values(|m: NlMsgRaw| m@) == nl_frames(buf@),
{
    let mut cur = BufCursor::new(buf);
    let mut out: Vec<NlMsgRaw> = Vec::new();
    assert(out@.map_values(|m: NlMsgRaw| m@) + nl_frames(cur@) =~= nl_frames(buf@));
    loop
        invariant_except_break
            out@.map_values(|m: NlMsgRaw| m@) + nl_frames(cur@) == nl_frames(buf@),
        ensures
            out@.map_values(|m: NlMsgRaw| m@) == nl_frames(buf@),
        decreases cur@.len(),
    {
        if !nlmsg_ok(&cur) {
            assert(out@.map_values(|m: NlMsgRaw| m@) =~= nl_frames(buf@));
            break ;
        }
        let hdr = peek_nlmsghdr(&cur);
        if hdr.ty.0 == NLMSG_DONE {
            assert(out@.map_values(|m: NlMsgRaw| m@) =~= nl_frames(buf@));
            break ;
        }
        let ghost before = cur@;
        let len = hdr.len as usize;
        let frame = cur.consume_bytes(len);
        let payload = vstd::slice::slice_to_vec(vstd::slice::slice_subrange(frame, NLMSG_HDRLEN, len));
        let ghost old_out = out@;
        out.push(NlMsgRaw { hdr, payload });
        proof {
            let head = seq![(hdr, before.subrange(NLMSG_HDRLEN as int, len as int))];
            assert(payload@ =~= before.subrange(NLMSG_HDRLEN as int, len as int));
            assert(nl_frames(before) == head + nl_frames(cur@));
            assert(out@.map_values(|m: NlMsgRaw| m@) =~= old_out.map_values(|m: NlMsgRaw| m@)
                + head);
            assert(out@.map_values(|m: NlMsgRaw| m@) + nl_frames(cur@) =~= old_out.map_values(
                |m: NlMsgRaw| m@,
            ) + (head + nl_frames(cur@)));
        }
    }
    out
}

////////////////////////////////////////////////////////////////////////////////
//// Codes

impl NlMsgType {
    pub open spec fn spec_to_kind(&self) -> NlMsgTypeKind {
        let v = self.0;
        if v == 1 {
            NlMsgTypeKind::Ctrl(NlMsgCtrlType::NoOp)
        } else if v == 2 {
            NlMsgTypeKind::Ctrl(NlMsgCtrlType::Error)
        } else if v == 3 {
            NlMsgTypeKind::Ctrl(NlMsgCtrlType::Done)
        } else if v == 4 {
            NlMsgTypeKind::Ctrl(NlMsgCtrlType::OverRun)
        } else if v == 24 {
            NlMsgTypeKind::Route(NlMsgRouteType::NewRoute)
        } else if v == 26 {
            NlMsgTypeKind::Route(NlMsgRouteType::GetRoute)
        } else {
            NlMsgTypeKind::Oth(v)
        }
    }

    /// Control, route or other message type.
    #[verifier::when_used_as_spec(spec_to_kind)]
    pub fn to_kind(&self) -> (r: NlMsgTypeKind)
        ensures
            r == self.spec_to_kind(),
    {
        match self.0 {
            1 => NlMsgTypeKind::Ctrl(NlMsgCtrlType::NoOp),
            2 => NlMsgTypeKind::Ctrl(NlMsgCtrlType::Error),
            3 => NlMsgTypeKind::Ctrl(NlMsgCtrlType::Done),
            4 => NlMsgTypeKind::Ctrl(NlMsgCtrlType::OverRun),
            24 => NlMsgTypeKind::Route(NlMsgRouteType::NewRoute),
            26 => NlMsgTypeKind::Route(NlMsgRouteType::GetRoute),
            v => NlMsgTypeKind::Oth(v),
        }
    }
}

impl NlMsgCtrlType {
    pub open spec fn spec_to_bits(self) -> u16 {
        match self {
            NlMsgCtrlType::NoOp => 1,
            NlMsgCtrlType::Error => 2,
            NlMsgCtrlType::Done => 3,
            NlMsgCtrlType::OverRun => 4,
        }
    }

    #[verifier::when_used_as_spec(spec_to_bits)]
    pub fn to_bits(self) -> (r: u16)
        ensures
            r == self.spec_to_bits(),
    {
        match self {
            NlMsgCtrlType::NoOp => 1,
            NlMsgCtrlType::Error => 2,
            NlMsgCtrlType::Done => 3,
            NlMsgCtrlType::OverRun => 4,
        }
    }
}

impl NlMsgRouteType {
    pub open spec fn spec_to_bits(self) -> u16 {
        match self {
            NlMsgRouteType::NewRoute => 24,
            NlMsgRouteType::GetRoute => 26,
        }
    }

    #[verifier::when_used_as_spec(spec_to_bits)]
    pub fn to_bits(self) -> (r: u16)
        ensures
            r == self.spec_to_bits(),
    {
        match self {
            NlMsgRouteType::NewRoute => 24,
            NlMsgRouteType::GetRoute => 26,
        }
    }

    /// The raw message type.
    pub fn to_type(self) -> (r: NlMsgType)
        ensures
            r.0 == self.spec_to_bits(),
    {
        NlMsgType(self.to_bits())
    }
}

impl NlMsgStdFlag {
    pub open spec fn spec_to_bits(self) -> u16 {
        match self {
            NlMsgStdFlag::Request => 0x1,
            NlMsgStdFlag::Multi => 0x2,
            NlMsgStdFlag::Ack => 0x4,
            NlMsgStdFlag::Echo => 0x8,
            NlMsgStdFlag::DumpIntr => 0x10,
        }
    }

    #[verifier::when_used_as_spec(spec_to_bits)]
    pub fn to_bits(self) -> (r: u16)
        ensures
            r == self.spec_to_bits(),
    {
        match self {
            NlMsgStdFlag::Request => 0x1,
            NlMsgStdFlag::Multi => 0x2,
            NlMsgStdFlag::Ack => 0x4,
            NlMsgStdFlag::Echo => 0x8,
            NlMsgStdFlag::DumpIntr => 0x10,
        }
    }
}

impl NlMsgGetFlag {
    pub open spec fn spec_to_bits(self) -> u16 {
        match self {
            NlMsgGetFlag::Root => 0x100,
            NlMsgGetFlag::Match => 0x200,
            NlMsgGetFlag::Atomic => 0x400,
            NlMsgGetFlag::Dump => 0x300,
        }
    }

    #[verifier::when_used_as_spec(spec_to_bits)]
    pub fn to_bits(self) -> (r: u16)
        ensures
            r == self.spec_to_bits(),
    {
        match self {
            NlMsgGetFlag::Root => 0x100,
            NlMsgGetFlag::Match => 0x200,
            NlMsgGetFlag::Atomic => 0x400,
            NlMsgGetFlag::Dump => 0x300,
        }
    }
}

impl NlMsgNewFlag {
    pub open spec fn spec_to_bits(self) -> u16 {
        match self {
            NlMsgNewFlag::Replace => 0x100,
            NlMsgNewFlag::Exec => 0x200,
            NlMsgNewFlag::Create => 0x400,
            NlMsgNewFlag::Append => 0x800,
        }
    }

    #[verifier::when_used_as_spec(spec_to_bits)]
    pub fn to_bits(self) -> (r: u16)
        ensures
            r == self.spec_to_bits(),
    {
        match self {
            NlMsgNewFlag::Replace => 0x100,
            NlMsgNewFlag::Exec => 0x200,
            NlMsgNewFlag::Create => 0x400,
            NlMsgNewFlag::Append => 0x800,
        }
    }
}

impl NlMsgFlags {
    /// No flag set.
    pub fn new() -> (r: Self)
        ensures
            r.0 == 0,
    {
        NlMsgFlags(0)
    }

    /// These flags with `f` added.
    pub fn with_std(self, f: NlMsgStdFlag) -> (r: Self)
        ensures
            r.0 == self.0 | f.spec_to_bits(),
    {
        NlMsgFlags(self.0 | f.to_bits())
    }

    /// These flags with `f` added.
    pub fn with_get(self, f: NlMsgGetFlag) -> (r: Self)
        ensures
            r.0 == self.0 | f.spec_to_bits(),
    {
        NlMsgFlags(self.0 | f.to_bits())
    }

    /// These flags with `f` added.
    pub fn with_new(self, f: NlMsgNewFlag) -> (r: Self)
        ensures
            r.0 == self.0 | f.spec_to_bits(),
    {
        NlMsgFlags(self.0 | f.to_bits())
    }

    /// Whether `f` is set.
    pub fn has_std(&self, f: NlMsgStdFlag) -> (r: bool)
        ensures
            r == (self.0 & f.spec_to_bits() != 0),
    {
        self.0 & f.to_bits() != 0
    }
}

impl RtFamily {
    pub open spec fn spec_to_bits(self) -> u8 {
        match self {
            RtFamily::Unspec => 0,
            RtFamily::IPv4 => 2,
            RtFamily::IPv6 => 10,
            RtFamily::Other(v) => v,
        }
    }

    pub open spec fn spec_from_bits(v: u8) -> RtFamily {
        if v == 0 {
            RtFamily::Unspec
        } else if v == 2 {
            RtFamily::IPv4
        } else if v == 10 {
            RtFamily::IPv6
        } else {
            RtFamily::Other(v)
        }
    }

    #[verifier::when_used_as_spec(spec_to_bits)]
    pub fn to_bits(self) -> (r: u8)
        ensures
            r == self.spec_to_bits(),
    {
        match self {
            RtFamily::Unspec => 0,
            RtFamily::IPv4 => 2,
            RtFamily::IPv6 => 10,
            RtFamily::Other(v) => v,
        }
    }

    /// The family with code `v`.
    #[verifier::when_used_as_spec(spec_from_bits)]
    pub fn from_bits(v: u8) -> (r: RtFamily)
        ensures
            r == Self::spec_from_bits(v),
    {
        match v {
            0 => RtFamily::Unspec,
            2 => RtFamily::IPv4,
            10 => RtFamily::IPv6,
            _ => RtFamily::Other(v),
        }
    }

    /// `Other` holds only codes that have no name of their own.
    pub open spec fn canonical(&self) -> bool {
        Self::spec_from_bits(self.spec_to_bits()) == *self
    }
}

impl RtMsgScope {
    pub open spec fn spec_to_bits(self) -> u8 {
        match self {
            RtMsgScope::Universe => 0,
            RtMsgScope::Site => 200,
            RtMsgScope::Link => 253,
            RtMsgScope::Host => 254,
            RtMsgScope::Nowhere => 255,
            RtMsgScope::Other(v) => v,
        }
    }

    pub open spec fn spec_from_bits(v: u8) -> RtMsgScope {
        if v == 0 {
            RtMsgScope::Universe
        } else if v == 200 {
            RtMsgScope::Site
        } else if v == 253 {
            RtMsgScope::Link
        } else if v == 254 {
            RtMsgScope::Host
        } else if v == 255 {
            RtMsgScope::Nowhere
        } else {
            RtMsgScope::Other(v)
        }
    }

    #[verifier::when_used_as_spec(spec_to_bits)]
    pub fn to_bits(self) -> (r: u8)
        ensures
            r == self.spec_to_bits(),
    {
        match self {
            RtMsgScope::Universe => 0,
            RtMsgScope::Site => 200,
            RtMsgScope::Link => 253,
            RtMsgScope::Host => 254,
            RtMsgScope::Nowhere => 255,
            RtMsgScope::Other(v) => v,
        }
    }

    /// The scope with code `v`.
    #[verifier::when_used_as_spec(spec_from_bits)]
    pub fn from_bits(v: u8) -> (r: RtMsgScope)
        ensures
            r == Self::spec_from_bits(v),
    {
        match v {
            0 => RtMsgScope::Universe,
            200 => RtMsgScope::Site,
            253 => RtMsgScope::Link,
            254 => RtMsgScope::Host,
            255 => RtMsgScope::Nowhere,
            _ => RtMsgScope::Other(v),
        }
    }

    /// `Other` holds only codes that have no name of their own.
    pub open spec fn canonical(&self) -> bool {
        Self::spec_from_bits(self.spec_to_bits()) == *self
    }
}

impl RtType {
    pub open spec fn spec_to_bits(self) -> u8 {
        match self {
            RtType::Unspec => 0,
            RtType::Unicast => 1,
            RtType::Local => 2,
            RtType::Broadcast => 3,
            RtType::Anycast => 4,
            RtType::Multicast => 5,
            RtType::Blackhole => 6,
            RtType::Unreachable => 7,
            RtType::Prohibit => 8,
            RtType::Throw => 9,
            RtType::Nat => 10,
            RtType::Xresolve => 11,
            RtType::Other(v) => v,
        }
    }

    pub open spec fn spec_from_bits(v: u8) -> RtType {
        if v == 0 {
            RtType::Unspec
        } else if v == 1 {
            RtType::Unicast
        } else if v == 2 {
            RtType::Local
        } else if v == 3 {
            RtType::Broadcast
        } else if v == 4 {
            RtType::Anycast
        } else if v == 5 {
            RtType::Multicast
        } else if v == 6 {
            RtType::Blackhole
        } else if v == 7 {
            RtType::Unreachable
        } else if v == 8 {
            RtType::Prohibit
        } else if v == 9 {
            RtType::Throw
        } else if v == 10 {
            RtType::Nat
        } else if v == 11 {
            RtType::Xresolve
        } else {
            RtType::Other(v)
        }
    }

    #[verifier::when_used_as_spec(spec_to_bits)]
    pub fn to_bits(self) -> (r: u8)
        ensures
            r == self.spec_to_bits(),
    {
        match self {
            RtType::Unspec => 0,
            RtType::Unicast => 1,
            RtType::Local => 2,
            RtType::Broadcast => 3,
            RtType::Anycast => 4,
            RtType::Multicast => 5,
            RtType::Blackhole => 6,
            RtType::Unreachable => 7,
            RtType::Prohibit => 8,
            RtType::Throw => 9,
            RtType::Nat => 10,
            RtType::Xresolve => 11,
            RtType::Other(v) => v,
        }
    }

    /// The route type with code `v`.
    #[verifier::when_used_as_spec(spec_from_bits)]
    pub fn from_bits(v: u8) -> (r: RtType)
        ensures
            r == Self::spec_from_bits(v),
    {
        match v {
            0 => RtType::Unspec,
            1 => RtType::Unicast,
            2 => RtType::Local,
            3 => RtType::Broadcast,
            4 => RtType::Anycast,
            5 => RtType::Multicast,
            6 => RtType::Blackhole,
            7 => RtType::Unreachable,
            8 => RtType::Prohibit,
            9 => RtType::Throw,
            10 => RtType::Nat,
            11 => RtType::Xresolve,
            _ => RtType::Other(v),
        }
    }

    /// `Other` holds only codes that have no name of their own.
    pub open spec fn canonical(&self) -> bool {
        Self::spec_from_bits(self.spec_to_bits()) == *self
    }
}

impl RtMsgTable {
    /// Table 0.
    pub fn unspec() -> (r: Self)
        ensures
            r.0 == 0,
    {
        RtMsgTable(0)
    }

    /// Table 252.
    pub fn compat() -> (r: Self)
        ensures
            r.0 == 252,
    {
        RtMsgTable(252)
    }

    /// Table 253.
    pub fn default_table() -> (r: Self)
        ensures
            r.0 == 253,
    {
        RtMsgTable(253)
    }

    /// The main table, 254.
    pub fn main() -> (r: Self)
        ensures
            r.0 == 254,
    {
        RtMsgTable(254)
    }

    /// The local table, 255.
    pub fn local() -> (r: Self)
        ensures
            r.0 == 255,
    {
        RtMsgTable(255)
    }

    /// A user-defined table, 1 to 251.
    pub fn custom(v: u8) -> (r: Self)
        requires
            0 < v <= 251,
        ensures
            r.0 == v,
    {
        RtMsgTable(v)
    }
}

impl RtMsgProto {
    /// Origin 0: unknown.
    pub fn unspec() -> (r: Self)
        ensures
            r.0 == 0,
    {
        RtMsgProto(0)
    }

    /// Origin 1: installed by an ICMP redirect.
    pub fn redirect() -> (r: Self)
        ensures
            r.0 == 1,
    {
        RtMsgProto(1)
    }

    /// Origin 2: installed by the kernel.
    pub fn kernel() -> (r: Self)
        ensures
            r.0 == 2,
    {
        RtMsgProto(2)
    }

    /// Origin 3: installed during boot.
    pub fn boot() -> (r: Self)
        ensures
            r.0 == 3,
    {
        RtMsgProto(3)
    }

    /// Origin 4: installed by the administrator.
    pub fn static_route() -> (r: Self)
        ensures
            r.0 == 4,
    {
        RtMsgProto(4)
    }

    /// A user-defined origin, 5 or more.
    pub fn custom(v: u8) -> (r: Self)
        requires
            v >= 5,
        ensures
            r.0 == v,
    {
        RtMsgProto(v)
    }
}

impl RtMsgFlag {
    pub open spec fn spec_to_bits(self) -> u32 {
        match self {
            RtMsgFlag::Notify => 0x100,
            RtMsgFlag::Cloned => 0x200,
            RtMsgFlag::Equalize => 0x400,
            RtMsgFlag::Prefix => 0x800,
        }
    }

    #[verifier::when_used_as_spec(spec_to_bits)]
    pub fn to_bits(self) -> (r: u32)
        ensures
            r == self.spec_to_bits(),
    {
        match self {
            RtMsgFlag::Notify => 0x100,
            RtMsgFlag::Cloned => 0x200,
            RtMsgFlag::Equalize => 0x400,
            RtMsgFlag::Prefix => 0x800,
        }
    }
}

impl RtMsgFlags {
    /// These flags with `f` added.
    pub fn with(self, f: RtMsgFlag) -> (r: Self)
        ensures
            r.0 == self.0 | f.spec_to_bits(),
    {
        RtMsgFlags(self.0 | f.to_bits())
    }
}

impl RtAttrType {
    pub open spec fn spec_to_kind(&self) -> RtAttrKind {
        if self.0 == 3 {
            RtAttrKind::Iif
        } else if self.0 == 4 {
            RtAttrKind::Oif
        } else if self.0 == 5 {
            RtAttrKind::Gateway
        } else {
            RtAttrKind::Oth(self.0)
        }
    }

    /// Input interface, output interface, gateway or other.
    #[verifier::when_used_as_spec(spec_to_kind)]
    pub fn to_kind(&self) -> (r: RtAttrKind)
        ensures
            r == self.spec_to_kind(),
    {
        match self.0 {
            3 => RtAttrKind::Iif,
            4 => RtAttrKind::Oif,
            5 => RtAttrKind::Gateway,
            x => RtAttrKind::Oth(x),
        }
    }
}

impl RtAttrKind {
    pub open spec fn spec_to_bits(self) -> u16 {
        match self {
            RtAttrKind::Iif => 3,
            RtAttrKind::Oif => 4,
            RtAttrKind::Gateway => 5,
            RtAttrKind::Oth(v) => v,
        }
    }

    #[verifier::when_used_as_spec(spec_to_bits)]
    pub fn to_bits(self) -> (r: u16)
        ensures
            r == self.spec_to_bits(),
    {
        match self {
            RtAttrKind::Iif => 3,
            RtAttrKind::Oif => 4,
            RtAttrKind::Gateway => 5,
            RtAttrKind::Oth(v) => v,
        }
    }

    /// The raw attribute type.
    pub fn to_type(self) -> (r: RtAttrType)
        ensures
            r.0 == self.spec_to_bits(),
    {
        RtAttrType(self.to_bits())
    }
}

impl RtReqAttr {
    pub open spec fn spec_kind(&self) -> RtAttrKind {
        match *self {
            RtReqAttr::OIf(_) => RtAttrKind::Oif,
            RtReqAttr::IIf(_) => RtAttrKind::Iif,
        }
    }

    /// Kind of the attribute.
    #[verifier::when_used_as_spec(spec_kind)]
    pub fn kind(&self) -> (r: RtAttrKind)
        ensures
            r == self.spec_kind(),
    {
        match self {
            RtReqAttr::OIf(..) => RtAttrKind::Oif,
            RtReqAttr::IIf(..) => RtAttrKind::Iif,
        }
    }

    /// Header of this attribute for a payload of `data_len` bytes.
    pub fn header(&self, data_len: usize) -> (r: RtAttrHdr)
        requires
            data_len <= u16::MAX - RTA_HDRLEN,
        ensures
            r.len == RTA_HDRLEN + data_len,
            r.ty.0 == self.kind().spec_to_bits(),
    {
        RtAttrHdr { len: rta_len(data_len) as u16, ty: self.kind().to_type() }
    }
}

////////////////////////////////////////////////////////////////////////////////
//// Route messages

/// The route header held by the first 12 bytes of `p`, if `p` is that
/// long.
pub open spec fn rtmsghdr_of(p: Seq<u8>) -> Option<RtMsgHdr> {
    if p.len() < RTMSG_HDRLEN {
        None
    } else {
        Some(
            RtMsgHdr {
                family: RtFamily::spec_from_bits(p[0]),
                dst_len: p[1],
                src_len: p[2],
                tos: p[3],
                table: RtMsgTable(p[4]),
                protocol: RtMsgProto(p[5]),
                scope: RtMsgScope::spec_from_bits(p[6]),
                ty: RtType::spec_from_bits(p[7]),
                flags: RtMsgFlags(le32_at(p, 8)),
            },
        )
    }
}

impl RtMsgHdr {
    /// Every code is held by its own variant (`Other` only for codes
    /// without a name), as decoding gives it.
    pub open spec fn canonical(&self) -> bool {
        self.family.canonical() && self.scope.canonical() && self.ty.canonical()
    }
}

/// Stage two: each frame read as a route header followed by attributes.
/// A frame whose payload is shorter than a route header is left out.
pub open spec fn route_msgs(frames: Seq<(NlMsgHdr, Seq<u8>)>) -> Seq<
    (RtMsgHdr, Seq<(RtAttrHdr, Seq<u8>)>),
>
    decreases frames.len(),
{
    if frames.len() == 0 {
        Seq::empty()
    } else {
        let p = frames[0].1;
        let rest = route_msgs(frames.skip(1));
        match rtmsghdr_of(p) {
            Some(h) => seq![(h, rt_attrs(p.skip(RTMSG_HDRLEN as int)))] + rest,
            None => rest,
        }
    }
}

/// The native-order `i32` at the start of `p`.
pub open spec fn i32_at(p: Seq<u8>) -> i32 {
    le32_at(p, 0) as i32
}

/// Stage three for one attribute. An interface index is the first four
/// bytes in native order; a gateway is 4 bytes for an IPv4 route and 16
/// for an IPv6 one. Anything else, or a payload of the wrong size, is
/// `Oth`.
pub open spec fn decode_attr(family: RtFamily, a: (RtAttrHdr, Seq<u8>)) -> RtRespAttr {
    let p = a.1;
    match a.0.ty.spec_to_kind() {
        RtAttrKind::Iif => if p.len() >= 4 {
            RtRespAttr::IIf(i32_at(p))
        } else {
            RtRespAttr::Oth
        },
        RtAttrKind::Oif => if p.len() >= 4 {
            RtRespAttr::OIf(i32_at(p))
        } else {
            RtRespAttr::Oth
        },
        RtAttrKind::Gateway => match family {
            RtFamily::IPv4 => if p.len() == 4 {
                RtRespAttr::Gateway(IpAddr::V4([p[0], p[1], p[2], p[3]]))
            } else {
                RtRespAttr::Oth
            },
            RtFamily::IPv6 => if p.len() == 16 {
                RtRespAttr::Gateway(
                    IpAddr::V6(
                        [
                            p[0],
                            p[1],
                            p[2],
                            p[3],
                            p[4],
                            p[5],
                            p[6],
                            p[7],
                            p[8],
                            p[9],
                            p[10],
                            p[11],
                            p[12],
                            p[13],
                            p[14],
                            p[15],
                        ],
                    ),
                )
            } else {
                RtRespAttr::Oth
            },
            RtFamily::Unspec | RtFamily::Other(_) => RtRespAttr::Oth,
        },
        RtAttrKind::Oth(_) => RtRespAttr::Oth,
    }
}

/// Stage three: every attribute of every message decoded.
pub open spec fn decode_msgs(msgs: Seq<(RtMsgHdr, Seq<(RtAttrHdr, Seq<u8>)>)>) -> Seq<
    (RtMsgHdr, Seq<RtRespAttr>),
> {
    msgs.map_values(
        |m: (RtMsgHdr, Seq<(RtAttrHdr, Seq<u8>)>)|
            (m.0, m.1.map_values(|a: (RtAttrHdr, Seq<u8>)| decode_attr(m.0.family, a))),
    )
}

/// The first output-interface attribute.
pub open spec fn first_oif(attrs: Seq<RtRespAttr>) -> Option<i32>
    decreases attrs.len(),
{
    if attrs.len() == 0 {
        None
    } else {
        match attrs[0] {
            RtRespAttr::OIf(i) => Some(i),
            _ => first_oif(attrs.skip(1)),
        }
    }
}

/// The first gateway attribute.
pub open spec fn first_gateway(attrs: Seq<RtRespAttr>) -> Option<IpAddr>
    decreases attrs.len(),
{
    if attrs.len() == 0 {
        None
    } else {
        match attrs[0] {
            RtRespAttr::Gateway(ip) => Some(ip),
            _ => first_gateway(attrs.skip(1)),
        }
    }
}

/// Whether a message is an IPv4 route whose output interface is `ifindex`.
pub open spec fn routes_ipv4_via(m: (RtMsgHdr, Seq<RtRespAttr>), ifindex: i32) -> bool {
    m.0.family == RtFamily::IPv4 && first_oif(m.1) == Some(ifindex)
}

/// The IPv4 gateway of the first IPv4 route out of `ifindex` that names
/// one.
pub open spec fn select_gateway(msgs: Seq<(RtMsgHdr, Seq<RtRespAttr>)>, ifindex: i32) -> Option<
    [u8; 4],
>
    decreases msgs.len(),
{
    if msgs.len() == 0 {
        None
    } else if routes_ipv4_via(msgs[0], ifindex) {
        match first_gateway(msgs[0].1) {
            Some(IpAddr::V4(a)) => Some(a),
            _ => select_gateway(msgs.skip(1), ifindex),
        }
    } else {
        select_gateway(msgs.skip(1), ifindex)
    }
}

/// The gateway that a route dump `buf` gives for interface `ifindex`.
pub open spec fn response_gateway(buf: Seq<u8>, ifindex: i32) -> Option<[u8; 4]> {
    select_gateway(decode_msgs(route_msgs(nl_frames(buf))), ifindex)
}

/// Reads the route header at the start of `p`, if `p` is long enough.
pub fn read_rtmsghdr(p: &[u8]) -> (r: Option<RtMsgHdr>)
    ensures
        r == rtmsghdr_of(p@),
{
    if p.len() < RTMSG_HDRLEN {
        return None;
    }
    Some(
        RtMsgHdr {
            family: RtFamily::from_bits(p[0]),
            dst_len: p[1],
            src_len: p[2],
            tos: p[3],
            table: RtMsgTable(p[4]),
            protocol: RtMsgProto(p[5]),
            scope: RtMsgScope::from_bits(p[6]),
            ty: RtType::from_bits(p[7]),
            flags: RtMsgFlags(read_u32_ne(p, 8)),
        },
    )
}

/// Splits `buf` into route attributes, up to the first incomplete one.
pub fn parse_rta_raw(buf: &[u8]) -> (r: Vec<RtAttrRaw>)
    ensures
        r@.map_values(|a: RtAttrRaw| a@) == rt_attrs(buf@),
{
    let mut cur = BufCursor::new(buf);
    let mut out: Vec<RtAttrRaw> = Vec::new();
    assert(out@.map_values(|a: RtAttrRaw| a@) + rt_attrs(cur@) =~= rt_attrs(buf@));
    loop
        invariant_except_break
            out@.map_values(|a: RtAttrRaw| a@) + rt_attrs(cur@) == rt_attrs(buf@),
        ensures
            out@.map_values(|a: RtAttrRaw| a@) == rt_attrs(buf@),
        decreases cur@.len(),
    {
        if !rta_ok(&cur) {
            assert(out@.map_values(|a: RtAttrRaw| a@) =~= rt_attrs(buf@));
            break ;
        }
        let hdr = peek_rtattrhdr(&cur);
        let ghost before = cur@;
        let len = hdr.len as usize;
        let attr = cur.consume_bytes(len);
        let payload = vstd::slice::slice_to_vec(vstd::slice::slice_subrange(attr, RTA_HDRLEN, len));
        let ghost old_out = out@;
        out.push(RtAttrRaw { hdr, payload });
        proof {
            let head = seq![(hdr, before.subrange(RTA_HDRLEN as int, len as int))];
            assert(payload@ =~= before.subrange(RTA_HDRLEN as int, len as int));
            assert(rt_attrs(before) == head + rt_attrs(cur@));
            assert(out@.map_values(|a: RtAttrRaw| a@) =~= old_out.map_values(|a: RtAttrRaw| a@)
                + head);
            assert(out@.map_values(|a: RtAttrRaw| a@) + rt_attrs(cur@) =~= old_out.map_values(
                |a: RtAttrRaw| a@,
            ) + (head + rt_attrs(cur@)));
        }
    }
    out
}

/// Stage two: reads each frame as a route message with raw attributes,
/// leaving out frames too short to hold a route header.
pub fn parse_rtm_raw(nlmsgs: Vec<NlMsgRaw>) -> (r: Vec<RtMsgRaw>)
    ensures
        r@.map_values(|m: RtMsgRaw| m@) == route_msgs(nlmsgs@.map_values(|m: NlMsgRaw| m@)),
{
    let ghost frames = nlmsgs@.map_values(|m: NlMsgRaw| m@);
    let mut out: Vec<RtMsgRaw> = Vec::new();
    let mut i: usize = 0;
    assert(frames.skip(0) =~= frames);
    assert(out@.map_values(|m: RtMsgRaw| m@) + route_msgs(frames.skip(0)) =~= route_msgs(frames));
    while i < nlmsgs.len()
        invariant
            i <= nlmsgs@.len(),
            frames == nlmsgs@.map_values(|m: NlMsgRaw| m@),
            out@.map_values(|m: RtMsgRaw| m@) + route_msgs(frames.skip(i as int)) == route_msgs(
                frames,
            ),
        decreases nlmsgs@.len() - i,
    {
        let p = nlmsgs[i].payload.as_slice();
        assert(frames.skip(i as int)[0].1 == p@);
        assert(frames.skip(i as int).skip(1) =~= frames.skip(i + 1));
        let ghost old_out = out@;
        match read_rtmsghdr(p) {
            Some(hdr) => {
                let attrs = parse_rta_raw(vstd::slice::slice_subrange(p, RTMSG_HDRLEN, p.len()));
                proof {
                    assert(p@.subrange(RTMSG_HDRLEN as int, p@.len() as int) =~= p@.skip(
                        RTMSG_HDRLEN as int,
                    ));
                }
                out.push(RtMsgRaw { hdr, attrs });
                proof {
                    let head = seq![(hdr, rt_attrs(p@.skip(RTMSG_HDRLEN as int)))];
                    assert(out@.map_values(|m: RtMsgRaw| m@) =~= old_out.map_values(
                        |m: RtMsgRaw| m@,
                    ) + head);
                    assert(out@.map_values(|m: RtMsgRaw| m@) + route_msgs(frames.skip(i + 1))
                        =~= old_out.map_values(|m: RtMsgRaw| m@) + (head + route_msgs(
                        frames.skip(i + 1),
                    )));
                }
            },
            None => {},
        }
        i = i + 1;
    }
    assert(frames.skip(i as int) =~= Seq::<(NlMsgHdr, Seq<u8>)>::empty());
    assert(out@.map_values(|m: RtMsgRaw| m@) =~= route_msgs(frames));
    out
}

impl RtRespAttr {
    /// Decodes one attribute of a route message with header `rth`.
    pub fn parse_from_raw_rta(rth: RtMsgHdr, rta: &RtAttrRaw) -> (r: Self)
        ensures
            r == decode_attr(rth.family, rta@),
    {
        let p = rta.payload.as_slice();
        match rta.hdr.ty.to_kind() {
            RtAttrKind::Iif => if p.len() >= 4 {
                RtRespAttr::IIf(read_u32_ne(p, 0) as i32)
            } else {
                RtRespAttr::Oth
            },
            RtAttrKind::Oif => if p.len() >= 4 {
                RtRespAttr::OIf(read_u32_ne(p, 0) as i32)
            } else {
                RtRespAttr::Oth
            },
            RtAttrKind::Gateway => match rth.family {
                RtFamily::IPv4 => if p.len() == 4 {
                    RtRespAttr::Gateway(IpAddr::V4([p[0], p[1], p[2], p[3]]))
                } else {
                    RtRespAttr::Oth
                },
                RtFamily::IPv6 => if p.len() == 16 {
                    RtRespAttr::Gateway(
                        IpAddr::V6(
                            [
                                p[0],
                                p[1],
                                p[2],
                                p[3],
                                p[4],
                                p[5],
                                p[6],
                                p[7],
                                p[8],
                                p[9],
                                p[10],
                                p[11],
                                p[12],
                                p[13],
                                p[14],
                                p[15],
                            ],
                        ),
                    )
                } else {
                    RtRespAttr::Oth
                },
                RtFamily::Unspec | RtFamily::Other(_) => RtRespAttr::Oth,
            },
            RtAttrKind::Oth(_) => RtRespAttr::Oth,
        }
    }
}

/// Stage three: decodes the attributes of every route message.
pub fn parse_rtm_resp(raw_rtmsgs: Vec<RtMsgRaw>) -> (r: Vec<RtMsg>)
    ensures
        r@.map_values(|m: RtMsg| m@) == decode_msgs(raw_rtmsgs@.map_values(|m: RtMsgRaw| m@)),
{
    let ghost raws = raw_rtmsgs@.map_values(|m: RtMsgRaw| m@);
    let mut out: Vec<RtMsg> = Vec::new();
    let mut i: usize = 0;
    while i < raw_rtmsgs.len()
        invariant
            i <= raw_rtmsgs@.len(),
            raws == raw_rtmsgs@.map_values(|m: RtMsgRaw| m@),
            out@.map_values(|m: RtMsg| m@) =~= decode_msgs(raws).take(i as int),
        decreases raw_rtmsgs@.len() - i,
    {
        let m = &raw_rtmsgs[i];
        let hdr = m.hdr;
        let mut attrs: Vec<RtRespAttr> = Vec::new();
        let mut j: usize = 0;
        while j < m.attrs.len()
            invariant
                j <= m.attrs@.len(),
                attrs@ =~= m@.1.map_values(|a: (RtAttrHdr, Seq<u8>)| decode_attr(hdr.family, a)).take(
                    j as int,
                ),
                hdr == m.hdr,
            decreases m.attrs@.len() - j,
        {
            attrs.push(RtRespAttr::parse_from_raw_rta(hdr, &m.attrs[j]));
            j = j + 1;
        }
        let ghost old_out = out@;
        out.push(RtMsg { hdr, attrs });
        proof {
            assert(attrs@ =~= m@.1.map_values(|a: (RtAttrHdr, Seq<u8>)| decode_attr(hdr.family, a)));
            assert(decode_msgs(raws)[i as int] == (hdr, attrs@));
            assert(out@.map_values(|m: RtMsg| m@) =~= old_out.map_values(|m: RtMsg| m@).push(
                (hdr, attrs@),
            ));
        }
        i = i + 1;
    }
    assert(decode_msgs(raws).take(i as int) =~= decode_msgs(raws));
    out
}

impl RtMsg {
    /// The first gateway attribute of the message.
    pub fn get_gateway(&self) -> (r: Option<IpAddr>)
        ensures
            r == first_gateway(self.attrs@),
    {
        let mut i: usize = 0;
        assert(self.attrs@.skip(0) =~= self.attrs@);
        while i < self.attrs.len()
            invariant
                i <= self.attrs@.len(),
                first_gateway(self.attrs@) == first_gateway(self.attrs@.skip(i as int)),
            decreases self.attrs@.len() - i,
        {
            assert(self.attrs@.skip(i as int).skip(1) =~= self.attrs@.skip(i + 1));
            if let RtRespAttr::Gateway(ip) = self.attrs[i] {
                return Some(ip);
            }
            i = i + 1;
        }
        None
    }

    /// The first output-interface attribute of the message.
    pub fn get_oif(&self) -> (r: Option<i32>)
        ensures
            r == first_oif(self.attrs@),
    {
        let mut i: usize = 0;
        assert(self.attrs@.skip(0) =~= self.attrs@);
        while i < self.attrs.len()
            invariant
                i <= self.attrs@.len(),
                first_oif(self.attrs@) == first_oif(self.attrs@.skip(i as int)),
            decreases self.attrs@.len() - i,
        {
            assert(self.attrs@.skip(i as int).skip(1) =~= self.attrs@.skip(i + 1));
            if let RtRespAttr::OIf(x) = self.attrs[i] {
                return Some(x);
            }
            i = i + 1;
        }
        None
    }
}

/// Filter and extract: among the IPv4 routes whose output interface is
/// `ifindex`, the first gateway found.
pub fn select_ipv4_gateway(msgs: &Vec<RtMsg>, ifindex: i32) -> (r: Option<[u8; 4]>)
    ensures
        r == select_gateway(msgs@.map_values(|m: RtMsg| m@), ifindex),
{
    let ghost all = msgs@.map_values(|m: RtMsg| m@);
    let mut i: usize = 0;
    assert(all.skip(0) =~= all);
    while i < msgs.len()
        invariant
            i <= msgs@.len(),
            all == msgs@.map_values(|m: RtMsg| m@),
            select_gateway(all, ifindex) == select_gateway(all.skip(i as int), ifindex),
        decreases msgs@.len() - i,
    {
        let m = &msgs[i];
        assert(all.skip(i as int).skip(1) =~= all.skip(i + 1));
        assert(all.skip(i as int)[0] == m@);
        let is_ipv4 = match m.hdr.family {
            RtFamily::IPv4 => true,
            _ => false,
        };
        if is_ipv4 {
            match m.get_oif() {
                Some(oif) => {
                    if oif == ifindex {
                        match m.get_gateway() {
                            Some(IpAddr::V4(a)) => {
                                return Some(a);
                            },
                            _ => {},
                        }
                    }
                },
                None => {},
            }
        }
        i = i + 1;
    }
    None
}

/// Runs the three parsing stages over a route dump and picks the IPv4
/// gateway of interface `ifindex`; `None` when no route names one.
pub fn gateway_from_response(buf: &[u8], ifindex: i32) -> (r: Option<[u8; 4]>)
    ensures
        r == response_gateway(buf@, ifindex),
{
    let nlmsgs = parse_nlm_raw(buf);
    let rtmsgs_raw = parse_rtm_raw(nlmsgs);
    let rtmsgs = parse_rtm_resp(rtmsgs_raw);
    select_ipv4_gateway(&rtmsgs, ifindex)
}

////////////////////////////////////////////////////////////////////////////////
//// Building

/// The 12 bytes of a route header.
pub open spec fn rtmsghdr_bytes(h: RtMsgHdr) -> Seq<u8> {
    seq![
        h.family.spec_to_bits(),
        h.dst_len,
        h.src_len,
        h.tos,
        h.table.0,
        h.protocol.0,
        h.scope.spec_to_bits(),
        h.ty.spec_to_bits(),
    ] + le32(h.flags.0)
}

/// One attribute of type `ty`: header, payload, and zero padding up to
/// the next multiple of four.
pub open spec fn attr_bytes(ty: u16, payload: Seq<u8>) -> Seq<u8> {
    le16((RTA_HDRLEN + payload.len()) as u16) + le16(ty) + payload + zeros(
        align4(payload.len() as int) - payload.len(),
    )
}

/// Attributes laid out one after the other.
pub open spec fn attrs_bytes(attrs: Seq<(u16, Seq<u8>)>) -> Seq<u8>
    decreases attrs.len(),
{
    if attrs.len() == 0 {
        Seq::empty()
    } else {
        attr_bytes(attrs[0].0, attrs[0].1) + attrs_bytes(attrs.skip(1))
    }
}

/// The netlink header of a message of type `ty` with flags `flags`,
/// sequence number `seq` and port id `pid`, around a payload of
/// `payload_len` bytes.
pub open spec fn frame_header(ty: u16, flags: u16, seq: u32, pid: u32, payload_len: int) -> NlMsgHdr {
    NlMsgHdr {
        len: (NLMSG_HDRLEN + payload_len) as u32,
        ty: NlMsgType(ty),
        flags: NlMsgFlags(flags),
        seq,
        pid,
    }
}

/// A whole route message: netlink header, route header, attributes.
pub open spec fn route_message_bytes(
    ty: u16,
    flags: u16,
    seq: u32,
    pid: u32,
    rth: RtMsgHdr,
    attrs: Seq<(u16, Seq<u8>)>,
) -> Seq<u8> {
    let body = rtmsghdr_bytes(rth) + attrs_bytes(attrs);
    nlmsghdr_bytes(frame_header(ty, flags, seq, pid, body.len() as int)) + body
}

/// Route header of the dump request: IPv4, main table, everything else 0.
pub open spec fn route_request_hdr() -> RtMsgHdr {
    RtMsgHdr {
        family: RtFamily::IPv4,
        dst_len: 0,
        src_len: 0,
        tos: 0,
        table: RtMsgTable(254),
        protocol: RtMsgProto(0),
        scope: RtMsgScope::Universe,
        ty: RtType::Unspec,
        flags: RtMsgFlags(0),
    }
}

/// Type `GetRoute` (26).
pub const RTM_GETROUTE: u16 = 26;

/// Flags `Request | Root | Match`.
pub const ROUTE_DUMP_FLAGS: u16 = 0x301;

/// Attribute type of an output interface.
pub const RTA_OIF: u16 = 4;

/// Attribute type of a gateway.
pub const RTA_GATEWAY: u16 = 5;

/// The request that dumps the IPv4 routes out of interface `ifindex`.
pub open spec fn route_request_bytes(ifindex: i32) -> Seq<u8> {
    route_message_bytes(
        RTM_GETROUTE,
        ROUTE_DUMP_FLAGS,
        0,
        0,
        route_request_hdr(),
        seq![(RTA_OIF, le32(ifindex as u32))],
    )
}

/// Appends the bytes of a netlink header.
pub fn write_nlmsghdr(out: &mut Vec<u8>, h: &NlMsgHdr)
    ensures
        final(out)@ == old(out)@ + nlmsghdr_bytes(*h),
{
    push_u32_ne(out, h.len);
    push_u16_ne(out, h.ty.0);
    push_u16_ne(out, h.flags.0);
    push_u32_ne(out, h.seq);
    push_u32_ne(out, h.pid);
    assert(out@ =~= old(out)@ + nlmsghdr_bytes(*h));
}

/// Appends the bytes of a route header.
pub fn write_rtmsghdr(out: &mut Vec<u8>, h: &RtMsgHdr)
    ensures
        final(out)@ == old(out)@ + rtmsghdr_bytes(*h),
{
    out.push(h.family.to_bits());
    out.push(h.dst_len);
    out.push(h.src_len);
    out.push(h.tos);
    out.push(h.table.0);
    out.push(h.protocol.0);
    out.push(h.scope.to_bits());
    out.push(h.ty.to_bits());
    push_u32_ne(out, h.flags.0);
    assert(out@ =~= old(out)@ + rtmsghdr_bytes(*h));
}

impl RtReqAttr {
    /// The interface index the attribute carries.
    pub open spec fn spec_index(&self) -> i32 {
        match *self {
            RtReqAttr::OIf(i) => i,
            RtReqAttr::IIf(i) => i,
        }
    }
}

impl FillBuf for RtReqAttr {
    /// Header (length 8, the attribute's type) and the index in native order.
    open spec fn wire_bytes(&self) -> Seq<u8> {
        attr_bytes(self.spec_kind().spec_to_bits(), le32(self.spec_index() as u32))
    }

    fn buf_len(&self) -> (r: usize) {
        assert(zeros(0) =~= Seq::<u8>::empty());
        rta_len(4)
    }

    fn fill_buf(&self, buf: &mut Vec<u8>) {
        let index = match self {
            RtReqAttr::OIf(i) => *i,
            RtReqAttr::IIf(i) => *i,
        };
        let hdr = self.header(4);
        push_u16_ne(buf, hdr.len);
        push_u16_ne(buf, hdr.ty.0);
        push_u32_ne(buf, index as u32);
        assert(zeros(0) =~= Seq::<u8>::empty());
        assert(buf@ =~= old(buf)@ + self.wire_bytes());
    }
}

/// Builds the route-dump request for interface `ifindex`: a `GetRoute`
/// message flagged `Request | Dump`, an IPv4 route header for the main
/// table, and one output-interface attribute holding `ifindex` in native
/// order. 36 bytes.
pub fn build_route_request(ifindex: i32) -> (r: Vec<u8>)
    ensures
        r@ == route_request_bytes(ifindex),
        r@.len() == 36,
{
    let oif = RtReqAttr::OIf(ifindex);
    let len = nlmsg_length(RTMSG_HDRLEN + oif.buf_len());
    let flags = NlMsgFlags::new().with_std(NlMsgStdFlag::Request).with_get(NlMsgGetFlag::Dump);
    assert((0u16 | 1u16) | 0x300u16 == 0x301u16) by (bit_vector);
    let nlh = NlMsgHdr {
        len: len as u32,
        ty: NlMsgRouteType::GetRoute.to_type(),
        flags,
        seq: 0,
        pid: 0,
    };
    let rth = RtMsgHdr {
        family: RtFamily::IPv4,
        dst_len: 0,
        src_len: 0,
        tos: 0,
        table: RtMsgTable::main(),
        protocol: RtMsgProto::unspec(),
        scope: RtMsgScope::Universe,
        ty: RtType::Unspec,
        flags: RtMsgFlags(0),
    };
    let mut out: Vec<u8> = Vec::new();
    write_nlmsghdr(&mut out, &nlh);
    write_rtmsghdr(&mut out, &rth);
    oif.fill_buf(&mut out);
    proof {
        let attrs = seq![(RTA_OIF, le32(ifindex as u32))];
        reveal_with_fuel(attrs_bytes, 2);
        assert(attrs.skip(1) =~= Seq::<(u16, Seq<u8>)>::empty());
        assert(zeros(0) =~= Seq::<u8>::empty());
        assert(attrs_bytes(attrs) =~= le16(8) + le16(RTA_OIF) + le32(ifindex as u32));
        assert(rth == route_request_hdr());
        assert(nlh == frame_header(RTM_GETROUTE, ROUTE_DUMP_FLAGS, 0, 0, 20));
        assert(out@ =~= route_request_bytes(ifindex));
    }
    out
}

////////////////////////////////////////////////////////////////////////////////
//// Properties

/// A netlink header reads back from its bytes.
pub proof fn lemma_nlmsghdr_round_trip(h: NlMsgHdr, rest: Seq<u8>)
    ensures
        nlmsghdr_of(nlmsghdr_bytes(h) + rest) == h,
        (nlmsghdr_bytes(h) + rest).len() == NLMSG_HDRLEN + rest.len(),
{
    let s = nlmsghdr_bytes(h) + rest;
    assert(s.subrange(0, 4) =~= le32(h.len));
    assert(s.subrange(4, 6) =~= le16(h.ty.0));
    assert(s.subrange(6, 8) =~= le16(h.flags.0));
    assert(s.subrange(8, 12) =~= le32(h.seq));
    assert(s.subrange(12, 16) =~= le32(h.pid));
    lemma_le32_at(s, 0, h.len);
    lemma_le16_at(s, 4, h.ty.0);
    lemma_le16_at(s, 6, h.flags.0);
    lemma_le32_at(s, 8, h.seq);
    lemma_le32_at(s, 12, h.pid);
}

/// A route header reads back from its bytes.
pub proof fn lemma_rtmsghdr_round_trip(h: RtMsgHdr, rest: Seq<u8>)
    requires
        h.canonical(),
    ensures
        rtmsghdr_of(rtmsghdr_bytes(h) + rest) == Some(h),
{
    let s = rtmsghdr_bytes(h) + rest;
    assert(s.subrange(8, 12) =~= le32(h.flags.0));
    lemma_le32_at(s, 8, h.flags.0);
    assert(s[0] == h.family.spec_to_bits());
    assert(s[6] == h.scope.spec_to_bits());
    assert(s[7] == h.ty.spec_to_bits());
    assert(RtFamily::spec_from_bits(s[0]) == h.family);
    assert(RtMsgScope::spec_from_bits(s[6]) == h.scope);
    assert(RtType::spec_from_bits(s[7]) == h.ty);
}

/// An attribute whose payload needs no padding is read back, and reading
/// goes on right after it.
pub proof fn lemma_attr_round_trip(ty: u16, payload: Seq<u8>, rest: Seq<u8>)
    requires
        payload.len() % 4 == 0,
        RTA_HDRLEN + payload.len() <= u16::MAX,
    ensures
        rt_attrs(attr_bytes(ty, payload) + rest) == seq![
            (RtAttrHdr { len: (RTA_HDRLEN + payload.len()) as u16, ty: RtAttrType(ty) }, payload),
        ] + rt_attrs(rest),
{
    let len = (RTA_HDRLEN + payload.len()) as u16;
    let s = attr_bytes(ty, payload) + rest;
    assert(zeros(align4(payload.len() as int) - payload.len()) =~= Seq::<u8>::empty());
    assert(s =~= le16(len) + le16(ty) + payload + rest);
    assert(s.subrange(0, 2) =~= le16(len));
    assert(s.subrange(2, 4) =~= le16(ty));
    lemma_le16_at(s, 0, len);
    lemma_le16_at(s, 2, ty);
    assert(attr_ok(s));
    assert(rtattrhdr_of(s) == RtAttrHdr { len, ty: RtAttrType(ty) });
    assert(step_len(s, len as int) == len);
    assert(s.subrange(RTA_HDRLEN as int, len as int) =~= payload);
    assert(s.skip(len as int) =~= rest);
}

/// A frame whose payload needs no padding and whose type is not `Done` is
/// read back, and reading goes on right after it.
pub proof fn lemma_frame_round_trip(
    ty: u16,
    flags: u16,
    seq: u32,
    pid: u32,
    body: Seq<u8>,
    rest: Seq<u8>,
)
    requires
        ty != NLMSG_DONE,
        body.len() % 4 == 0,
        NLMSG_HDRLEN + body.len() <= u32::MAX,
    ensures
        nl_frames(nlmsghdr_bytes(frame_header(ty, flags, seq, pid, body.len() as int)) + body + rest)
            == seq![(frame_header(ty, flags, seq, pid, body.len() as int), body)] + nl_frames(rest),
{
    let h = frame_header(ty, flags, seq, pid, body.len() as int);
    let s = nlmsghdr_bytes(h) + body + rest;
    assert(s =~= nlmsghdr_bytes(h) + (body + rest));
    lemma_nlmsghdr_round_trip(h, body + rest);
    assert(frame_ok(s));
    assert(step_len(s, h.len as int) == h.len);
    assert(s.subrange(NLMSG_HDRLEN as int, h.len as int) =~= body);
    assert(s.skip(h.len as int) =~= rest);
}

/// The attributes of a route out of `ifindex` through gateway `gw`.
pub open spec fn gateway_route_attrs(ifindex: i32, gw: [u8; 4]) -> Seq<(u16, Seq<u8>)> {
    seq![(RTA_OIF, le32(ifindex as u32)), (RTA_GATEWAY, gw@)]
}

/// A route message (netlink type `ty`, flags, sequence number, port id,
/// route header `rth`) for interface `ifindex` with gateway `gw`.
#[verifier::opaque]
pub open spec fn gateway_route_bytes(
    ty: u16,
    flags: u16,
    seq: u32,
    pid: u32,
    rth: RtMsgHdr,
    ifindex: i32,
    gw: [u8; 4],
) -> Seq<u8> {
    route_message_bytes(ty, flags, seq, pid, rth, gateway_route_attrs(ifindex, gw))
}

/// The body of a gateway route: route header, then the two attributes.
proof fn lemma_gateway_route_body(ifindex: i32, gw: [u8; 4])
    ensures
        attrs_bytes(gateway_route_attrs(ifindex, gw)) == attr_bytes(RTA_OIF, le32(ifindex as u32))
            + attr_bytes(RTA_GATEWAY, gw@),
        attrs_bytes(gateway_route_attrs(ifindex, gw)).len() == 16,
        rt_attrs(attrs_bytes(gateway_route_attrs(ifindex, gw))) == seq![
            (RtAttrHdr { len: 8, ty: RtAttrType(RTA_OIF) }, le32(ifindex as u32)),
            (RtAttrHdr { len: 8, ty: RtAttrType(RTA_GATEWAY) }, gw@),
        ],
{
    let attrs = gateway_route_attrs(ifindex, gw);
    let a1 = attr_bytes(RTA_OIF, le32(ifindex as u32));
    let a2 = attr_bytes(RTA_GATEWAY, gw@);
    reveal_with_fuel(attrs_bytes, 3);
    assert(attrs.skip(1).skip(1) =~= Seq::<(u16, Seq<u8>)>::empty());
    assert(attrs_bytes(attrs) =~= a1 + a2);
    assert(zeros(0) =~= Seq::<u8>::empty());
    lemma_attr_round_trip(RTA_GATEWAY, gw@, Seq::<u8>::empty());
    lemma_attr_round_trip(RTA_OIF, le32(ifindex as u32), a2);
    assert(a2 + Seq::<u8>::empty() =~= a2);
    assert(rt_attrs(Seq::<u8>::empty()) == Seq::<(RtAttrHdr, Seq<u8>)>::empty());
    assert(rt_attrs(a1 + a2) =~= seq![
        (RtAttrHdr { len: 8, ty: RtAttrType(RTA_OIF) }, le32(ifindex as u32)),
        (RtAttrHdr { len: 8, ty: RtAttrType(RTA_GATEWAY) }, gw@),
    ]);
}

/// Stage two on a first frame holding a canonical route header.
proof fn lemma_route_msgs_first(
    h: NlMsgHdr,
    rth: RtMsgHdr,
    attrs: Seq<u8>,
    frames: Seq<(NlMsgHdr, Seq<u8>)>,
)
    requires
        rth.canonical(),
    ensures
        route_msgs(seq![(h, rtmsghdr_bytes(rth) + attrs)] + frames) == seq![(rth, rt_attrs(attrs))]
            + route_msgs(frames),
{
    let all = seq![(h, rtmsghdr_bytes(rth) + attrs)] + frames;
    lemma_rtmsghdr_round_trip(rth, attrs);
    assert((rtmsghdr_bytes(rth) + attrs).skip(RTMSG_HDRLEN as int) =~= attrs);
    assert(all[0] == (h, rtmsghdr_bytes(rth) + attrs));
    assert(all.skip(1) =~= frames);
}

/// Stage three distributes over concatenation.
proof fn lemma_decode_msgs_append(
    a: Seq<(RtMsgHdr, Seq<(RtAttrHdr, Seq<u8>)>)>,
    b: Seq<(RtMsgHdr, Seq<(RtAttrHdr, Seq<u8>)>)>,
)
    ensures
        decode_msgs(a + b) == decode_msgs(a) + decode_msgs(b),
{
    assert(decode_msgs(a + b) =~= decode_msgs(a) + decode_msgs(b));
}

/// Stage one on a gateway route followed by `rest`.
proof fn lemma_gateway_route_frames(
    ty: u16,
    flags: u16,
    seq: u32,
    pid: u32,
    rth: RtMsgHdr,
    ifindex: i32,
    gw: [u8; 4],
    rest: Seq<u8>,
)
    requires
        ty != NLMSG_DONE,
    ensures
        nl_frames(gateway_route_bytes(ty, flags, seq, pid, rth, ifindex, gw) + rest) == seq![
            (
                frame_header(ty, flags, seq, pid, 28),
                rtmsghdr_bytes(rth) + attrs_bytes(gateway_route_attrs(ifindex, gw)),
            ),
        ] + nl_frames(rest),
{
    reveal(gateway_route_bytes);
    lemma_gateway_route_body(ifindex, gw);
    let body = rtmsghdr_bytes(rth) + attrs_bytes(gateway_route_attrs(ifindex, gw));
    assert(body.len() == 28);
    lemma_frame_round_trip(ty, flags, seq, pid, body, rest);
    let h = frame_header(ty, flags, seq, pid, 28);
    assert(gateway_route_bytes(ty, flags, seq, pid, rth, ifindex, gw) =~= nlmsghdr_bytes(h) + body);
    assert(gateway_route_bytes(ty, flags, seq, pid, rth, ifindex, gw) + rest =~= nlmsghdr_bytes(h)
        + body + rest);
}

/// The decoded form of `gateway_route_bytes`.
proof fn lemma_gateway_route_decodes(
    ty: u16,
    flags: u16,
    seq: u32,
    pid: u32,
    rth: RtMsgHdr,
    ifindex: i32,
    gw: [u8; 4],
    rest: Seq<u8>,
)
    requires
        ty != NLMSG_DONE,
        rth.canonical(),
    ensures
        decode_msgs(route_msgs(nl_frames(gateway_route_bytes(ty, flags, seq, pid, rth, ifindex, gw) + rest)))
            == seq![
            (
                rth,
                seq![
                    decode_attr(rth.family, (RtAttrHdr { len: 8, ty: RtAttrType(RTA_OIF) }, le32(ifindex as u32))),
                    decode_attr(rth.family, (RtAttrHdr { len: 8, ty: RtAttrType(RTA_GATEWAY) }, gw@)),
                ],
            ),
        ] + decode_msgs(route_msgs(nl_frames(rest))),
{
    lemma_gateway_route_frames(ty, flags, seq, pid, rth, ifindex, gw, rest);
    lemma_gateway_route_body(ifindex, gw);
    let ab = attrs_bytes(gateway_route_attrs(ifindex, gw));
    let h = frame_header(ty, flags, seq, pid, 28);
    lemma_route_msgs_first(h, rth, ab, nl_frames(rest));
    let raw_attrs = rt_attrs(ab);
    lemma_decode_msgs_append(seq![(rth, raw_attrs)], route_msgs(nl_frames(rest)));
    assert(raw_attrs.map_values(|a: (RtAttrHdr, Seq<u8>)| decode_attr(rth.family, a)) =~= seq![
        decode_attr(rth.family, raw_attrs[0]),
        decode_attr(rth.family, raw_attrs[1]),
    ]);
    assert(decode_msgs(seq![(rth, raw_attrs)]) =~= seq![
        (rth, seq![decode_attr(rth.family, raw_attrs[0]), decode_attr(rth.family, raw_attrs[1])]),
    ]);
}

/// An output-interface attribute decodes to its index, whatever the
/// route's family.
proof fn lemma_oif_attr_decodes(family: RtFamily, ifindex: i32)
    ensures
        decode_attr(family, (RtAttrHdr { len: 8, ty: RtAttrType(RTA_OIF) }, le32(ifindex as u32)))
            == RtRespAttr::OIf(ifindex),
{
    let x = ifindex as u32;
    assert(le32(x).subrange(0, 4) =~= le32(x));
    crate::bytes::lemma_le32_at(le32(x), 0, x);
    assert((x as i32) == ifindex) by (bit_vector)
        requires
            x == ifindex as u32,
    ;
}

/// A 4-byte gateway attribute of an IPv4 route decodes to that address.
proof fn lemma_gateway_attr_ipv4(gw: [u8; 4])
    ensures
        decode_attr(RtFamily::IPv4, (RtAttrHdr { len: 8, ty: RtAttrType(RTA_GATEWAY) }, gw@))
            == RtRespAttr::Gateway(IpAddr::V4(gw)),
{
    let p = gw@;
    let a: [u8; 4] = [p[0], p[1], p[2], p[3]];
    assert(a@ =~= gw@);
    assert(a == gw);
}

/// A route dump that starts with an IPv4 route out of interface `ifindex`
/// through gateway `gw` resolves to `gw`, whatever follows it (more
/// routes, a `Done` frame, or nothing).
pub proof fn lemma_single_route_gateway(
    ty: u16,
    flags: u16,
    seq: u32,
    pid: u32,
    rth: RtMsgHdr,
    ifindex: i32,
    gw: [u8; 4],
    rest: Seq<u8>,
)
    requires
        ty != NLMSG_DONE,
        rth.canonical(),
        rth.family == RtFamily::IPv4,
    ensures
        response_gateway(gateway_route_bytes(ty, flags, seq, pid, rth, ifindex, gw) + rest, ifindex)
            == Some(gw),
{
    lemma_gateway_route_decodes(ty, flags, seq, pid, rth, ifindex, gw, rest);
    lemma_oif_attr_decodes(rth.family, ifindex);
    lemma_gateway_attr_ipv4(gw);
    let attrs = seq![RtRespAttr::OIf(ifindex), RtRespAttr::Gateway(IpAddr::V4(gw))];
    assert(attrs.skip(1)[0] == RtRespAttr::Gateway(IpAddr::V4(gw)));
    assert(first_oif(attrs) == Some(ifindex));
    assert(first_gateway(attrs.skip(1)) == Some(IpAddr::V4(gw)));
    assert(first_gateway(attrs) == Some(IpAddr::V4(gw)));
}

/// A route of another interface, of any family, does not change what a
/// dump resolves to.
pub proof fn lemma_other_route_skipped(
    ty: u16,
    flags: u16,
    seq: u32,
    pid: u32,
    rth: RtMsgHdr,
    ifindex: i32,
    other: i32,
    gw: [u8; 4],
    tail: Seq<u8>,
)
    requires
        ty != NLMSG_DONE,
        rth.canonical(),
        other != ifindex,
    ensures
        response_gateway(gateway_route_bytes(ty, flags, seq, pid, rth, other, gw) + tail, ifindex)
            == response_gateway(tail, ifindex),
{
    lemma_gateway_route_decodes(ty, flags, seq, pid, rth, other, gw, tail);
    lemma_oif_attr_decodes(rth.family, other);
    let msgs = decode_msgs(
        route_msgs(nl_frames(gateway_route_bytes(ty, flags, seq, pid, rth, other, gw) + tail)),
    );
    let attrs = msgs[0].1;
    assert(attrs[0] == RtRespAttr::OIf(other));
    assert(first_oif(attrs) == Some(other));
    assert(!routes_ipv4_via(msgs[0], ifindex));
    assert(msgs.skip(1) =~= decode_msgs(route_msgs(nl_frames(tail))));
}

/// Routes of another interface are passed over: with a route of `ifindex`
/// through `gw1` and one of `other` through `gw2`, in either order and
/// whatever follows them, the gateway of `ifindex` is `gw1`. Each message
/// has its own netlink fields and route header.
pub proof fn lemma_gateway_of_requested_interface(
    ty1: u16,
    flags1: u16,
    seq1: u32,
    pid1: u32,
    rth1: RtMsgHdr,
    ifindex: i32,
    gw1: [u8; 4],
    ty2: u16,
    flags2: u16,
    seq2: u32,
    pid2: u32,
    rth2: RtMsgHdr,
    other: i32,
    gw2: [u8; 4],
    rest: Seq<u8>,
)
    requires
        ty1 != NLMSG_DONE,
        ty2 != NLMSG_DONE,
        rth1.canonical(),
        rth2.canonical(),
        rth1.family == RtFamily::IPv4,
        other != ifindex,
    ensures
        response_gateway(
            gateway_route_bytes(ty1, flags1, seq1, pid1, rth1, ifindex, gw1) + gateway_route_bytes(
                ty2,
                flags2,
                seq2,
                pid2,
                rth2,
                other,
                gw2,
            ) + rest,
            ifindex,
        ) == Some(gw1),
        response_gateway(
            gateway_route_bytes(ty2, flags2, seq2, pid2, rth2, other, gw2) + gateway_route_bytes(
                ty1,
                flags1,
                seq1,
                pid1,
                rth1,
                ifindex,
                gw1,
            ) + rest,
            ifindex,
        ) == Some(gw1),
{
    let mine = gateway_route_bytes(ty1, flags1, seq1, pid1, rth1, ifindex, gw1);
    let theirs = gateway_route_bytes(ty2, flags2, seq2, pid2, rth2, other, gw2);
    assert(mine + theirs + rest =~= mine + (theirs + rest));
    lemma_single_route_gateway(ty1, flags1, seq1, pid1, rth1, ifindex, gw1, theirs + rest);
    assert(theirs + mine + rest =~= theirs + (mine + rest));
    lemma_other_route_skipped(ty2, flags2, seq2, pid2, rth2, ifindex, other, gw2, mine + rest);
    lemma_single_route_gateway(ty1, flags1, seq1, pid1, rth1, ifindex, gw1, rest);
}

/// A dump that holds no route message, its first frame being a `Done`
/// frame (any flags, sequence number, port id or length), gives no
/// gateway, whatever bytes follow.
pub proof fn lemma_done_gives_none(done: NlMsgHdr, ifindex: i32, rest: Seq<u8>)
    requires
        done.ty.0 == NLMSG_DONE,
    ensures
        response_gateway(nlmsghdr_bytes(done) + rest, ifindex) == None::<[u8; 4]>,
{
    lemma_nlmsghdr_round_trip(done, rest);
    assert(nl_frames(nlmsghdr_bytes(done) + rest) == Seq::<(NlMsgHdr, Seq<u8>)>::empty());
    assert(route_msgs(Seq::<(NlMsgHdr, Seq<u8>)>::empty()) == Seq::<(RtMsgHdr, Seq<(RtAttrHdr, Seq<u8>)>)>::empty());
    assert(decode_msgs(Seq::<(RtMsgHdr, Seq<(RtAttrHdr, Seq<u8>)>)>::empty()) =~= Seq::<(RtMsgHdr, Seq<RtRespAttr>)>::empty());
}

/// Stage two keeps every frame whose payload can hold a route header: one
/// message per frame, in order, with the header read from the payload's
/// first 12 bytes and the attributes from the rest.
pub proof fn lemma_route_msgs_one_per_frame(frames: Seq<(NlMsgHdr, Seq<u8>)>)
    requires
        forall|i: int| 0 <= i < frames.len() ==> #[trigger] frames[i].1.len() >= RTMSG_HDRLEN,
    ensures
        route_msgs(frames).len() == frames.len(),
        forall|i: int|
            0 <= i < frames.len() ==> #[trigger] route_msgs(frames)[i] == (
                rtmsghdr_of(frames[i].1).unwrap(),
                rt_attrs(frames[i].1.skip(RTMSG_HDRLEN as int)),
            ),
    decreases frames.len(),
{
    if frames.len() > 0 {
        let rest = frames.skip(1);
        assert forall|i: int| 0 <= i < rest.len() implies #[trigger] rest[i].1.len()
            >= RTMSG_HDRLEN by {
            assert(rest[i] == frames[i + 1]);
        }
        lemma_route_msgs_one_per_frame(rest);
        assert forall|i: int| 0 <= i < frames.len() implies #[trigger] route_msgs(frames)[i] == (
            rtmsghdr_of(frames[i].1).unwrap(),
            rt_attrs(frames[i].1.skip(RTMSG_HDRLEN as int)),
        ) by {
            if i > 0 {
                assert(rest[i - 1] == frames[i]);
            }
        }
    }
}

/// The dump request reads back as one IPv4 route message whose only
/// attribute is the requested output interface.
pub proof fn lemma_request_parses_back(ifindex: i32)
    ensures
        decode_msgs(route_msgs(nl_frames(route_request_bytes(ifindex)))) == seq![
            (route_request_hdr(), seq![RtRespAttr::OIf(ifindex)]),
        ],
{
    let rth = route_request_hdr();
    let attrs = seq![(RTA_OIF, le32(ifindex as u32))];
    let a1 = attr_bytes(RTA_OIF, le32(ifindex as u32));
    reveal_with_fuel(attrs_bytes, 2);
    assert(attrs.skip(1) =~= Seq::<(u16, Seq<u8>)>::empty());
    assert(attrs_bytes(attrs) =~= a1 + Seq::<u8>::empty());
    let ab = attrs_bytes(attrs);
    assert(zeros(0) =~= Seq::<u8>::empty());
    let body = rtmsghdr_bytes(rth) + ab;
    let h = frame_header(RTM_GETROUTE, ROUTE_DUMP_FLAGS, 0, 0, body.len() as int);
    lemma_frame_round_trip(RTM_GETROUTE, ROUTE_DUMP_FLAGS, 0, 0, body, Seq::<u8>::empty());
    assert(route_request_bytes(ifindex) =~= nlmsghdr_bytes(h) + body + Seq::<u8>::empty());
    let frames = nl_frames(route_request_bytes(ifindex));
    assert(nl_frames(Seq::<u8>::empty()) == Seq::<(NlMsgHdr, Seq<u8>)>::empty());
    assert(frames =~= seq![(h, body)]);
    lemma_rtmsghdr_round_trip(rth, ab);
    assert(body.skip(RTMSG_HDRLEN as int) =~= a1 + Seq::<u8>::empty());
    lemma_attr_round_trip(RTA_OIF, le32(ifindex as u32), Seq::<u8>::empty());
    assert(rt_attrs(Seq::<u8>::empty()) == Seq::<(RtAttrHdr, Seq<u8>)>::empty());
    let raw_attrs = seq![(RtAttrHdr { len: 8, ty: RtAttrType(RTA_OIF) }, le32(ifindex as u32))];
    assert(rt_attrs(body.skip(RTMSG_HDRLEN as int)) =~= raw_attrs);
    assert(frames.skip(1) =~= Seq::<(NlMsgHdr, Seq<u8>)>::empty());
    assert(frames[0] == (h, body));
    assert(route_msgs(frames.skip(1)) == Seq::<(RtMsgHdr, Seq<(RtAttrHdr, Seq<u8>)>)>::empty());
    assert(route_msgs(frames) =~= seq![(rth, raw_attrs)]);
    lemma_oif_attr_decodes(RtFamily::IPv4, ifindex);
    assert(raw_attrs.map_values(|a: (RtAttrHdr, Seq<u8>)| decode_attr(rth.family, a)) =~= seq![
        RtRespAttr::OIf(ifindex),
    ]);
    assert(decode_msgs(seq![(rth, raw_attrs)]) =~= seq![(rth, seq![RtRespAttr::OIf(ifindex)])]);
}

/// What `nlmsg_ok` and `rta_ok` decide: no frame in an empty buffer, nor
/// in one shorter than a header, nor where the declared length runs past
/// the buffer; a frame exactly when a whole in-bounds one is there.
pub proof fn lemma_validity_predicates(s: Seq<u8>)
    ensures
        s.len() == 0 ==> !frame_ok(s) && !attr_ok(s),
        s.len() < NLMSG_HDRLEN ==> !frame_ok(s),
        s.len() < RTA_HDRLEN ==> !attr_ok(s),
        s.len() >= NLMSG_HDRLEN && le32_at(s, 0) > s.len() ==> !frame_ok(s),
        s.len() >= RTA_HDRLEN && le16_at(s, 0) > s.len() ==> !attr_ok(s),
        frame_ok(s) <==> (s.len() >= NLMSG_HDRLEN && NLMSG_HDRLEN <= nlmsghdr_of(s).len <= s.len()),
        attr_ok(s) <==> (s.len() >= RTA_HDRLEN && RTA_HDRLEN <= rtattrhdr_of(s).len <= s.len()),
{
}

} // verus!
