//! Unsigned integers stored in network (big-endian) byte order.

use vstd::prelude::*;
use crate::ether::EthTypeSpec;
use crate::iface::HwType;
use crate::bytes::{be16, be16_value, be32, be32_value, be64, be64_value, lemma_be16_round_trip, lemma_be32_round_trip, lemma_be64_round_trip};

verus! {

/// A `u16` held as its two network-order bytes; in memory it has the
/// layout of the kernel's big-endian `__be16`.
#[derive(Default, Clone, Copy, Debug, Hash, PartialEq, Eq)]
pub struct U16Be(pub [u8; 2]);

/// A `u32` held as its four network-order bytes (`__be32`).
#[derive(Default, Clone, Copy, Debug, Hash, PartialEq, Eq)]
pub struct U32Be(pub [u8; 4]);

/// A `u64` held as its eight network-order bytes (`__be64`).
#[derive(Default, Clone, Copy, Debug, Hash, PartialEq, Eq)]
pub struct U64Be(pub [u8; 8]);

impl View for U16Be {
    type V = Seq<u8>;

    /// The stored bytes, most significant first.
    open spec fn view(&self) -> Seq<u8> {
        self.0@
    }
}

impl View for U32Be {
    type V = Seq<u8>;

    open spec fn view(&self) -> Seq<u8> {
        self.0@
    }
}

impl View for U64Be {
    type V = Seq<u8>;

    open spec fn view(&self) -> Seq<u8> {
        self.0@
    }
}

impl U16Be {
    /// Same as `from_ne`.
    pub fn new(x: u16) -> (r: Self)
        ensures
            r@ == be16(x),
    {
        Self::from_ne(x)
    }

    /// Stores the native value `x` in network order.
    pub fn from_ne(x: u16) -> (r: Self)
        ensures
            r@ == be16(x),
    {
        let r = U16Be([(x >> 8) as u8, x as u8]);
        assert(r@ =~= be16(x));
        r
    }

    /// `x` is read in little-endian order; on this target that is the
    /// native order, so this is `from_ne`.
    pub fn from_le(x: u16) -> (r: Self)
        ensures
            r@ == be16(x),
    {
        Self::new(x)
    }

    /// `x` holds a value whose in-memory bytes are already in network
    /// order: they are kept as they are.
    pub fn from_be(x: u16) -> (r: Self)
        ensures
            r@ == crate::bytes::le16(x),
    {
        let r = U16Be([x as u8, (x >> 8) as u8]);
        assert(r@ =~= crate::bytes::le16(x));
        r
    }

    /// Stores the given network-order bytes.
    pub fn from_bytes(b: [u8; 2]) -> (r: Self)
        ensures
            r@ == b@,
    {
        U16Be(b)
    }

    /// The value in native order.
    pub fn to_ne(&self) -> (r: u16)
        ensures
            r == be16_value(self@),
    {
        ((self.0[0] as u16) << 8) | (self.0[1] as u16)
    }

    /// The network-order (big-endian) bytes of the value.
    pub fn to_ne_bytes(&self) -> (r: [u8; 2])
        ensures
            r@ == self@,
    {
        self.0
    }
}

impl U32Be {
    /// Same as `from_ne`.
    pub fn new(x: u32) -> (r: Self)
        ensures
            r@ == be32(x),
    {
        Self::from_ne(x)
    }

    /// Stores the native value `x` in network order.
    pub fn from_ne(x: u32) -> (r: Self)
        ensures
            r@ == be32(x),
    {
        let r = U32Be([(x >> 24) as u8, (x >> 16) as u8, (x >> 8) as u8, x as u8]);
        assert(r@ =~= be32(x));
        r
    }

    /// `x` is read in little-endian order, the native order of this target.
    pub fn from_le(x: u32) -> (r: Self)
        ensures
            r@ == be32(x),
    {
        Self::new(x)
    }

    /// `x` holds a value whose in-memory bytes are already in network
    /// order: they are kept as they are.
    pub fn from_be(x: u32) -> (r: Self)
        ensures
            r@ == crate::bytes::le32(x),
    {
        let r = U32Be([x as u8, (x >> 8) as u8, (x >> 16) as u8, (x >> 24) as u8]);
        assert(r@ =~= crate::bytes::le32(x));
        r
    }

    /// Stores the given network-order bytes.
    pub fn from_bytes(b: [u8; 4]) -> (r: Self)
        ensures
            r@ == b@,
    {
        U32Be(b)
    }

    /// The value in native order.
    pub fn to_ne(&self) -> (r: u32)
        ensures
            r == be32_value(self@),
    {
        ((self.0[0] as u32) << 24) | ((self.0[1] as u32) << 16) | ((self.0[2] as u32) << 8) | (
        self.0[3] as u32)
    }

    /// The network-order (big-endian) bytes of the value.
    pub fn to_ne_bytes(&self) -> (r: [u8; 4])
        ensures
            r@ == self@,
    {
        self.0
    }
}

impl U64Be {
    /// Same as `from_ne`.
    pub fn new(x: u64) -> (r: Self)
        ensures
            r@ == be64(x),
    {
        Self::from_ne(x)
    }

    /// Stores the native value `x` in network order.
    pub fn from_ne(x: u64) -> (r: Self)
        ensures
            r@ == be64(x),
    {
        let r = U64Be(
            [
                (x >> 56) as u8,
                (x >> 48) as u8,
                (x >> 40) as u8,
                (x >> 32) as u8,
                (x >> 24) as u8,
                (x >> 16) as u8,
                (x >> 8) as u8,
                x as u8,
            ],
        );
        assert(r@ =~= be64(x));
        r
    }

    /// `x` is read in little-endian order, the native order of this target.
    pub fn from_le(x: u64) -> (r: Self)
        ensures
            r@ == be64(x),
    {
        Self::new(x)
    }

    /// `x` holds a value whose in-memory bytes are already in network
    /// order: they are kept as they are.
    pub fn from_be(x: u64) -> (r: Self)
        ensures
            r@ == crate::bytes::le64(x),
    {
        let r = U64Be(
            [
                x as u8,
                (x >> 8) as u8,
                (x >> 16) as u8,
                (x >> 24) as u8,
                (x >> 32) as u8,
                (x >> 40) as u8,
                (x >> 48) as u8,
                (x >> 56) as u8,
            ],
        );
        assert(r@ =~= crate::bytes::le64(x));
        r
    }

    /// Stores the given network-order bytes.
    pub fn from_bytes(b: [u8; 8]) -> (r: Self)
        ensures
            r@ == b@,
    {
        U64Be(b)
    }

    /// The value in native order.
    pub fn to_ne(&self) -> (r: u64)
        ensures
            r == be64_value(self@),
    {
        ((self.0[0] as u64) << 56) | ((self.0[1] as u64) << 48) | ((self.0[2] as u64) << 40) | ((
        self.0[3] as u64) << 32) | ((self.0[4] as u64) << 24) | ((self.0[5] as u64) << 16) | ((
        self.0[6] as u64) << 8) | (self.0[7] as u64)
    }

    /// The network-order (big-endian) bytes of the value.
    pub fn to_ne_bytes(&self) -> (r: [u8; 8])
        ensures
            r@ == self@,
    {
        self.0
    }
}

/// Storing a native value and reading it back gives the value, and the
/// stored bytes are its big-endian encoding.
pub proof fn lemma_u16_be_round_trip(x: u16, b: U16Be)
    requires
        b@ == be16(x),
    ensures
        be16_value(b@) == x,
        b@ == seq![(x >> 8) as u8, x as u8],
{
    lemma_be16_round_trip(x);
}

/// As `lemma_u16_be_round_trip`, for 32-bit values.
pub proof fn lemma_u32_be_round_trip(x: u32, b: U32Be)
    requires
        b@ == be32(x),
    ensures
        be32_value(b@) == x,
        b@ == seq![(x >> 24) as u8, (x >> 16) as u8, (x >> 8) as u8, x as u8],
{
    lemma_be32_round_trip(x);
}

/// As `lemma_u16_be_round_trip`, for 64-bit values.
pub proof fn lemma_u64_be_round_trip(x: u64, b: U64Be)
    requires
        b@ == be64(x),
    ensures
        be64_value(b@) == x,
{
    lemma_be64_round_trip(x);
}

/// An Ethernet protocol number in network order.
#[derive(Default, Clone, Copy, Debug, Hash, PartialEq, Eq)]
pub struct EthTypeBe(pub U16Be);

/// An ARP hardware type in network order.
#[derive(Default, Clone, Copy, Debug, Hash, PartialEq, Eq)]
pub struct HTypeBe(pub U16Be);

impl EthTypeBe {
    /// The protocol `t` in network order.
    pub fn new(t: EthTypeSpec) -> (r: Self)
        ensures
            r.0@ == be16(t.spec_to_bits()),
    {
        EthTypeBe(U16Be::new(t.to_bits()))
    }

    /// The protocol held, if it is a known one.
    pub fn to_eth_type(self) -> (r: Option<EthTypeSpec>)
        ensures
            r == EthTypeSpec::spec_from_bits(be16_value(self.0@)),
    {
        EthTypeSpec::from_bits(self.0.to_ne())
    }
}

impl HTypeBe {
    /// The hardware type `t` in network order.
    pub fn new(t: HwType) -> (r: Self)
        ensures
            r.0@ == be16(t.spec_to_bits()),
    {
        HTypeBe(U16Be::new(t.to_bits()))
    }
}

} // verus!
