//! Ethernet protocol numbers.

use vstd::prelude::*;

verus! {

/// Ethernet protocol: IEEE 802 numbers and the Linux-reserved `ALL` (see `ETH_P_*`).
#[derive(Debug, Clone, Copy, PartialEq, Eq, Hash)]
pub enum EthTypeSpec {
    /// 3: every protocol
    ALL,
    /// 0x800
    IPv4,
    /// 0x806
    ARP,
    /// 0x86dd
    IPv6,
}

impl EthTypeSpec {
    pub open spec fn spec_to_bits(&self) -> u16 {
        match *self {
            EthTypeSpec::ALL => 3,
            EthTypeSpec::IPv4 => 0x800,
            EthTypeSpec::ARP => 0x806,
            EthTypeSpec::IPv6 => 0x86dd,
        }
    }

    /// The raw value.
    #[verifier::when_used_as_spec(spec_to_bits)]
    pub fn to_bits(&self) -> (r: u16)
        ensures
            r == self.spec_to_bits(),
    {
        match *self {
            EthTypeSpec::ALL => 3,
            EthTypeSpec::IPv4 => 0x800,
            EthTypeSpec::ARP => 0x806,
            EthTypeSpec::IPv6 => 0x86dd,
        }
    }

    pub open spec fn spec_from_bits(v: u16) -> Option<EthTypeSpec> {
        if v == 3 {
            Some(EthTypeSpec::ALL)
        } else if v == 0x800 {
            Some(EthTypeSpec::IPv4)
        } else if v == 0x806 {
            Some(EthTypeSpec::ARP)
        } else if v == 0x86dd {
            Some(EthTypeSpec::IPv6)
        } else {
            None
        }
    }

    /// The value named by `v`, if there is one.
    #[verifier::when_used_as_spec(spec_from_bits)]
    pub fn from_bits(v: u16) -> (r: Option<EthTypeSpec>)
        ensures
            r == Self::spec_from_bits(v),
    {
        match v {
            3 => Some(EthTypeSpec::ALL),
            0x800 => Some(EthTypeSpec::IPv4),
            0x806 => Some(EthTypeSpec::ARP),
            0x86dd => Some(EthTypeSpec::IPv6),
            _ => None,
        }
    }
}

} // verus!
