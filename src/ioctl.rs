//! `ioctl` request codes.

use vstd::prelude::*;

verus! {

/// An interface `ioctl` request.
#[derive(Debug, Clone, Copy, PartialEq, Eq)]
pub enum IoctlOpcode {
    /// 0x8933: interface index
    GetIfaceIndex,
    /// 0x8927: hardware address
    GetIfaceHwAddr,
    /// 0x8915: IPv4 address
    GetIfaceAddr,
    /// 0x8921: MTU
    GetIfMTU,
}

impl IoctlOpcode {
    pub open spec fn spec_to_bits(&self) -> usize {
        match *self {
            IoctlOpcode::GetIfaceIndex => 0x8933,
            IoctlOpcode::GetIfaceHwAddr => 0x8927,
            IoctlOpcode::GetIfaceAddr => 0x8915,
            IoctlOpcode::GetIfMTU => 0x8921,
        }
    }

    /// The raw value.
    #[verifier::when_used_as_spec(spec_to_bits)]
    pub fn to_bits(&self) -> (r: usize)
        ensures
            r == self.spec_to_bits(),
    {
        match *self {
            IoctlOpcode::GetIfaceIndex => 0x8933,
            IoctlOpcode::GetIfaceHwAddr => 0x8927,
            IoctlOpcode::GetIfaceAddr => 0x8915,
            IoctlOpcode::GetIfMTU => 0x8921,
        }
    }
}

} // verus!
