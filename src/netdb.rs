//! Address-information lookup: hint flags and error codes.

use vstd::prelude::*;
use crate::errno::PosixError;

verus! {

/// Address family of a lookup.
#[derive(Debug, Clone, Copy, PartialEq, Eq)]
pub enum AIFamilies {
    /// 0: IPv4 or IPv6
    UNSPEC,
    /// 2
    INET,
    /// 10
    INET6,
}

impl AIFamilies {
    pub open spec fn spec_to_bits(&self) -> i32 {
        match *self {
            AIFamilies::UNSPEC => 0,
            AIFamilies::INET => 2,
            AIFamilies::INET6 => 10,
        }
    }

    /// The raw value.
    #[verifier::when_used_as_spec(spec_to_bits)]
    pub fn to_bits(&self) -> (r: i32)
        ensures
            r == self.spec_to_bits(),
    {
        match *self {
            AIFamilies::UNSPEC => 0,
            AIFamilies::INET => 2,
            AIFamilies::INET6 => 10,
        }
    }

    pub open spec fn spec_from_bits(v: i32) -> Option<AIFamilies> {
        if v == 0 {
            Some(AIFamilies::UNSPEC)
        } else if v == 2 {
            Some(AIFamilies::INET)
        } else if v == 10 {
            Some(AIFamilies::INET6)
        } else {
            None
        }
    }

    /// The value named by `v`, if there is one.
    #[verifier::when_used_as_spec(spec_from_bits)]
    pub fn from_bits(v: i32) -> (r: Option<AIFamilies>)
        ensures
            r == Self::spec_from_bits(v),
    {
        match v {
            0 => Some(AIFamilies::UNSPEC),
            2 => Some(AIFamilies::INET),
            10 => Some(AIFamilies::INET6),
            _ => None,
        }
    }
}

/// One address-information flag (`AI_*`).
#[derive(Clone, Copy, Debug, PartialEq, Eq)]
pub enum AIFlag {
    /// 1: the address is meant for `bind`
    PASSIVE,
    /// 2: ask for the canonical name
    CANNONAME,
    /// 4: the node is a numeric address; no lookup
    NUMERICHOST,
    /// 8: fall back to IPv4-mapped IPv6 addresses
    V4MAPPED,
    /// 16: with `V4MAPPED`, both IPv6 and mapped IPv4 addresses
    ALL,
    /// 32: only the IP versions configured on the system
    ADDRCONFIG,
    /// 0x400: the service is a port number; no lookup
    NUMERICSERV,
}

impl AIFlag {
    pub open spec fn spec_to_bits(&self) -> i32 {
        match *self {
            AIFlag::PASSIVE => 1,
            AIFlag::CANNONAME => 2,
            AIFlag::NUMERICHOST => 4,
            AIFlag::V4MAPPED => 8,
            AIFlag::ALL => 16,
            AIFlag::ADDRCONFIG => 32,
            AIFlag::NUMERICSERV => 0x400,
        }
    }

    /// The raw value.
    #[verifier::when_used_as_spec(spec_to_bits)]
    pub fn to_bits(&self) -> (r: i32)
        ensures
            r == self.spec_to_bits(),
    {
        match *self {
            AIFlag::PASSIVE => 1,
            AIFlag::CANNONAME => 2,
            AIFlag::NUMERICHOST => 4,
            AIFlag::V4MAPPED => 8,
            AIFlag::ALL => 16,
            AIFlag::ADDRCONFIG => 32,
            AIFlag::NUMERICSERV => 0x400,
        }
    }
}

/// Address-information flags.
#[derive(Default, Debug, Clone, Copy, PartialEq, Eq, Hash)]
pub struct AIFlags(pub i32);

impl AIFlags {
    /// These flags with `f` added.
    pub fn with(self, f: AIFlag) -> (r: Self)
        ensures
            r.0 == self.0 | f.spec_to_bits(),
    {
        AIFlags(self.0 | f.to_bits())
    }

    /// Whether `f` is set.
    pub fn contains(&self, f: AIFlag) -> (r: bool)
        ensures
            r == (self.0 & f.spec_to_bits() != 0),
    {
        self.0 & f.to_bits() != 0
    }
}

/// Error of an address-information lookup.
#[derive(Debug, Clone, Copy, PartialEq, Eq)]
pub enum AddrInfoError {
    /// Temporary failure of the name server; try again later.
    AGAIN,
    /// Invalid flags in the hints.
    BADFLAGS,
    /// Permanent failure of the name server.
    FAIL,
    /// Address family not supported.
    FAMILY,
    /// Out of memory.
    MEMORY,
    /// The host exists but has no network address.
    NODATA,
    /// Node or service unknown, or both absent, or a non-numeric service
    /// with `NUMERICSERV`.
    NONAME,
    /// Service not available for the socket type.
    SERVICE,
    /// Socket type not supported.
    SOCKTYPE,
    /// Other system error, with its error number.
    SYSTEM(PosixError),
}

/// The error that a nonzero `getaddrinfo` result `ret` stands for (glibc's
/// `EAI_*` codes); `errno` is the error number at the time, which the
/// system-error code refers to.
pub open spec fn spec_addrinfo_error(ret: i32, errno: PosixError) -> Option<AddrInfoError> {
    if ret == -3 {
        Some(AddrInfoError::AGAIN)
    } else if ret == -1 {
        Some(AddrInfoError::BADFLAGS)
    } else if ret == -4 {
        Some(AddrInfoError::FAIL)
    } else if ret == -6 {
        Some(AddrInfoError::FAMILY)
    } else if ret == -10 {
        Some(AddrInfoError::MEMORY)
    } else if ret == -5 {
        Some(AddrInfoError::NODATA)
    } else if ret == -2 {
        Some(AddrInfoError::NONAME)
    } else if ret == -8 {
        Some(AddrInfoError::SERVICE)
    } else if ret == -7 {
        Some(AddrInfoError::SOCKTYPE)
    } else if ret == -11 {
        Some(AddrInfoError::SYSTEM(errno))
    } else {
        None
    }
}

impl AddrInfoError {
    /// The error for `getaddrinfo` result `ret`; `None` for a code this
    /// table does not hold.
    pub fn from_code(ret: i32, errno: PosixError) -> (r: Option<AddrInfoError>)
        ensures
            r == spec_addrinfo_error(ret, errno),
    {
        match ret {
            -3 => Some(AddrInfoError::AGAIN),
            -1 => Some(AddrInfoError::BADFLAGS),
            -4 => Some(AddrInfoError::FAIL),
            -6 => Some(AddrInfoError::FAMILY),
            -10 => Some(AddrInfoError::MEMORY),
            -5 => Some(AddrInfoError::NODATA),
            -2 => Some(AddrInfoError::NONAME),
            -8 => Some(AddrInfoError::SERVICE),
            -7 => Some(AddrInfoError::SOCKTYPE),
            -11 => Some(AddrInfoError::SYSTEM(errno)),
            _ => None,
        }
    }
}

} // verus!
