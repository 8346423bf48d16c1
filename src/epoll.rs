//! Epoll event masks.

use vstd::prelude::*;

verus! {

/// One epoll event flag (`EPOLL*`).
#[derive(Clone, Copy, Debug, PartialEq, Eq)]
pub enum EpollFlag {
    /// 1
    In,
    /// 2
    Pri,
    /// 4
    Out,
    /// 8
    Error,
    /// 16
    Hup,
    /// 64
    Rdnorm,
    /// 128
    Rdbrand,
    /// 0x100
    Wrnorm,
    /// 0x200
    Wrband,
    /// 0x400
    Msg,
    /// 0x2000
    Rdhup,
    /// 0x10000000
    Exclusive,
    /// 0x20000000
    Wakeup,
    /// 0x40000000
    Oneshot,
    /// 0x8000_0000 as an `i32`: edge-triggered
    Et,
}

impl EpollFlag {
    pub open spec fn spec_to_bits(&self) -> i32 {
        match *self {
            EpollFlag::In => 1,
            EpollFlag::Pri => 2,
            EpollFlag::Out => 4,
            EpollFlag::Error => 8,
            EpollFlag::Hup => 16,
            EpollFlag::Rdnorm => 64,
            EpollFlag::Rdbrand => 128,
            EpollFlag::Wrnorm => 0x100,
            EpollFlag::Wrband => 0x200,
            EpollFlag::Msg => 0x400,
            EpollFlag::Rdhup => 0x2000,
            EpollFlag::Exclusive => 0x10000000,
            EpollFlag::Wakeup => 0x20000000,
            EpollFlag::Oneshot => 0x40000000,
            EpollFlag::Et => i32::MIN,
        }
    }

    /// The raw value.
    #[verifier::when_used_as_spec(spec_to_bits)]
    pub fn to_bits(&self) -> (r: i32)
        ensures
            r == self.spec_to_bits(),
    {
        match *self {
            EpollFlag::In => 1,
            EpollFlag::Pri => 2,
            EpollFlag::Out => 4,
            EpollFlag::Error => 8,
            EpollFlag::Hup => 16,
            EpollFlag::Rdnorm => 64,
            EpollFlag::Rdbrand => 128,
            EpollFlag::Wrnorm => 0x100,
            EpollFlag::Wrband => 0x200,
            EpollFlag::Msg => 0x400,
            EpollFlag::Rdhup => 0x2000,
            EpollFlag::Exclusive => 0x10000000,
            EpollFlag::Wakeup => 0x20000000,
            EpollFlag::Oneshot => 0x40000000,
            EpollFlag::Et => i32::MIN,
        }
    }
}

/// A set of epoll event flags.
#[derive(Default, Debug, Clone, Copy, PartialEq, Eq, Hash)]
pub struct EpollEvents(pub i32);

impl EpollEvents {
    /// No event.
    pub fn new() -> (r: Self)
        ensures
            r.0 == 0,
    {
        EpollEvents(0)
    }

    /// These events with `f` added.
    pub fn with(self, f: EpollFlag) -> (r: Self)
        ensures
            r.0 == self.0 | f.spec_to_bits(),
    {
        EpollEvents(self.0 | f.to_bits())
    }

    /// Whether `f` is among these events.
    pub fn contains(&self, f: EpollFlag) -> (r: bool)
        ensures
            r == (self.0 & f.spec_to_bits() != 0),
    {
        self.0 & f.to_bits() != 0
    }

    /// These events with `In` (readable) added.
    pub fn epoll_in(self) -> (r: Self)
        ensures
            r.0 == self.0 | EpollFlag::In.spec_to_bits(),
    {
        self.with(EpollFlag::In)
    }

    /// These events with `Pri` (out-of-band data) added.
    pub fn epoll_pri(self) -> (r: Self)
        ensures
            r.0 == self.0 | EpollFlag::Pri.spec_to_bits(),
    {
        self.with(EpollFlag::Pri)
    }

    /// These events with `Out` (writable) added.
    pub fn epoll_out(self) -> (r: Self)
        ensures
            r.0 == self.0 | EpollFlag::Out.spec_to_bits(),
    {
        self.with(EpollFlag::Out)
    }

    /// These events with `Error` (an error; the kernel always reports it) added.
    pub fn epoll_err(self) -> (r: Self)
        ensures
            r.0 == self.0 | EpollFlag::Error.spec_to_bits(),
    {
        self.with(EpollFlag::Error)
    }

    /// These events with `Hup` (hang-up) added.
    pub fn epoll_hup(self) -> (r: Self)
        ensures
            r.0 == self.0 | EpollFlag::Hup.spec_to_bits(),
    {
        self.with(EpollFlag::Hup)
    }

    /// These events with `Rdnorm` (normal data readable) added.
    pub fn epoll_rdnorm(self) -> (r: Self)
        ensures
            r.0 == self.0 | EpollFlag::Rdnorm.spec_to_bits(),
    {
        self.with(EpollFlag::Rdnorm)
    }

    /// These events with `Rdbrand` (priority band data readable) added.
    pub fn epoll_rdbrand(self) -> (r: Self)
        ensures
            r.0 == self.0 | EpollFlag::Rdbrand.spec_to_bits(),
    {
        self.with(EpollFlag::Rdbrand)
    }

    /// These events with `Wrnorm` (normal data writable) added.
    pub fn epoll_wrnorm(self) -> (r: Self)
        ensures
            r.0 == self.0 | EpollFlag::Wrnorm.spec_to_bits(),
    {
        self.with(EpollFlag::Wrnorm)
    }

    /// These events with `Wrband` (priority band data writable) added.
    pub fn epoll_wrbrand(self) -> (r: Self)
        ensures
            r.0 == self.0 | EpollFlag::Wrband.spec_to_bits(),
    {
        self.with(EpollFlag::Wrband)
    }

    /// These events with `Msg` (message) added.
    pub fn epoll_msg(self) -> (r: Self)
        ensures
            r.0 == self.0 | EpollFlag::Msg.spec_to_bits(),
    {
        self.with(EpollFlag::Msg)
    }

    /// These events with `Rdhup` (peer closed its writing half) added.
    pub fn epoll_rdhup(self) -> (r: Self)
        ensures
            r.0 == self.0 | EpollFlag::Rdhup.spec_to_bits(),
    {
        self.with(EpollFlag::Rdhup)
    }

    /// These events with `Exclusive` (exclusive wake-up) added.
    pub fn epoll_exclusive(self) -> (r: Self)
        ensures
            r.0 == self.0 | EpollFlag::Exclusive.spec_to_bits(),
    {
        self.with(EpollFlag::Exclusive)
    }

    /// These events with `Wakeup` (keep the system awake) added.
    pub fn epoll_wakeup(self) -> (r: Self)
        ensures
            r.0 == self.0 | EpollFlag::Wakeup.spec_to_bits(),
    {
        self.with(EpollFlag::Wakeup)
    }

    /// These events with `Oneshot` (one-shot) added.
    pub fn epoll_oneshot(self) -> (r: Self)
        ensures
            r.0 == self.0 | EpollFlag::Oneshot.spec_to_bits(),
    {
        self.with(EpollFlag::Oneshot)
    }

    /// These events with `Et` (edge-triggered) added.
    pub fn epoll_et(self) -> (r: Self)
        ensures
            r.0 == self.0 | EpollFlag::Et.spec_to_bits(),
    {
        self.with(EpollFlag::Et)
    }
}

} // verus!
