//! Signals and signal-mask operations.

use vstd::prelude::*;

verus! {

/// A POSIX signal of x86_64 Linux.
#[derive(Debug, Clone, Copy, PartialEq, Eq, Hash)]
pub enum Signal {
    /// 6: abort; same number as `SIGIOT`
    SIGABRT,
    /// 14
    SIGALRM,
    /// 7
    SIGBUS,
    /// 17
    SIGCHLD,
    /// 18
    SIGCONT,
    /// 8: Erroneous arithmetic operation
    SIGFPE,
    /// 1: Hangup detected on controlling terminal or death of controlling process
    SIGHUP,
    /// 4
    SIGILL,
    /// 2
    SIGINT,
    /// 29
    SIGIO,
    /// 9
    SIGKILL,
    /// 13
    SIGPIPE,
    /// 27: Profiling timer expired
    SIGPROF,
    /// 30: Power failure (System V)
    SIGPWR,
    /// 3: Quit from keyboard
    SIGQUIT,
    /// 11: Invalid memory reference
    SIGSEGV,
    /// 16: Stack fault on coprocessor (unused)
    SIGSTKFLT,
    /// 19: Stop process
    SIGSTOP,
    /// 20: Stop typed at terminal
    SIGTSTP,
    /// 31: Bad system call (SVr4)
    SIGSYS,
    /// 15: Termination signal
    SIGTERM,
    /// 5
    SIGTRAP,
    /// 21: Terminal input for background process
    SIGTTIN,
    /// 22: Terminal output for background process
    SIGTTOU,
    /// 23: Urgent condition on socket (4.2BSD)
    SIGURG,
    /// 10: User-defined signal 1
    SIGUSR1,
    /// 12: User-defined signal 2
    SIGUSR2,
    /// 26: Virtual alarm clock (4.2BSD)
    SIGVTALRM,
    /// 24: CPU time limit exceeded (4.2BSD)
    SIGXCPU,
    /// 25: File size limit exceeded (4.2BSD)
    SIGXFSZ,
    /// 28: Window resize signal (4.3BSD, Sun)
    SIGWINCH,
}

impl Signal {
    pub open spec fn spec_to_bits(&self) -> i32 {
        match *self {
            Signal::SIGABRT => 6,
            Signal::SIGALRM => 14,
            Signal::SIGBUS => 7,
            Signal::SIGCHLD => 17,
            Signal::SIGCONT => 18,
            Signal::SIGFPE => 8,
            Signal::SIGHUP => 1,
            Signal::SIGILL => 4,
            Signal::SIGINT => 2,
            Signal::SIGIO => 29,
            Signal::SIGKILL => 9,
            Signal::SIGPIPE => 13,
            Signal::SIGPROF => 27,
            Signal::SIGPWR => 30,
            Signal::SIGQUIT => 3,
            Signal::SIGSEGV => 11,
            Signal::SIGSTKFLT => 16,
            Signal::SIGSTOP => 19,
            Signal::SIGTSTP => 20,
            Signal::SIGSYS => 31,
            Signal::SIGTERM => 15,
            Signal::SIGTRAP => 5,
            Signal::SIGTTIN => 21,
            Signal::SIGTTOU => 22,
            Signal::SIGURG => 23,
            Signal::SIGUSR1 => 10,
            Signal::SIGUSR2 => 12,
            Signal::SIGVTALRM => 26,
            Signal::SIGXCPU => 24,
            Signal::SIGXFSZ => 25,
            Signal::SIGWINCH => 28,
        }
    }

    /// The raw value.
    #[verifier::when_used_as_spec(spec_to_bits)]
    pub fn to_bits(&self) -> (r: i32)
        ensures
            r == self.spec_to_bits(),
    {
        match *self {
            Signal::SIGABRT => 6,
            Signal::SIGALRM => 14,
            Signal::SIGBUS => 7,
            Signal::SIGCHLD => 17,
            Signal::SIGCONT => 18,
            Signal::SIGFPE => 8,
            Signal::SIGHUP => 1,
            Signal::SIGILL => 4,
            Signal::SIGINT => 2,
            Signal::SIGIO => 29,
            Signal::SIGKILL => 9,
            Signal::SIGPIPE => 13,
            Signal::SIGPROF => 27,
            Signal::SIGPWR => 30,
            Signal::SIGQUIT => 3,
            Signal::SIGSEGV => 11,
            Signal::SIGSTKFLT => 16,
            Signal::SIGSTOP => 19,
            Signal::SIGTSTP => 20,
            Signal::SIGSYS => 31,
            Signal::SIGTERM => 15,
            Signal::SIGTRAP => 5,
            Signal::SIGTTIN => 21,
            Signal::SIGTTOU => 22,
            Signal::SIGURG => 23,
            Signal::SIGUSR1 => 10,
            Signal::SIGUSR2 => 12,
            Signal::SIGVTALRM => 26,
            Signal::SIGXCPU => 24,
            Signal::SIGXFSZ => 25,
            Signal::SIGWINCH => 28,
        }
    }

    pub open spec fn spec_from_bits(v: i32) -> Option<Signal> {
        if v == 6 {
            Some(Signal::SIGABRT)
        } else if v == 14 {
            Some(Signal::SIGALRM)
        } else if v == 7 {
            Some(Signal::SIGBUS)
        } else if v == 17 {
            Some(Signal::SIGCHLD)
        } else if v == 18 {
            Some(Signal::SIGCONT)
        } else if v == 8 {
            Some(Signal::SIGFPE)
        } else if v == 1 {
            Some(Signal::SIGHUP)
        } else if v == 4 {
            Some(Signal::SIGILL)
        } else if v == 2 {
            Some(Signal::SIGINT)
        } else if v == 29 {
            Some(Signal::SIGIO)
        } else if v == 9 {
            Some(Signal::SIGKILL)
        } else if v == 13 {
            Some(Signal::SIGPIPE)
        } else if v == 27 {
            Some(Signal::SIGPROF)
        } else if v == 30 {
            Some(Signal::SIGPWR)
        } else if v == 3 {
            Some(Signal::SIGQUIT)
        } else if v == 11 {
            Some(Signal::SIGSEGV)
        } else if v == 16 {
            Some(Signal::SIGSTKFLT)
        } else if v == 19 {
            Some(Signal::SIGSTOP)
        } else if v == 20 {
            Some(Signal::SIGTSTP)
        } else if v == 31 {
            Some(Signal::SIGSYS)
        } else if v == 15 {
            Some(Signal::SIGTERM)
        } else if v == 5 {
            Some(Signal::SIGTRAP)
        } else if v == 21 {
            Some(Signal::SIGTTIN)
        } else if v == 22 {
            Some(Signal::SIGTTOU)
        } else if v == 23 {
            Some(Signal::SIGURG)
        } else if v == 10 {
            Some(Signal::SIGUSR1)
        } else if v == 12 {
            Some(Signal::SIGUSR2)
        } else if v == 26 {
            Some(Signal::SIGVTALRM)
        } else if v == 24 {
            Some(Signal::SIGXCPU)
        } else if v == 25 {
            Some(Signal::SIGXFSZ)
        } else if v == 28 {
            Some(Signal::SIGWINCH)
        } else {
            None
        }
    }

    /// The value named by `v`, if there is one.
    #[verifier::when_used_as_spec(spec_from_bits)]
    pub fn from_bits(v: i32) -> (r: Option<Signal>)
        ensures
            r == Self::spec_from_bits(v),
    {
        match v {
            6 => Some(Signal::SIGABRT),
            14 => Some(Signal::SIGALRM),
            7 => Some(Signal::SIGBUS),
            17 => Some(Signal::SIGCHLD),
            18 => Some(Signal::SIGCONT),
            8 => Some(Signal::SIGFPE),
            1 => Some(Signal::SIGHUP),
            4 => Some(Signal::SIGILL),
            2 => Some(Signal::SIGINT),
            29 => Some(Signal::SIGIO),
            9 => Some(Signal::SIGKILL),
            13 => Some(Signal::SIGPIPE),
            27 => Some(Signal::SIGPROF),
            30 => Some(Signal::SIGPWR),
            3 => Some(Signal::SIGQUIT),
            11 => Some(Signal::SIGSEGV),
            16 => Some(Signal::SIGSTKFLT),
            19 => Some(Signal::SIGSTOP),
            20 => Some(Signal::SIGTSTP),
            31 => Some(Signal::SIGSYS),
            15 => Some(Signal::SIGTERM),
            5 => Some(Signal::SIGTRAP),
            21 => Some(Signal::SIGTTIN),
            22 => Some(Signal::SIGTTOU),
            23 => Some(Signal::SIGURG),
            10 => Some(Signal::SIGUSR1),
            12 => Some(Signal::SIGUSR2),
            26 => Some(Signal::SIGVTALRM),
            24 => Some(Signal::SIGXCPU),
            25 => Some(Signal::SIGXFSZ),
            28 => Some(Signal::SIGWINCH),
            _ => None,
        }
    }
}

/// How `pthread_sigmask` changes the mask.
#[derive(Debug, Default, Clone, Copy, PartialEq, Eq)]
pub enum SigMaskHow {
    /// 0
    #[default]
    BLOCK,
    /// 1
    UNBLOCK,
    /// 2
    SETMASK,
}

impl SigMaskHow {
    pub open spec fn spec_to_bits(&self) -> i32 {
        match *self {
            SigMaskHow::BLOCK => 0,
            SigMaskHow::UNBLOCK => 1,
            SigMaskHow::SETMASK => 2,
        }
    }

    /// The raw value.
    #[verifier::when_used_as_spec(spec_to_bits)]
    pub fn to_bits(&self) -> (r: i32)
        ensures
            r == self.spec_to_bits(),
    {
        match *self {
            SigMaskHow::BLOCK => 0,
            SigMaskHow::UNBLOCK => 1,
            SigMaskHow::SETMASK => 2,
        }
    }

    pub open spec fn spec_from_bits(v: i32) -> Option<SigMaskHow> {
        if v == 0 {
            Some(SigMaskHow::BLOCK)
        } else if v == 1 {
            Some(SigMaskHow::UNBLOCK)
        } else if v == 2 {
            Some(SigMaskHow::SETMASK)
        } else {
            None
        }
    }

    /// The value named by `v`, if there is one.
    #[verifier::when_used_as_spec(spec_from_bits)]
    pub fn from_bits(v: i32) -> (r: Option<SigMaskHow>)
        ensures
            r == Self::spec_from_bits(v),
    {
        match v {
            0 => Some(SigMaskHow::BLOCK),
            1 => Some(SigMaskHow::UNBLOCK),
            2 => Some(SigMaskHow::SETMASK),
            _ => None,
        }
    }
}

} // verus!
