//! POSIX error numbers of x86_64 Linux (glibc), as a typed enum.

use vstd::prelude::*;

verus! {

/// A POSIX error number (see errno(3)).
#[derive(Debug, Clone, Copy, PartialEq, Eq, Hash, Structural)]
pub enum PosixError {
    /// Argument list too long
    ///
    /// Error number 7.
    E2BIG,
    /// Permission denied
    ///
    /// Error number 13.
    EACCES,
    /// Address already in use
    ///
    /// Error number 98.
    EADDRINUSE,
    /// Address not available
    ///
    /// Error number 99.
    EADDRNOTAVAIL,
    /// Address family not supported
    ///
    /// Error number 97.
    EAFNOSUPPORT,
    /// Resource temporarily unavailable
    ///
    /// Try again (same number as `EWOULDBLOCK` on Linux)
    ///
    /// Error number 11.
    EAGAIN,
    /// Connection already in progress
    ///
    /// Error number 114.
    EALREADY,
    /// Invalid exchange
    ///
    /// Bad Exchange
    ///
    /// Error number 52.
    EBADE,
    /// Bad file descriptor
    ///
    /// Bad File descriptor
    ///
    /// Error number 9.
    EBADF,
    /// File descriptor in bad state
    ///
    /// Error number 77.
    EBADFD,
    /// Bad message
    ///
    /// Error number 74.
    EBADMSG,
    /// Invalid request descriptor
    ///
    /// Error number 53.
    EBADR,
    /// Invalid request code
    ///
    /// Error number 56.
    EBADRQC,
    /// Invalid slot
    ///
    /// Error number 57.
    EBADSLT,
    /// Device or resource busy
    ///
    /// Error number 16.
    EBUSY,
    /// Operation canceled
    ///
    /// Error number 125.
    ECANCELED,
    /// No child processes
    ///
    /// Error number 10.
    ECHILD,
    /// Channel number out of range
    ///
    /// Error number 44.
    ECHRNG,
    /// Communication error on send
    ///
    /// Error number 70.
    ECOMM,
    /// Connection aborted
    ///
    /// ConnectionAborted
    ///
    /// Error number 103.
    ECONNABORTED,
    /// Connection refused
    ///
    /// Error number 111.
    ECONNREFUSED,
    /// Connection reset
    ///
    /// Error number 104.
    ECONNRESET,
    /// Resource deadlock avoided
    ///
    /// Error number 35.
    EDEADLK,
    /// Destination address required
    ///
    /// Error number 89.
    EDESTADDRREQ,
    /// Mathematics argument out of domain of function
    ///
    /// Error number 33.
    EDOM,
    /// Disk quota exceeded
    ///
    /// Error number 122.
    EDQUOT,
    /// File exists
    ///
    /// Error number 17.
    EEXIST,
    /// Bad address
    ///
    /// Error number 14.
    EFAULT,
    /// File too large
    ///
    /// Error number 27.
    EFBIG,
    /// Host is down
    ///
    /// Error number 112.
    EHOSTDOWN,
    /// No such host.
    ///
    /// Error number 113.
    EHOSTUNREACH,
    /// Memory page has hardware error
    ///
    /// Error number 133.
    EHWPOISON,
    /// Identifier removed.
    ///
    /// Error number 43.
    EIDRM,
    /// Illegal byte sequence.
    ///
    /// or Invalid or incomplete multibyte or wide character in glibc error
    ///
    /// Error number 84.
    EILSEQ,
    /// Operation in progress
    ///
    /// Error number 115.
    EINPROGRESS,
    /// Interrupted function call.
    ///
    /// Error number 4.
    EINTR,
    /// Invalid argument.
    ///
    /// Error number 22.
    EINVAL,
    /// I/O error.
    ///
    /// Error number 5.
    EIO,
    /// Socket is connected.
    ///
    /// Error number 106.
    EISCONN,
    /// Is a directory.
    ///
    /// Error number 21.
    EISDIR,
    /// Is a named type file.
    ///
    /// Error number 120.
    EISNAM,
    /// Key has expired.
    ///
    /// Error number 127.
    EKEYEXPIRED,
    /// Key was rejected by service.
    ///
    /// Error number 129.
    EKEYREJECTED,
    /// Key has been revoked.
    ///
    /// Error number 128.
    EKEYREVOKED,
    /// Level 2 halted.
    ///
    /// Error number 51.
    EL2HLT,
    /// Level 2 not synchronized.
    ///
    /// Error number 45.
    EL2NSYNC,
    /// Level 3 halted.
    ///
    /// Error number 46.
    EL3HLT,
    /// Level 3 reset.
    ///
    /// Error number 47.
    EL3RST,
    /// Cannot access a needed shared library.
    ///
    /// Error number 79.
    ELIBACC,
    /// Accessing a corrupted shared library.
    ///
    /// Error number 80.
    ELIBBAD,
    /// Attempting to link in too many shared libraries.
    ///
    /// Error number 82.
    ELIBMAX,
    /// .lib section in a.out corrupted
    ///
    /// Error number 81.
    ELIBSCN,
    /// Cannot exec a shared library directly.
    ///
    /// Error number 83.
    ELIBEXEC,
    /// Link number out of range.
    ///
    /// Error number 48.
    ELNRNG,
    /// Too many levels of symbolic links (POSIX.1-2001).
    ///
    /// Error number 40.
    ELOOP,
    /// Wrong medium type.
    ///
    /// Error number 124.
    EMEDIUMTYPE,
    /// Too many open files.
    ///
    /// Error number 24.
    EMFILE,
    /// Too many links
    ///
    /// Error number 31.
    EMLINK,
    /// Message too long.
    ///
    /// Error number 90.
    EMSGSIZE,
    /// Multihop attempted.
    ///
    /// Error number 72.
    EMULTIHOP,
    /// Filename too long.
    ///
    /// Error number 36.
    ENAMETOOLONG,
    /// Network is down.
    ///
    /// Error number 100.
    ENETDOWN,
    /// Connection aborted by network.
    ///
    /// Error number 102.
    ENETRESET,
    /// Network is unreachable.
    ///
    /// Error number 101.
    ENETUNREACH,
    /// Too many open files in system.
    ///
    /// Error number 23.
    ENFILE,
    /// No anode.
    ///
    /// Error number 55.
    ENOANO,
    /// No buffer space available.
    ///
    /// Error number 105.
    ENOBUFS,
    /// No message is available on the STREAM head read queue.
    ///
    /// Error number 61.
    ENODATA,
    /// No such device.
    ///
    /// Error number 19.
    ENODEV,
    /// No such file or directory.
    ///
    /// Error number 2.
    ENOENT,
    /// Executable file format error.
    ///
    /// Error number 8.
    ENOEXEC,
    /// Required key not available.
    ///
    /// Error number 126.
    ENOKEY,
    /// No locks available.
    ///
    /// Error number 37.
    ENOLCK,
    /// Link has been severed.
    ///
    /// Error number 67.
    ENOLINK,
    /// No medium found.
    ///
    /// Error number 123.
    ENOMEDIUM,
    /// Not enough space.
    ///
    /// cannot allocate memory
    ///
    /// Error number 12.
    ENOMEM,
    /// No message of the desired type.
    ///
    /// Error number 42.
    ENOMSG,
    /// Machine is not on the network.
    ///
    /// Error number 64.
    ENONET,
    /// Package not installed.
    ///
    /// Error number 65.
    ENOPKG,
    /// Protocol not available.
    ///
    /// Error number 92.
    ENOPROTOOPT,
    /// No space left on device.
    ///
    /// Error number 28.
    ENOSPC,
    /// No STREAM resources.
    ///
    /// Error number 63.
    ENOSR,
    /// Not a STREAM.
    ///
    /// Error number 60.
    ENOSTR,
    /// Function not implemented.
    ///
    /// Error number 38.
    ENOSYS,
    /// Block device required.
    ///
    /// Error number 15.
    ENOTBLK,
    /// The socket is not connected.
    ///
    /// Error number 107.
    ENOTCONN,
    /// Not a directory.
    ///
    /// Error number 20.
    ENOTDIR,
    /// Directory not empty.
    ///
    /// Error number 39.
    ENOTEMPTY,
    /// State not recoverable.
    ///
    /// Error number 131.
    ENOTRECOVERABLE,
    /// Not a socket.
    ///
    /// Error number 88.
    ENOTSOCK,
    /// Inappropriate I/O control operation.
    ///
    /// Error number 25.
    ENOTTY,
    /// Name not unique on network.
    ///
    /// Error number 76.
    ENOTUNIQ,
    /// No such device or address.
    ///
    /// Error number 6.
    ENXIO,
    /// Operation not supported on socket.
    ///
    /// Error number 95.
    EOPNOTSUPP,
    /// Value too large to be stored in data type.
    ///
    /// Error number 75.
    EOVERFLOW,
    /// Owner died.
    ///
    /// Error number 130.
    EOWNERDEAD,
    /// Operation not permitted.
    ///
    /// Error number 1.
    EPERM,
    /// Protocol family not supported.
    ///
    /// Error number 96.
    EPFNOSUPPORT,
    /// Broken pipe.
    ///
    /// Error number 32.
    EPIPE,
    /// Protocol error.
    ///
    /// Error number 71.
    EPROTO,
    /// Protocol not supported.
    ///
    /// Error number 93.
    EPROTONOSUPPORT,
    /// Protocol wrong type for socket
    ///
    /// Error number 91.
    EPROTOTYPE,
    /// Result too large.
    ///
    /// Error number 34.
    ERANGE,
    /// Remote address changed.
    ///
    /// Error number 78.
    EREMCHG,
    /// Object is remote.
    ///
    /// Error number 66.
    EREMOTE,
    /// Remote I/O error.
    ///
    /// Error number 121.
    EREMOTEIO,
    /// Interrupted system call should be restarted.
    ///
    /// Error number 85.
    ERESTART,
    /// Operation not possible due to RF-kill.
    ///
    /// Error number 132.
    ERFKILL,
    /// Read-only file system.
    ///
    /// Error number 30.
    EROFS,
    /// Cannot send after transport endpoint shutdown.
    ///
    /// Error number 108.
    ESHUTDOWN,
    /// Invalid seek.
    ///
    /// Error number 29.
    ESPIPE,
    /// Socket type not supported.
    ///
    /// Error number 94.
    ESOCKTNOSUPPORT,
    /// No such process.
    ///
    /// Error number 3.
    ESRCH,
    /// Stale file handle reference.
    ///
    /// Error number 116.
    ESTALE,
    /// Streams pipe error.
    ///
    /// Error number 86.
    ESTRPIPE,
    /// Stream timed out.
    ///
    /// Error number 62.
    ETIME,
    /// Connection timed out.
    ///
    /// Error number 110.
    ETIMEDOUT,
    /// Too many references: cannot splice.
    ///
    /// Error number 109.
    ETOOMANYREFS,
    /// Text file busy.
    ///
    /// Error number 26.
    ETXTBSY,
    /// Structure needs cleaning.
    ///
    /// Error number 117.
    EUCLEAN,
    /// Protocol driver not attached.
    ///
    /// Error number 49.
    EUNATCH,
    /// Too many users.
    ///
    /// Error number 87.
    EUSERS,
    /// Invalid cross-device link.
    ///
    /// Error number 18.
    EXDEV,
    /// Exchange full.
    ///
    /// Error number 54.
    EXFULL,
}

impl PosixError {
    pub open spec fn spec_code(&self) -> i32 {
        match *self {
            PosixError::E2BIG => 7,
            PosixError::EACCES => 13,
            PosixError::EADDRINUSE => 98,
            PosixError::EADDRNOTAVAIL => 99,
            PosixError::EAFNOSUPPORT => 97,
            PosixError::EAGAIN => 11,
            PosixError::EALREADY => 114,
            PosixError::EBADE => 52,
            PosixError::EBADF => 9,
            PosixError::EBADFD => 77,
            PosixError::EBADMSG => 74,
            PosixError::EBADR => 53,
            PosixError::EBADRQC => 56,
            PosixError::EBADSLT => 57,
            PosixError::EBUSY => 16,
            PosixError::ECANCELED => 125,
            PosixError::ECHILD => 10,
            PosixError::ECHRNG => 44,
            PosixError::ECOMM => 70,
            PosixError::ECONNABORTED => 103,
            PosixError::ECONNREFUSED => 111,
            PosixError::ECONNRESET => 104,
            PosixError::EDEADLK => 35,
            PosixError::EDESTADDRREQ => 89,
            PosixError::EDOM => 33,
            PosixError::EDQUOT => 122,
            PosixError::EEXIST => 17,
            PosixError::EFAULT => 14,
            PosixError::EFBIG => 27,
            PosixError::EHOSTDOWN => 112,
            PosixError::EHOSTUNREACH => 113,
            PosixError::EHWPOISON => 133,
            PosixError::EIDRM => 43,
            PosixError::EILSEQ => 84,
            PosixError::EINPROGRESS => 115,
            PosixError::EINTR => 4,
            PosixError::EINVAL => 22,
            PosixError::EIO => 5,
            PosixError::EISCONN => 106,
            PosixError::EISDIR => 21,
            PosixError::EISNAM => 120,
            PosixError::EKEYEXPIRED => 127,
            PosixError::EKEYREJECTED => 129,
            PosixError::EKEYREVOKED => 128,
            PosixError::EL2HLT => 51,
            PosixError::EL2NSYNC => 45,
            PosixError::EL3HLT => 46,
            PosixError::EL3RST => 47,
            PosixError::ELIBACC => 79,
            PosixError::ELIBBAD => 80,
            PosixError::ELIBMAX => 82,
            PosixError::ELIBSCN => 81,
            PosixError::ELIBEXEC => 83,
            PosixError::ELNRNG => 48,
            PosixError::ELOOP => 40,
            PosixError::EMEDIUMTYPE => 124,
            PosixError::EMFILE => 24,
            PosixError::EMLINK => 31,
            PosixError::EMSGSIZE => 90,
            PosixError::EMULTIHOP => 72,
            PosixError::ENAMETOOLONG => 36,
            PosixError::ENETDOWN => 100,
            PosixError::ENETRESET => 102,
            PosixError::ENETUNREACH => 101,
            PosixError::ENFILE => 23,
            PosixError::ENOANO => 55,
            PosixError::ENOBUFS => 105,
            PosixError::ENODATA => 61,
            PosixError::ENODEV => 19,
            PosixError::ENOENT => 2,
            PosixError::ENOEXEC => 8,
            PosixError::ENOKEY => 126,
            PosixError::ENOLCK => 37,
            PosixError::ENOLINK => 67,
            PosixError::ENOMEDIUM => 123,
            PosixError::ENOMEM => 12,
            PosixError::ENOMSG => 42,
            PosixError::ENONET => 64,
            PosixError::ENOPKG => 65,
            PosixError::ENOPROTOOPT => 92,
            PosixError::ENOSPC => 28,
            PosixError::ENOSR => 63,
            PosixError::ENOSTR => 60,
            PosixError::ENOSYS => 38,
            PosixError::ENOTBLK => 15,
            PosixError::ENOTCONN => 107,
            PosixError::ENOTDIR => 20,
            PosixError::ENOTEMPTY => 39,
            PosixError::ENOTRECOVERABLE => 131,
            PosixError::ENOTSOCK => 88,
            PosixError::ENOTTY => 25,
            PosixError::ENOTUNIQ => 76,
            PosixError::ENXIO => 6,
            PosixError::EOPNOTSUPP => 95,
            PosixError::EOVERFLOW => 75,
            PosixError::EOWNERDEAD => 130,
            PosixError::EPERM => 1,
            PosixError::EPFNOSUPPORT => 96,
            PosixError::EPIPE => 32,
            PosixError::EPROTO => 71,
            PosixError::EPROTONOSUPPORT => 93,
            PosixError::EPROTOTYPE => 91,
            PosixError::ERANGE => 34,
            PosixError::EREMCHG => 78,
            PosixError::EREMOTE => 66,
            PosixError::EREMOTEIO => 121,
            PosixError::ERESTART => 85,
            PosixError::ERFKILL => 132,
            PosixError::EROFS => 30,
            PosixError::ESHUTDOWN => 108,
            PosixError::ESPIPE => 29,
            PosixError::ESOCKTNOSUPPORT => 94,
            PosixError::ESRCH => 3,
            PosixError::ESTALE => 116,
            PosixError::ESTRPIPE => 86,
            PosixError::ETIME => 62,
            PosixError::ETIMEDOUT => 110,
            PosixError::ETOOMANYREFS => 109,
            PosixError::ETXTBSY => 26,
            PosixError::EUCLEAN => 117,
            PosixError::EUNATCH => 49,
            PosixError::EUSERS => 87,
            PosixError::EXDEV => 18,
            PosixError::EXFULL => 54,
        }
    }

    /// The error number.
    #[verifier::when_used_as_spec(spec_code)]
    pub fn code(&self) -> (r: i32)
        ensures
            r == self.spec_code(),
    {
        match *self {
            PosixError::E2BIG => 7,
            PosixError::EACCES => 13,
            PosixError::EADDRINUSE => 98,
            PosixError::EADDRNOTAVAIL => 99,
            PosixError::EAFNOSUPPORT => 97,
            PosixError::EAGAIN => 11,
            PosixError::EALREADY => 114,
            PosixError::EBADE => 52,
            PosixError::EBADF => 9,
            PosixError::EBADFD => 77,
            PosixError::EBADMSG => 74,
            PosixError::EBADR => 53,
            PosixError::EBADRQC => 56,
            PosixError::EBADSLT => 57,
            PosixError::EBUSY => 16,
            PosixError::ECANCELED => 125,
            PosixError::ECHILD => 10,
            PosixError::ECHRNG => 44,
            PosixError::ECOMM => 70,
            PosixError::ECONNABORTED => 103,
            PosixError::ECONNREFUSED => 111,
            PosixError::ECONNRESET => 104,
            PosixError::EDEADLK => 35,
            PosixError::EDESTADDRREQ => 89,
            PosixError::EDOM => 33,
            PosixError::EDQUOT => 122,
            PosixError::EEXIST => 17,
            PosixError::EFAULT => 14,
            PosixError::EFBIG => 27,
            PosixError::EHOSTDOWN => 112,
            PosixError::EHOSTUNREACH => 113,
            PosixError::EHWPOISON => 133,
            PosixError::EIDRM => 43,
            PosixError::EILSEQ => 84,
            PosixError::EINPROGRESS => 115,
            PosixError::EINTR => 4,
            PosixError::EINVAL => 22,
            PosixError::EIO => 5,
            PosixError::EISCONN => 106,
            PosixError::EISDIR => 21,
            PosixError::EISNAM => 120,
            PosixError::EKEYEXPIRED => 127,
            PosixError::EKEYREJECTED => 129,
            PosixError::EKEYREVOKED => 128,
            PosixError::EL2HLT => 51,
            PosixError::EL2NSYNC => 45,
            PosixError::EL3HLT => 46,
            PosixError::EL3RST => 47,
            PosixError::ELIBACC => 79,
            PosixError::ELIBBAD => 80,
            PosixError::ELIBMAX => 82,
            PosixError::ELIBSCN => 81,
            PosixError::ELIBEXEC => 83,
            PosixError::ELNRNG => 48,
            PosixError::ELOOP => 40,
            PosixError::EMEDIUMTYPE => 124,
            PosixError::EMFILE => 24,
            PosixError::EMLINK => 31,
            PosixError::EMSGSIZE => 90,
            PosixError::EMULTIHOP => 72,
            PosixError::ENAMETOOLONG => 36,
            PosixError::ENETDOWN => 100,
            PosixError::ENETRESET => 102,
            PosixError::ENETUNREACH => 101,
            PosixError::ENFILE => 23,
            PosixError::ENOANO => 55,
            PosixError::ENOBUFS => 105,
            PosixError::ENODATA => 61,
            PosixError::ENODEV => 19,
            PosixError::ENOENT => 2,
            PosixError::ENOEXEC => 8,
            PosixError::ENOKEY => 126,
            PosixError::ENOLCK => 37,
            PosixError::ENOLINK => 67,
            PosixError::ENOMEDIUM => 123,
            PosixError::ENOMEM => 12,
            PosixError::ENOMSG => 42,
            PosixError::ENONET => 64,
            PosixError::ENOPKG => 65,
            PosixError::ENOPROTOOPT => 92,
            PosixError::ENOSPC => 28,
            PosixError::ENOSR => 63,
            PosixError::ENOSTR => 60,
            PosixError::ENOSYS => 38,
            PosixError::ENOTBLK => 15,
            PosixError::ENOTCONN => 107,
            PosixError::ENOTDIR => 20,
            PosixError::ENOTEMPTY => 39,
            PosixError::ENOTRECOVERABLE => 131,
            PosixError::ENOTSOCK => 88,
            PosixError::ENOTTY => 25,
            PosixError::ENOTUNIQ => 76,
            PosixError::ENXIO => 6,
            PosixError::EOPNOTSUPP => 95,
            PosixError::EOVERFLOW => 75,
            PosixError::EOWNERDEAD => 130,
            PosixError::EPERM => 1,
            PosixError::EPFNOSUPPORT => 96,
            PosixError::EPIPE => 32,
            PosixError::EPROTO => 71,
            PosixError::EPROTONOSUPPORT => 93,
            PosixError::EPROTOTYPE => 91,
            PosixError::ERANGE => 34,
            PosixError::EREMCHG => 78,
            PosixError::EREMOTE => 66,
            PosixError::EREMOTEIO => 121,
            PosixError::ERESTART => 85,
            PosixError::ERFKILL => 132,
            PosixError::EROFS => 30,
            PosixError::ESHUTDOWN => 108,
            PosixError::ESPIPE => 29,
            PosixError::ESOCKTNOSUPPORT => 94,
            PosixError::ESRCH => 3,
            PosixError::ESTALE => 116,
            PosixError::ESTRPIPE => 86,
            PosixError::ETIME => 62,
            PosixError::ETIMEDOUT => 110,
            PosixError::ETOOMANYREFS => 109,
            PosixError::ETXTBSY => 26,
            PosixError::EUCLEAN => 117,
            PosixError::EUNATCH => 49,
            PosixError::EUSERS => 87,
            PosixError::EXDEV => 18,
            PosixError::EXFULL => 54,
        }
    }

    pub open spec fn spec_from_code(c: i32) -> Option<PosixError> {
        if c == 7 {
            Some(PosixError::E2BIG)
        } else if c == 13 {
            Some(PosixError::EACCES)
        } else if c == 98 {
            Some(PosixError::EADDRINUSE)
        } else if c == 99 {
            Some(PosixError::EADDRNOTAVAIL)
        } else if c == 97 {
            Some(PosixError::EAFNOSUPPORT)
        } else if c == 11 {
            Some(PosixError::EAGAIN)
        } else if c == 114 {
            Some(PosixError::EALREADY)
        } else if c == 52 {
            Some(PosixError::EBADE)
        } else if c == 9 {
            Some(PosixError::EBADF)
        } else if c == 77 {
            Some(PosixError::EBADFD)
        } else if c == 74 {
            Some(PosixError::EBADMSG)
        } else if c == 53 {
            Some(PosixError::EBADR)
        } else if c == 56 {
            Some(PosixError::EBADRQC)
        } else if c == 57 {
            Some(PosixError::EBADSLT)
        } else if c == 16 {
            Some(PosixError::EBUSY)
        } else if c == 125 {
            Some(PosixError::ECANCELED)
        } else if c == 10 {
            Some(PosixError::ECHILD)
        } else if c == 44 {
            Some(PosixError::ECHRNG)
        } else if c == 70 {
            Some(PosixError::ECOMM)
        } else if c == 103 {
            Some(PosixError::ECONNABORTED)
        } else if c == 111 {
            Some(PosixError::ECONNREFUSED)
        } else if c == 104 {
            Some(PosixError::ECONNRESET)
        } else if c == 35 {
            Some(PosixError::EDEADLK)
        } else if c == 89 {
            Some(PosixError::EDESTADDRREQ)
        } else if c == 33 {
            Some(PosixError::EDOM)
        } else if c == 122 {
            Some(PosixError::EDQUOT)
        } else if c == 17 {
            Some(PosixError::EEXIST)
        } else if c == 14 {
            Some(PosixError::EFAULT)
        } else if c == 27 {
            Some(PosixError::EFBIG)
        } else if c == 112 {
            Some(PosixError::EHOSTDOWN)
        } else if c == 113 {
            Some(PosixError::EHOSTUNREACH)
        } else if c == 133 {
            Some(PosixError::EHWPOISON)
        } else if c == 43 {
            Some(PosixError::EIDRM)
        } else if c == 84 {
            Some(PosixError::EILSEQ)
        } else if c == 115 {
            Some(PosixError::EINPROGRESS)
        } else if c == 4 {
            Some(PosixError::EINTR)
        } else if c == 22 {
            Some(PosixError::EINVAL)
        } else if c == 5 {
            Some(PosixError::EIO)
        } else if c == 106 {
            Some(PosixError::EISCONN)
        } else if c == 21 {
            Some(PosixError::EISDIR)
        } else if c == 120 {
            Some(PosixError::EISNAM)
        } else if c == 127 {
            Some(PosixError::EKEYEXPIRED)
        } else if c == 129 {
            Some(PosixError::EKEYREJECTED)
        } else if c == 128 {
            Some(PosixError::EKEYREVOKED)
        } else if c == 51 {
            Some(PosixError::EL2HLT)
        } else if c == 45 {
            Some(PosixError::EL2NSYNC)
        } else if c == 46 {
            Some(PosixError::EL3HLT)
        } else if c == 47 {
            Some(PosixError::EL3RST)
        } else if c == 79 {
            Some(PosixError::ELIBACC)
        } else if c == 80 {
            Some(PosixError::ELIBBAD)
        } else if c == 82 {
            Some(PosixError::ELIBMAX)
        } else if c == 81 {
            Some(PosixError::ELIBSCN)
        } else if c == 83 {
            Some(PosixError::ELIBEXEC)
        } else if c == 48 {
            Some(PosixError::ELNRNG)
        } else if c == 40 {
            Some(PosixError::ELOOP)
        } else if c == 124 {
            Some(PosixError::EMEDIUMTYPE)
        } else if c == 24 {
            Some(PosixError::EMFILE)
        } else if c == 31 {
            Some(PosixError::EMLINK)
        } else if c == 90 {
            Some(PosixError::EMSGSIZE)
        } else if c == 72 {
            Some(PosixError::EMULTIHOP)
        } else if c == 36 {
            Some(PosixError::ENAMETOOLONG)
        } else if c == 100 {
            Some(PosixError::ENETDOWN)
        } else if c == 102 {
            Some(PosixError::ENETRESET)
        } else if c == 101 {
            Some(PosixError::ENETUNREACH)
        } else if c == 23 {
            Some(PosixError::ENFILE)
        } else if c == 55 {
            Some(PosixError::ENOANO)
        } else if c == 105 {
            Some(PosixError::ENOBUFS)
        } else if c == 61 {
            Some(PosixError::ENODATA)
        } else if c == 19 {
            Some(PosixError::ENODEV)
        } else if c == 2 {
            Some(PosixError::ENOENT)
        } else if c == 8 {
            Some(PosixError::ENOEXEC)
        } else if c == 126 {
            Some(PosixError::ENOKEY)
        } else if c == 37 {
            Some(PosixError::ENOLCK)
        } else if c == 67 {
            Some(PosixError::ENOLINK)
        } else if c == 123 {
            Some(PosixError::ENOMEDIUM)
        } else if c == 12 {
            Some(PosixError::ENOMEM)
        } else if c == 42 {
            Some(PosixError::ENOMSG)
        } else if c == 64 {
            Some(PosixError::ENONET)
        } else if c == 65 {
            Some(PosixError::ENOPKG)
        } else if c == 92 {
            Some(PosixError::ENOPROTOOPT)
        } else if c == 28 {
            Some(PosixError::ENOSPC)
        } else if c == 63 {
            Some(PosixError::ENOSR)
        } else if c == 60 {
            Some(PosixError::ENOSTR)
        } else if c == 38 {
            Some(PosixError::ENOSYS)
        } else if c == 15 {
            Some(PosixError::ENOTBLK)
        } else if c == 107 {
            Some(PosixError::ENOTCONN)
        } else if c == 20 {
            Some(PosixError::ENOTDIR)
        } else if c == 39 {
            Some(PosixError::ENOTEMPTY)
        } else if c == 131 {
            Some(PosixError::ENOTRECOVERABLE)
        } else if c == 88 {
            Some(PosixError::ENOTSOCK)
        } else if c == 25 {
            Some(PosixError::ENOTTY)
        } else if c == 76 {
            Some(PosixError::ENOTUNIQ)
        } else if c == 6 {
            Some(PosixError::ENXIO)
        } else if c == 95 {
            Some(PosixError::EOPNOTSUPP)
        } else if c == 75 {
            Some(PosixError::EOVERFLOW)
        } else if c == 130 {
            Some(PosixError::EOWNERDEAD)
        } else if c == 1 {
            Some(PosixError::EPERM)
        } else if c == 96 {
            Some(PosixError::EPFNOSUPPORT)
        } else if c == 32 {
            Some(PosixError::EPIPE)
        } else if c == 71 {
            Some(PosixError::EPROTO)
        } else if c == 93 {
            Some(PosixError::EPROTONOSUPPORT)
        } else if c == 91 {
            Some(PosixError::EPROTOTYPE)
        } else if c == 34 {
            Some(PosixError::ERANGE)
        } else if c == 78 {
            Some(PosixError::EREMCHG)
        } else if c == 66 {
            Some(PosixError::EREMOTE)
        } else if c == 121 {
            Some(PosixError::EREMOTEIO)
        } else if c == 85 {
            Some(PosixError::ERESTART)
        } else if c == 132 {
            Some(PosixError::ERFKILL)
        } else if c == 30 {
            Some(PosixError::EROFS)
        } else if c == 108 {
            Some(PosixError::ESHUTDOWN)
        } else if c == 29 {
            Some(PosixError::ESPIPE)
        } else if c == 94 {
            Some(PosixError::ESOCKTNOSUPPORT)
        } else if c == 3 {
            Some(PosixError::ESRCH)
        } else if c == 116 {
            Some(PosixError::ESTALE)
        } else if c == 86 {
            Some(PosixError::ESTRPIPE)
        } else if c == 62 {
            Some(PosixError::ETIME)
        } else if c == 110 {
            Some(PosixError::ETIMEDOUT)
        } else if c == 109 {
            Some(PosixError::ETOOMANYREFS)
        } else if c == 26 {
            Some(PosixError::ETXTBSY)
        } else if c == 117 {
            Some(PosixError::EUCLEAN)
        } else if c == 49 {
            Some(PosixError::EUNATCH)
        } else if c == 87 {
            Some(PosixError::EUSERS)
        } else if c == 18 {
            Some(PosixError::EXDEV)
        } else if c == 54 {
            Some(PosixError::EXFULL)
        } else {
            None
        }
    }

    /// The error with number `c`, if this table holds one.
    #[verifier::when_used_as_spec(spec_from_code)]
    pub fn from_code(c: i32) -> (r: Option<PosixError>)
        ensures
            r == Self::spec_from_code(c),
    {
        match c {
            7 => Some(PosixError::E2BIG),
            13 => Some(PosixError::EACCES),
            98 => Some(PosixError::EADDRINUSE),
            99 => Some(PosixError::EADDRNOTAVAIL),
            97 => Some(PosixError::EAFNOSUPPORT),
            11 => Some(PosixError::EAGAIN),
            114 => Some(PosixError::EALREADY),
            52 => Some(PosixError::EBADE),
            9 => Some(PosixError::EBADF),
            77 => Some(PosixError::EBADFD),
            74 => Some(PosixError::EBADMSG),
            53 => Some(PosixError::EBADR),
            56 => Some(PosixError::EBADRQC),
            57 => Some(PosixError::EBADSLT),
            16 => Some(PosixError::EBUSY),
            125 => Some(PosixError::ECANCELED),
            10 => Some(PosixError::ECHILD),
            44 => Some(PosixError::ECHRNG),
            70 => Some(PosixError::ECOMM),
            103 => Some(PosixError::ECONNABORTED),
            111 => Some(PosixError::ECONNREFUSED),
            104 => Some(PosixError::ECONNRESET),
            35 => Some(PosixError::EDEADLK),
            89 => Some(PosixError::EDESTADDRREQ),
            33 => Some(PosixError::EDOM),
            122 => Some(PosixError::EDQUOT),
            17 => Some(PosixError::EEXIST),
            14 => Some(PosixError::EFAULT),
            27 => Some(PosixError::EFBIG),
            112 => Some(PosixError::EHOSTDOWN),
            113 => Some(PosixError::EHOSTUNREACH),
            133 => Some(PosixError::EHWPOISON),
            43 => Some(PosixError::EIDRM),
            84 => Some(PosixError::EILSEQ),
            115 => Some(PosixError::EINPROGRESS),
            4 => Some(PosixError::EINTR),
            22 => Some(PosixError::EINVAL),
            5 => Some(PosixError::EIO),
            106 => Some(PosixError::EISCONN),
            21 => Some(PosixError::EISDIR),
            120 => Some(PosixError::EISNAM),
            127 => Some(PosixError::EKEYEXPIRED),
            129 => Some(PosixError::EKEYREJECTED),
            128 => Some(PosixError::EKEYREVOKED),
            51 => Some(PosixError::EL2HLT),
            45 => Some(PosixError::EL2NSYNC),
            46 => Some(PosixError::EL3HLT),
            47 => Some(PosixError::EL3RST),
            79 => Some(PosixError::ELIBACC),
            80 => Some(PosixError::ELIBBAD),
            82 => Some(PosixError::ELIBMAX),
            81 => Some(PosixError::ELIBSCN),
            83 => Some(PosixError::ELIBEXEC),
            48 => Some(PosixError::ELNRNG),
            40 => Some(PosixError::ELOOP),
            124 => Some(PosixError::EMEDIUMTYPE),
            24 => Some(PosixError::EMFILE),
            31 => Some(PosixError::EMLINK),
            90 => Some(PosixError::EMSGSIZE),
            72 => Some(PosixError::EMULTIHOP),
            36 => Some(PosixError::ENAMETOOLONG),
            100 => Some(PosixError::ENETDOWN),
            102 => Some(PosixError::ENETRESET),
            101 => Some(PosixError::ENETUNREACH),
            23 => Some(PosixError::ENFILE),
            55 => Some(PosixError::ENOANO),
            105 => Some(PosixError::ENOBUFS),
            61 => Some(PosixError::ENODATA),
            19 => Some(PosixError::ENODEV),
            2 => Some(PosixError::ENOENT),
            8 => Some(PosixError::ENOEXEC),
            126 => Some(PosixError::ENOKEY),
            37 => Some(PosixError::ENOLCK),
            67 => Some(PosixError::ENOLINK),
            123 => Some(PosixError::ENOMEDIUM),
            12 => Some(PosixError::ENOMEM),
            42 => Some(PosixError::ENOMSG),
            64 => Some(PosixError::ENONET),
            65 => Some(PosixError::ENOPKG),
            92 => Some(PosixError::ENOPROTOOPT),
            28 => Some(PosixError::ENOSPC),
            63 => Some(PosixError::ENOSR),
            60 => Some(PosixError::ENOSTR),
            38 => Some(PosixError::ENOSYS),
            15 => Some(PosixError::ENOTBLK),
            107 => Some(PosixError::ENOTCONN),
            20 => Some(PosixError::ENOTDIR),
            39 => Some(PosixError::ENOTEMPTY),
            131 => Some(PosixError::ENOTRECOVERABLE),
            88 => Some(PosixError::ENOTSOCK),
            25 => Some(PosixError::ENOTTY),
            76 => Some(PosixError::ENOTUNIQ),
            6 => Some(PosixError::ENXIO),
            95 => Some(PosixError::EOPNOTSUPP),
            75 => Some(PosixError::EOVERFLOW),
            130 => Some(PosixError::EOWNERDEAD),
            1 => Some(PosixError::EPERM),
            96 => Some(PosixError::EPFNOSUPPORT),
            32 => Some(PosixError::EPIPE),
            71 => Some(PosixError::EPROTO),
            93 => Some(PosixError::EPROTONOSUPPORT),
            91 => Some(PosixError::EPROTOTYPE),
            34 => Some(PosixError::ERANGE),
            78 => Some(PosixError::EREMCHG),
            66 => Some(PosixError::EREMOTE),
            121 => Some(PosixError::EREMOTEIO),
            85 => Some(PosixError::ERESTART),
            132 => Some(PosixError::ERFKILL),
            30 => Some(PosixError::EROFS),
            108 => Some(PosixError::ESHUTDOWN),
            29 => Some(PosixError::ESPIPE),
            94 => Some(PosixError::ESOCKTNOSUPPORT),
            3 => Some(PosixError::ESRCH),
            116 => Some(PosixError::ESTALE),
            86 => Some(PosixError::ESTRPIPE),
            62 => Some(PosixError::ETIME),
            110 => Some(PosixError::ETIMEDOUT),
            109 => Some(PosixError::ETOOMANYREFS),
            26 => Some(PosixError::ETXTBSY),
            117 => Some(PosixError::EUCLEAN),
            49 => Some(PosixError::EUNATCH),
            87 => Some(PosixError::EUSERS),
            18 => Some(PosixError::EXDEV),
            54 => Some(PosixError::EXFULL),
            _ => None,
        }
    }

    pub open spec fn spec_description(&self) -> &'static str {
        match *self {
            PosixError::E2BIG => "Argument list too long",
            PosixError::EACCES => "Permission denied",
            PosixError::EADDRINUSE => "Address already in use",
            PosixError::EADDRNOTAVAIL => "Address not available",
            PosixError::EAFNOSUPPORT => "Address family not supported",
            PosixError::EAGAIN => "Resource temporarily unavailable",
            PosixError::EALREADY => "Connection already in progress",
            PosixError::EBADE => "Invalid exchange",
            PosixError::EBADF => "Bad file descriptor",
            PosixError::EBADFD => "File descriptor in bad state",
            PosixError::EBADMSG => "Bad message",
            PosixError::EBADR => "Invalid request descriptor",
            PosixError::EBADRQC => "Invalid request code",
            PosixError::EBADSLT => "Invalid slot",
            PosixError::EBUSY => "Device or resource busy",
            PosixError::ECANCELED => "Operation canceled",
            PosixError::ECHILD => "No child processes",
            PosixError::ECHRNG => "Channel number out of range",
            PosixError::ECOMM => "Communication error on send",
            PosixError::ECONNABORTED => "Software caused connection abort",
            PosixError::ECONNREFUSED => "Connection refused",
            PosixError::ECONNRESET => "Connection reset by peer",
            PosixError::EDEADLK => "Resource deadlock would occur",
            PosixError::EDESTADDRREQ => "Destination address required",
            PosixError::EDOM => "Math argument out of domain",
            PosixError::EDQUOT => "Quota exceeded",
            PosixError::EEXIST => "File exists",
            PosixError::EFAULT => "Bad address",
            PosixError::EFBIG => "File too large",
            PosixError::EHOSTDOWN => "Host is down",
            PosixError::EHOSTUNREACH => "Host unreachable",
            PosixError::EHWPOISON => "Memory hardware error",
            PosixError::EIDRM => "Identifier removed",
            PosixError::EILSEQ => "Invalid or incomplete multibyte or wide character",
            PosixError::EINPROGRESS => "Operation in progress",
            PosixError::EINTR => "Interrupted system call",
            PosixError::EINVAL => "Invalid argument",
            PosixError::EIO => "I/O error",
            PosixError::EISCONN => "Transport endpoint connected",
            PosixError::EISDIR => "Is a directory",
            PosixError::EISNAM => "Is a named type file",
            PosixError::EKEYEXPIRED => "Key expired",
            PosixError::EKEYREJECTED => "Key rejected by service",
            PosixError::EKEYREVOKED => "Key revoked",
            PosixError::EL2HLT => "Level 2 halted",
            PosixError::EL2NSYNC => "Level 2 not synchronized",
            PosixError::EL3HLT => "Level 3 halted",
            PosixError::EL3RST => "Level 3 reset",
            PosixError::ELIBACC => "Cannot access a needed shared library",
            PosixError::ELIBBAD => "Accessing a corrupted shared library",
            PosixError::ELIBMAX => "Attempting to link in too many shared libraries",
            PosixError::ELIBSCN => ".lib section in a.out corrupted",
            PosixError::ELIBEXEC => "Cannot exec a shared library directly",
            PosixError::ELNRNG => "Link number out of range",
            PosixError::ELOOP => "Too many symbolic links",
            PosixError::EMEDIUMTYPE => "Wrong medium type",
            PosixError::EMFILE => "Too many open files",
            PosixError::EMLINK => "Too many links",
            PosixError::EMSGSIZE => "Message too long",
            PosixError::EMULTIHOP => "Multihop attempted",
            PosixError::ENAMETOOLONG => "Filename too long",
            PosixError::ENETDOWN => "Network is down",
            PosixError::ENETRESET => "Network dropped connection",
            PosixError::ENETUNREACH => "Network unreachable",
            PosixError::ENFILE => "File table overflow",
            PosixError::ENOANO => "No anode",
            PosixError::ENOBUFS => "No buffer space",
            PosixError::ENODATA => "No message is available on the STREAM head read queue",
            PosixError::ENODEV => "No such device",
            PosixError::ENOENT => "No such file or directory",
            PosixError::ENOEXEC => "Executable format error",
            PosixError::ENOKEY => "Required key unavailable",
            PosixError::ENOLCK => "No locks available",
            PosixError::ENOLINK => "Link has been severed",
            PosixError::ENOMEDIUM => "No medium found",
            PosixError::ENOMEM => "Out of memory",
            PosixError::ENOMSG => "No message of the desired type",
            PosixError::ENONET => "Machine is not on the network",
            PosixError::ENOPKG => "Package not installed",
            PosixError::ENOPROTOOPT => "Protocol not available",
            PosixError::ENOSPC => "No space left on device",
            PosixError::ENOSR => "No STREAM resources",
            PosixError::ENOSTR => "Not a STREAM",
            PosixError::ENOSYS => "Function not implemented",
            PosixError::ENOTBLK => "Block device required",
            PosixError::ENOTCONN => "Transport endpoint not connected",
            PosixError::ENOTDIR => "Not a directory",
            PosixError::ENOTEMPTY => "Directory not empty",
            PosixError::ENOTRECOVERABLE => "State not recoverable",
            PosixError::ENOTSOCK => "Not a socket",
            PosixError::ENOTTY => "Not a terminal",
            PosixError::ENOTUNIQ => "Name not unique on network",
            PosixError::ENXIO => "No such device or address",
            PosixError::EOPNOTSUPP => "Operation not supported",
            PosixError::EOVERFLOW => "Value too large to be stored in data type",
            PosixError::EOWNERDEAD => "Owner terminated",
            PosixError::EPERM => "Operation not permitted",
            PosixError::EPFNOSUPPORT => "Protocol family not supported",
            PosixError::EPIPE => "Broken pipe",
            PosixError::EPROTO => "Protocol error",
            PosixError::EPROTONOSUPPORT => "Protocol not supported",
            PosixError::EPROTOTYPE => "Protocol wrong type",
            PosixError::ERANGE => "Math result not representable",
            PosixError::EREMCHG => "Remote address changed",
            PosixError::EREMOTE => "Object is remote",
            PosixError::EREMOTEIO => "Remote I/O error",
            PosixError::ERESTART => "Interrupted system call should be restarted",
            PosixError::ERFKILL => "RF-Kill condition",
            PosixError::EROFS => "Read-only file system",
            PosixError::ESHUTDOWN => "Endpoint shutdown",
            PosixError::ESPIPE => "Illegal seek",
            PosixError::ESOCKTNOSUPPORT => "Socket type not supported",
            PosixError::ESRCH => "No such process",
            PosixError::ESTALE => "Stale file handle",
            PosixError::ESTRPIPE => "Streams pipe error",
            PosixError::ETIME => "Timer expired",
            PosixError::ETIMEDOUT => "Connection timed out",
            PosixError::ETOOMANYREFS => "Too many references",
            PosixError::ETXTBSY => "Text file busy",
            PosixError::EUCLEAN => "Structure needs cleaning",
            PosixError::EUNATCH => "Protocol driver not attached",
            PosixError::EUSERS => "Too many users",
            PosixError::EXDEV => "Cross-device link",
            PosixError::EXFULL => "Exchange full",
        }
    }

    /// The standard description of the error.
    #[verifier::when_used_as_spec(spec_description)]
    pub fn description(&self) -> (r: &'static str)
        ensures
            r == self.spec_description(),
    {
        match *self {
            PosixError::E2BIG => "Argument list too long",
            PosixError::EACCES => "Permission denied",
            PosixError::EADDRINUSE => "Address already in use",
            PosixError::EADDRNOTAVAIL => "Address not available",
            PosixError::EAFNOSUPPORT => "Address family not supported",
            PosixError::EAGAIN => "Resource temporarily unavailable",
            PosixError::EALREADY => "Connection already in progress",
            PosixError::EBADE => "Invalid exchange",
            PosixError::EBADF => "Bad file descriptor",
            PosixError::EBADFD => "File descriptor in bad state",
            PosixError::EBADMSG => "Bad message",
            PosixError::EBADR => "Invalid request descriptor",
            PosixError::EBADRQC => "Invalid request code",
            PosixError::EBADSLT => "Invalid slot",
            PosixError::EBUSY => "Device or resource busy",
            PosixError::ECANCELED => "Operation canceled",
            PosixError::ECHILD => "No child processes",
            PosixError::ECHRNG => "Channel number out of range",
            PosixError::ECOMM => "Communication error on send",
            PosixError::ECONNABORTED => "Software caused connection abort",
            PosixError::ECONNREFUSED => "Connection refused",
            PosixError::ECONNRESET => "Connection reset by peer",
            PosixError::EDEADLK => "Resource deadlock would occur",
            PosixError::EDESTADDRREQ => "Destination address required",
            PosixError::EDOM => "Math argument out of domain",
            PosixError::EDQUOT => "Quota exceeded",
            PosixError::EEXIST => "File exists",
            PosixError::EFAULT => "Bad address",
            PosixError::EFBIG => "File too large",
            PosixError::EHOSTDOWN => "Host is down",
            PosixError::EHOSTUNREACH => "Host unreachable",
            PosixError::EHWPOISON => "Memory hardware error",
            PosixError::EIDRM => "Identifier removed",
            PosixError::EILSEQ => "Invalid or incomplete multibyte or wide character",
            PosixError::EINPROGRESS => "Operation in progress",
            PosixError::EINTR => "Interrupted system call",
            PosixError::EINVAL => "Invalid argument",
            PosixError::EIO => "I/O error",
            PosixError::EISCONN => "Transport endpoint connected",
            PosixError::EISDIR => "Is a directory",
            PosixError::EISNAM => "Is a named type file",
            PosixError::EKEYEXPIRED => "Key expired",
            PosixError::EKEYREJECTED => "Key rejected by service",
            PosixError::EKEYREVOKED => "Key revoked",
            PosixError::EL2HLT => "Level 2 halted",
            PosixError::EL2NSYNC => "Level 2 not synchronized",
            PosixError::EL3HLT => "Level 3 halted",
            PosixError::EL3RST => "Level 3 reset",
            PosixError::ELIBACC => "Cannot access a needed shared library",
            PosixError::ELIBBAD => "Accessing a corrupted shared library",
            PosixError::ELIBMAX => "Attempting to link in too many shared libraries",
            PosixError::ELIBSCN => ".lib section in a.out corrupted",
            PosixError::ELIBEXEC => "Cannot exec a shared library directly",
            PosixError::ELNRNG => "Link number out of range",
            PosixError::ELOOP => "Too many symbolic links",
            PosixError::EMEDIUMTYPE => "Wrong medium type",
            PosixError::EMFILE => "Too many open files",
            PosixError::EMLINK => "Too many links",
            PosixError::EMSGSIZE => "Message too long",
            PosixError::EMULTIHOP => "Multihop attempted",
            PosixError::ENAMETOOLONG => "Filename too long",
            PosixError::ENETDOWN => "Network is down",
            PosixError::ENETRESET => "Network dropped connection",
            PosixError::ENETUNREACH => "Network unreachable",
            PosixError::ENFILE => "File table overflow",
            PosixError::ENOANO => "No anode",
            PosixError::ENOBUFS => "No buffer space",
            PosixError::ENODATA => "No message is available on the STREAM head read queue",
            PosixError::ENODEV => "No such device",
            PosixError::ENOENT => "No such file or directory",
            PosixError::ENOEXEC => "Executable format error",
            PosixError::ENOKEY => "Required key unavailable",
            PosixError::ENOLCK => "No locks available",
            PosixError::ENOLINK => "Link has been severed",
            PosixError::ENOMEDIUM => "No medium found",
            PosixError::ENOMEM => "Out of memory",
            PosixError::ENOMSG => "No message of the desired type",
            PosixError::ENONET => "Machine is not on the network",
            PosixError::ENOPKG => "Package not installed",
            PosixError::ENOPROTOOPT => "Protocol not available",
            PosixError::ENOSPC => "No space left on device",
            PosixError::ENOSR => "No STREAM resources",
            PosixError::ENOSTR => "Not a STREAM",
            PosixError::ENOSYS => "Function not implemented",
            PosixError::ENOTBLK => "Block device required",
            PosixError::ENOTCONN => "Transport endpoint not connected",
            PosixError::ENOTDIR => "Not a directory",
            PosixError::ENOTEMPTY => "Directory not empty",
            PosixError::ENOTRECOVERABLE => "State not recoverable",
            PosixError::ENOTSOCK => "Not a socket",
            PosixError::ENOTTY => "Not a terminal",
            PosixError::ENOTUNIQ => "Name not unique on network",
            PosixError::ENXIO => "No such device or address",
            PosixError::EOPNOTSUPP => "Operation not supported",
            PosixError::EOVERFLOW => "Value too large to be stored in data type",
            PosixError::EOWNERDEAD => "Owner terminated",
            PosixError::EPERM => "Operation not permitted",
            PosixError::EPFNOSUPPORT => "Protocol family not supported",
            PosixError::EPIPE => "Broken pipe",
            PosixError::EPROTO => "Protocol error",
            PosixError::EPROTONOSUPPORT => "Protocol not supported",
            PosixError::EPROTOTYPE => "Protocol wrong type",
            PosixError::ERANGE => "Math result not representable",
            PosixError::EREMCHG => "Remote address changed",
            PosixError::EREMOTE => "Object is remote",
            PosixError::EREMOTEIO => "Remote I/O error",
            PosixError::ERESTART => "Interrupted system call should be restarted",
            PosixError::ERFKILL => "RF-Kill condition",
            PosixError::EROFS => "Read-only file system",
            PosixError::ESHUTDOWN => "Endpoint shutdown",
            PosixError::ESPIPE => "Illegal seek",
            PosixError::ESOCKTNOSUPPORT => "Socket type not supported",
            PosixError::ESRCH => "No such process",
            PosixError::ESTALE => "Stale file handle",
            PosixError::ESTRPIPE => "Streams pipe error",
            PosixError::ETIME => "Timer expired",
            PosixError::ETIMEDOUT => "Connection timed out",
            PosixError::ETOOMANYREFS => "Too many references",
            PosixError::ETXTBSY => "Text file busy",
            PosixError::EUCLEAN => "Structure needs cleaning",
            PosixError::EUNATCH => "Protocol driver not attached",
            PosixError::EUSERS => "Too many users",
            PosixError::EXDEV => "Cross-device link",
            PosixError::EXFULL => "Exchange full",
        }
    }
}

/// Each error's number leads back to it, and a number that leads to an
/// error is that error's number.
pub proof fn lemma_code_round_trip(e: PosixError, c: i32)
    ensures
        PosixError::spec_from_code(e.spec_code()) == Some(e),
        PosixError::spec_from_code(c) == Some(e) ==> e.spec_code() == c,
{
}

} // verus!
