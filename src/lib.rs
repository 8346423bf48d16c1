//! Typed views of Linux networking structures for x86_64: network-order
//! scalars, socket addresses laid out as the kernel expects them, and the
//! rtnetlink route codec that finds an interface's IPv4 gateway. The
//! system calls themselves are made by the caller; this crate builds and
//! reads the bytes they exchange and decides what to do with each result.

pub mod bytes;
pub mod be;
pub mod cursor;
pub mod netlink;
pub mod socket;
pub mod errno;
pub mod ether;
pub mod epoll;
pub mod iface;
pub mod ioctl;
pub mod netdb;
pub mod signal;
