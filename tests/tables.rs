use osnet::epoll::{EpollEvents, EpollFlag};
use osnet::errno::PosixError;
use osnet::iface::{get_available_ipv4_ifname, ifaddr_entry, IfAddr, IfAddrTbl, IfFlag, IfFlags, RtnlLinkStats};
use osnet::ioctl::IoctlOpcode;
use osnet::netdb::{AIFamilies, AIFlag, AIFlags, AddrInfoError};
use osnet::signal::{SigMaskHow, Signal};

#[test]
fn errno_descriptions_and_codes() {
    assert_eq!(PosixError::EAGAIN.description(), "Resource temporarily unavailable");
    assert_eq!(PosixError::EINTR.description(), "Interrupted system call");
    assert_eq!(PosixError::EXFULL.description(), "Exchange full");
    assert_eq!(PosixError::EAGAIN.code(), libc::EAGAIN);
    assert_eq!(PosixError::EINTR.code(), libc::EINTR);
    assert_eq!(PosixError::EHWPOISON.code(), libc::EHWPOISON);
    assert_eq!(PosixError::from_code(libc::ENOENT), Some(PosixError::ENOENT));
    assert_eq!(PosixError::from_code(0), None);
    assert_eq!(PosixError::from_code(134), None);
}

#[test]
fn errno_code_round_trip() {
    for c in 0..200 {
        if let Some(e) = PosixError::from_code(c) {
            assert_eq!(e.code(), c);
        }
    }
}

#[test]
fn epoll_masks() {
    let ev = EpollEvents::new().epoll_in().epoll_et();
    assert_eq!(ev.0, libc::EPOLLIN | libc::EPOLLET);
    assert!(ev.contains(EpollFlag::In));
    assert!(!ev.contains(EpollFlag::Out));
    assert_eq!(EpollEvents::new().epoll_rdhup().epoll_oneshot().0, libc::EPOLLRDHUP | libc::EPOLLONESHOT);
    assert_eq!(EpollEvents::new().epoll_err().epoll_hup().0, libc::EPOLLERR | libc::EPOLLHUP);
    assert_eq!(EpollFlag::Exclusive.to_bits(), libc::EPOLLEXCLUSIVE);
}

fn inet(name: &str, flags: u32) -> IfAddr {
    IfAddr::Inet { name: name.to_string(), addr: [10, 0, 0, 2], mask: [255, 0, 0, 0], flags: IfFlags(flags) }
}

#[test]
fn available_ipv4_interfaces() {
    let up_running = 0x1 | 0x40;
    let tbl = IfAddrTbl(vec![
        inet("lo", up_running | 0x8),
        inet("eth0", up_running),
        IfAddr::Inet6 { name: "eth0".to_string(), addr: [0; 16], mask: [0; 16], flags: IfFlags(up_running) },
        inet("wlan0", 0x1),
        IfAddr::Packet { name: "eth1".to_string(), ifindex: 3, addr: [0; 6], flags: IfFlags(up_running), stats: RtnlLinkStats::default() },
        inet("eth2", up_running | 0x1000),
    ]);
    assert_eq!(get_available_ipv4_ifname(&tbl), vec!["eth0".to_string(), "eth2".to_string()]);
    assert!(IfFlags(3).contains(IfFlag::Broadcast));
    assert_eq!(IfFlag::Running.to_bits(), libc::IFF_RUNNING as u32);
}

#[test]
fn misc_tables() {
    assert_eq!(IoctlOpcode::GetIfaceIndex.to_bits(), libc::SIOCGIFINDEX as usize);
    assert_eq!(IoctlOpcode::GetIfMTU.to_bits(), libc::SIOCGIFMTU as usize);
    assert_eq!(Signal::SIGTERM.to_bits(), libc::SIGTERM);
    assert_eq!(Signal::from_bits(libc::SIGCHLD), Some(Signal::SIGCHLD));
    assert_eq!(SigMaskHow::SETMASK.to_bits(), libc::SIG_SETMASK);
    assert_eq!(AIFamilies::INET6.to_bits(), libc::AF_INET6);
    let f = AIFlags::default().with(AIFlag::ALL).with(AIFlag::V4MAPPED);
    assert_eq!(f.0, libc::AI_ALL | libc::AI_V4MAPPED);
    assert!(f.contains(AIFlag::ALL));
    assert_eq!(AddrInfoError::from_code(libc::EAI_NONAME, PosixError::EIO), Some(AddrInfoError::NONAME));
    assert_eq!(AddrInfoError::from_code(libc::EAI_MEMORY, PosixError::EIO), Some(AddrInfoError::MEMORY));
    assert_eq!(AddrInfoError::from_code(libc::EAI_SYSTEM, PosixError::EIO), Some(AddrInfoError::SYSTEM(PosixError::EIO)));
    assert_eq!(AddrInfoError::from_code(-99, PosixError::EIO), None);
}

#[test]
fn interface_records() {
    let mut sin = vec![2u8, 0, 0, 0, 192, 168, 1, 7];
    sin.extend_from_slice(&[0; 8]);
    let mut mask = vec![2u8, 0, 0, 0, 255, 255, 255, 0];
    mask.extend_from_slice(&[0; 8]);
    match ifaddr_entry("eth0".to_string(), IfFlags(0x41), &sin, &mask, None) {
        Some(IfAddr::Inet { name, addr, mask, flags }) => {
            assert_eq!(name, "eth0");
            assert_eq!(addr, [192, 168, 1, 7]);
            assert_eq!(mask, [255, 255, 255, 0]);
            assert_eq!(flags, IfFlags(0x41));
        }
        other => panic!("unexpected {other:?}"),
    }
    match ifaddr_entry("eth0".to_string(), IfFlags(0), &sin, &[], None) {
        Some(IfAddr::Inet { mask, .. }) => assert_eq!(mask, [0; 4]),
        other => panic!("unexpected {other:?}"),
    }
    let mut sll = vec![17u8, 0, 0x08, 0x00];
    sll.extend_from_slice(&4i32.to_ne_bytes());
    sll.extend_from_slice(&[0, 1, 0, 6, 0xaa, 0xbb, 0xcc, 0xdd, 0xee, 0xff, 0, 0]);
    match ifaddr_entry("eth1".to_string(), IfFlags(0), &sll, &[], Some(RtnlLinkStats::default())) {
        Some(IfAddr::Packet { ifindex, addr, .. }) => {
            assert_eq!(ifindex, 4);
            assert_eq!(addr, [0xaa, 0xbb, 0xcc, 0xdd, 0xee, 0xff]);
        }
        other => panic!("unexpected {other:?}"),
    }
    assert!(ifaddr_entry("eth1".to_string(), IfFlags(0), &sll, &[], None).is_none());
    assert!(ifaddr_entry("x".to_string(), IfFlags(0), &[16, 0, 0, 0], &[], None).is_none());
}
