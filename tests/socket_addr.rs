use osnet::be::{U16Be, U32Be};
use osnet::ether::EthTypeSpec;
use osnet::socket::{
    AddressFamily, ExtraBehavior, Flags, InAddr, InAddr6, Msg, PhyAddr, PktType, SaFamily,
    SaNlFamily, SockAddr, SockAddrIn, SockAddrIn6, SockAddrLL, SockAddrNL, SockAddrUn,
    SocketProtocol, SocketType, SOCK_CLOEXEC, SOCK_NONBLOCK,
};

fn round_trip(v: SockAddr) {
    let bytes = v.address();
    let len = v.address_len();
    assert_eq!(bytes.len(), len as usize);
    assert!(SockAddr::raw_parts_valid(&bytes, len));
    assert_eq!(SockAddr::from_raw_parts(&bytes, len), v);
}

#[test]
fn inet_round_trip() {
    let v = SockAddr::Inet(SockAddrIn {
        family: SaFamily::Inet,
        port: U16Be::new(8080),
        addr: InAddr::from_octets([127, 0, 0, 1]),
        padding: [0; 8],
    });
    let bytes = v.address();
    assert_eq!(&bytes[..8], &[2, 0, 0x1f, 0x90, 127, 0, 0, 1]);
    round_trip(v);
}

#[test]
fn inet6_round_trip() {
    let mut addr = [0u8; 16];
    addr[15] = 1;
    round_trip(SockAddr::Inet6(SockAddrIn6 {
        family: SaFamily::Inet6,
        port: U16Be::new(443),
        flowinfo: U32Be::new(7),
        addr: InAddr6(addr),
        scope_id: 3,
    }));
}

#[test]
fn unix_round_trip_and_short_length_rejected() {
    let mut path = [0u8; 108];
    path[..4].copy_from_slice(b"/tmp");
    let v = SockAddr::Unix(SockAddrUn { family: SaFamily::Local, path });
    round_trip(v);
    let bytes = v.address();
    assert_eq!(SockAddrUn::from_raw_parts(&bytes, 110).path, path);
    let short = [1u8, 0, b'/', b't', b'm', b'p', 0];
    assert!(!SockAddr::raw_parts_valid(&short, 7));
    assert!(!SockAddr::raw_parts_valid(&bytes, 109));
}

#[test]
fn link_layer_round_trip() {
    let v = SockAddr::Packet(SockAddrLL {
        family: SaFamily::Packet,
        protocol: U16Be::new(0x0800),
        ifindex: -2,
        hatype: U16Be::new(1),
        pkttype: PktType::Broadcast,
        halen: 6,
        addr: PhyAddr([1, 2, 3, 4, 5, 6, 0, 0]),
    });
    let bytes = v.address();
    assert_eq!(bytes.len(), 20);
    assert_eq!(&bytes[..4], &[17, 0, 0x08, 0x00]);
    round_trip(v);
}

#[test]
fn netlink_round_trip() {
    let v = SockAddr::Netlink(SockAddrNL { family: SaNlFamily::NetlinkRoute, padding: 0, portid: 42, groups: 5 });
    assert_eq!(v.address(), vec![16, 0, 0, 0, 42, 0, 0, 0, 5, 0, 0, 0]);
    round_trip(v);
    round_trip(SockAddr::Netlink(SockAddrNL::kernel()));
}

#[test]
fn raw_parts_rejected() {
    let inet = SockAddr::Inet(SockAddrIn::from_ipv4(InAddr::from_octets([1, 2, 3, 4]))).address();
    assert!(!SockAddr::raw_parts_valid(&inet, 15));
    assert!(!SockAddr::raw_parts_valid(&inet, 17));
    assert!(!SockAddr::raw_parts_valid(&inet[..1], 1));
    assert!(!SockAddr::raw_parts_valid(&[0, 0, 0, 0], 4));
    assert!(!SockAddr::raw_parts_valid(&[99, 0, 0, 0], 4));
    let mut ll = vec![17u8, 0];
    ll.extend_from_slice(&[0; 18]);
    ll[10] = 9;
    assert!(!SockAddr::raw_parts_valid(&ll, 20));
}

#[test]
fn address_lengths() {
    let u = SockAddr::Unix(SockAddrUn { family: SaFamily::Local, path: [0; 108] });
    assert_eq!(u.address_len(), 110);
    let n = SockAddr::Netlink(SockAddrNL::kernel());
    assert_eq!(n.address_len(), 12);
    assert_eq!(InAddr::from_octets([192, 168, 0, 1]).to_bits(), 0xc0a8_0001);
}

#[test]
fn socket_parameters() {
    assert_eq!(SOCK_NONBLOCK, libc::SOCK_NONBLOCK);
    assert_eq!(SOCK_CLOEXEC, libc::SOCK_CLOEXEC);
    assert_eq!(ExtraBehavior::new().to_bits(), 0);
    assert_eq!(ExtraBehavior::new().non_block().to_bits(), libc::SOCK_NONBLOCK);
    assert_eq!(
        ExtraBehavior::new().non_block().close_on_exec().to_bits(),
        libc::SOCK_NONBLOCK | libc::SOCK_CLOEXEC
    );
    assert_eq!(AddressFamily::NETLINK.to_bits(), libc::AF_NETLINK);
    assert_eq!(AddressFamily::INET6.to_bits(), libc::AF_INET6);
    assert_eq!(AddressFamily::from_bits(17), Some(AddressFamily::PACKET));
    assert_eq!(SocketType::RAW.to_bits(), libc::SOCK_RAW);
    assert_eq!(SocketProtocol::Eth(EthTypeSpec::ALL).to_protocol(), 0x0300);
    assert_eq!(SocketProtocol::Eth(EthTypeSpec::IPv4).to_protocol(), 8);
    assert_eq!(SocketProtocol::from_raw_ip(6).to_protocol(), 6);
    assert_eq!(SocketProtocol::NetlinkRoute.to_protocol(), 0);
    let f = Flags::default().with(Msg::DONTWAIT).with(Msg::PEEK);
    assert_eq!(f.to_bits(), libc::MSG_DONTWAIT | libc::MSG_PEEK);
    assert!(f.contains(Msg::PEEK));
    assert!(!f.contains(Msg::OOB));
    assert_eq!(SaFamily::Packet.to_bits(), libc::AF_PACKET as u16);
}
