use osnet::be::{EthTypeBe, HTypeBe, U16Be, U32Be, U64Be};
use osnet::ether::EthTypeSpec;
use osnet::iface::HwType;

#[test]
fn u16_round_trip_and_bytes() {
    for x in [0u16, 1, 0x1234, 0xff00, u16::MAX] {
        let v = U16Be::from_ne(x);
        assert_eq!(v.to_ne(), x);
        assert_eq!(v.to_ne_bytes(), x.to_be_bytes());
        assert_eq!(U16Be::new(x), v);
        assert_eq!(U16Be::from_le(x), v);
    }
    assert_eq!(U16Be::from_ne(8080).to_ne_bytes(), [0x1f, 0x90]);
}

#[test]
fn u32_round_trip_and_bytes() {
    for x in [0u32, 1, 0x1234_5678, 0xc0a8_0101, u32::MAX] {
        let v = U32Be::from_ne(x);
        assert_eq!(v.to_ne(), x);
        assert_eq!(v.to_ne_bytes(), x.to_be_bytes());
    }
    assert_eq!(U32Be::from_ne(0xc0a8_0101).to_ne_bytes(), [192, 168, 1, 1]);
}

#[test]
fn u64_round_trip_and_bytes() {
    for x in [0u64, 1, 0x0102_0304_0506_0708, u64::MAX] {
        let v = U64Be::from_ne(x);
        assert_eq!(v.to_ne(), x);
        assert_eq!(v.to_ne_bytes(), x.to_be_bytes());
    }
}

#[test]
fn from_be_keeps_memory_image() {
    let raw = u16::from_ne_bytes([0x08, 0x00]);
    assert_eq!(U16Be::from_be(raw).to_ne(), 0x0800);
    let raw32 = u32::from_ne_bytes([10, 0, 0, 1]);
    assert_eq!(U32Be::from_be(raw32).to_ne_bytes(), [10, 0, 0, 1]);
    let raw64 = u64::from_ne_bytes([1, 2, 3, 4, 5, 6, 7, 8]);
    assert_eq!(U64Be::from_be(raw64).to_ne_bytes(), [1, 2, 3, 4, 5, 6, 7, 8]);
    assert_eq!(U64Be::from_be(raw64).to_ne(), 0x0102_0304_0506_0708);
}

#[test]
fn protocol_and_hardware_types() {
    assert_eq!(EthTypeBe::new(EthTypeSpec::IPv6).0.to_ne_bytes(), [0x86, 0xdd]);
    assert_eq!(EthTypeBe::new(EthTypeSpec::ARP).to_eth_type(), Some(EthTypeSpec::ARP));
    assert_eq!(EthTypeBe(U16Be::from_ne(0x1234)).to_eth_type(), None);
    assert_eq!(HTypeBe::new(HwType::IEEE80211).0.to_ne(), 801);
}
