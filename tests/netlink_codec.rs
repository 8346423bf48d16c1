use osnet::cursor::BufCursor;
use osnet::netlink::{
    build_route_request, gateway_from_response, nlmsg_align, nlmsg_length, nlmsg_ok,
    parse_nlm_raw, parse_rtm_raw, parse_rtm_resp, rta_len, rta_ok, select_ipv4_gateway,
    FillBuf, IpAddr, NlMsgCtrlType, NlMsgHdr, NlMsgRouteType, NlMsgType, NlMsgTypeKind, NlMsgFlags,
    RtAttrHdr, RtAttrKind, RtAttrType, RtFamily, RtMsgScope, RtMsgTable, RtMsgProto, RtReqAttr,
    RtRespAttr, RtType,
};

fn ne16(v: u16) -> [u8; 2] {
    v.to_ne_bytes()
}

fn ne32(v: u32) -> [u8; 4] {
    v.to_ne_bytes()
}

fn frame(ty: u16, payload: &[u8]) -> Vec<u8> {
    let mut out = Vec::new();
    out.extend_from_slice(&ne32(16 + payload.len() as u32));
    out.extend_from_slice(&ne16(ty));
    out.extend_from_slice(&ne16(0x2));
    out.extend_from_slice(&ne32(1));
    out.extend_from_slice(&ne32(0));
    out.extend_from_slice(payload);
    out
}

fn attr(ty: u16, payload: &[u8]) -> Vec<u8> {
    let mut out = Vec::new();
    out.extend_from_slice(&ne16(4 + payload.len() as u16));
    out.extend_from_slice(&ne16(ty));
    out.extend_from_slice(payload);
    while out.len() % 4 != 0 {
        out.push(0);
    }
    out
}

fn rtmsg(family: u8, attrs: &[Vec<u8>]) -> Vec<u8> {
    let mut out = vec![family, 0, 0, 0, 254, 3, 0, 1];
    out.extend_from_slice(&ne32(0));
    for a in attrs {
        out.extend_from_slice(a);
    }
    out
}

fn route(ifindex: i32, gw: [u8; 4]) -> Vec<u8> {
    frame(24, &rtmsg(2, &[attr(4, &ifindex.to_ne_bytes()), attr(5, &gw)]))
}

fn done() -> Vec<u8> {
    frame(3, &[])
}

#[test]
fn alignment_arithmetic() {
    assert_eq!(nlmsg_align(0), 0);
    assert_eq!(nlmsg_align(1), 4);
    assert_eq!(nlmsg_align(4), 4);
    assert_eq!(nlmsg_align(13), 16);
    assert_eq!(nlmsg_length(12), 28);
    assert_eq!(rta_len(4), 8);
}

#[test]
fn payload_lengths() {
    let h = NlMsgHdr { len: 36, ty: NlMsgType(26), flags: NlMsgFlags(0), seq: 0, pid: 0 };
    assert_eq!(h.payload_len(), 20);
    let short = NlMsgHdr { len: 10, ..h };
    assert_eq!(short.payload_len(), 0);
    let a = RtAttrHdr { len: 8, ty: RtAttrType(4) };
    assert_eq!(a.payload_len(), 4);
    let b = RtAttrHdr { len: 2, ty: RtAttrType(4) };
    assert_eq!(b.payload_len(), 0);
}

#[test]
fn validity_predicates() {
    assert!(!nlmsg_ok(&BufCursor::new(&[])));
    assert!(!rta_ok(&BufCursor::new(&[])));
    assert!(!nlmsg_ok(&BufCursor::new(&[16, 0, 0, 0, 3, 0])));
    assert!(!rta_ok(&BufCursor::new(&[4, 0])));
    let d = done();
    assert!(nlmsg_ok(&BufCursor::new(&d)));
    let mut too_long = done();
    too_long[0] = 20;
    assert!(!nlmsg_ok(&BufCursor::new(&too_long)));
    let mut too_short = done();
    too_short[0] = 8;
    assert!(!nlmsg_ok(&BufCursor::new(&too_short)));
    assert!(rta_ok(&BufCursor::new(&attr(4, &[1, 0, 0, 0]))));
    assert!(!rta_ok(&BufCursor::new(&[9, 0, 4, 0, 1, 0, 0, 0])));
    assert!(!rta_ok(&BufCursor::new(&[3, 0, 4, 0])));
}

#[test]
fn cursor_operations() {
    let data = [1u8, 0, 2, 0, 0, 0, 9, 9, 9];
    let mut cur = BufCursor::new(&data);
    assert_eq!(cur.rem_len(), 9);
    assert_eq!(cur.peek_u16(0), 1);
    assert_eq!(cur.peek_u32(2), 2);
    assert_eq!(cur.consume_bytes(2), &[1, 0]);
    assert_eq!(cur.rem_len(), 5);
    assert_eq!(cur.remaining(), &[0, 0, 9, 9, 9]);
    assert_eq!(cur.consume_bytes(3), &[0, 0, 9]);
    assert_eq!(cur.rem_len(), 1);
    assert_eq!(cur.consume_bytes(1), &[9]);
    assert_eq!(cur.rem_len(), 0);
}

#[test]
fn request_bytes() {
    let req = build_route_request(3);
    let mut expected = Vec::new();
    expected.extend_from_slice(&ne32(36));
    expected.extend_from_slice(&ne16(26));
    expected.extend_from_slice(&ne16(0x301));
    expected.extend_from_slice(&ne32(0));
    expected.extend_from_slice(&ne32(0));
    expected.extend_from_slice(&[2, 0, 0, 0, 254, 0, 0, 0]);
    expected.extend_from_slice(&ne32(0));
    expected.extend_from_slice(&ne16(8));
    expected.extend_from_slice(&ne16(4));
    expected.extend_from_slice(&3i32.to_ne_bytes());
    assert_eq!(req, expected);
}

#[test]
fn request_parses_back() {
    let req = build_route_request(7);
    let frames = parse_nlm_raw(&req);
    assert_eq!(frames.len(), 1);
    assert_eq!(frames[0].hdr.ty.to_kind(), NlMsgTypeKind::Route(NlMsgRouteType::GetRoute));
    let msgs = parse_rtm_resp(parse_rtm_raw(frames));
    assert_eq!(msgs.len(), 1);
    assert_eq!(msgs[0].hdr.family, RtFamily::IPv4);
    assert_eq!(msgs[0].hdr.table, RtMsgTable::main());
    assert_eq!(msgs[0].attrs, vec![RtRespAttr::OIf(7)]);
}

#[test]
fn single_route_gives_its_gateway() {
    let n = 3;
    let req = build_route_request(n);
    assert_eq!(req.len(), 36);
    let mut resp = route(n, [192, 168, 1, 1]);
    resp.extend_from_slice(&done());
    assert_eq!(gateway_from_response(&resp, n), Some([192, 168, 1, 1]));
}

#[test]
fn gateway_of_other_interface_is_ignored() {
    let mut resp = route(2, [10, 0, 0, 1]);
    resp.extend_from_slice(&route(5, [172, 16, 0, 1]));
    resp.extend_from_slice(&done());
    assert_eq!(gateway_from_response(&resp, 2), Some([10, 0, 0, 1]));
    let mut swapped = route(5, [172, 16, 0, 1]);
    swapped.extend_from_slice(&route(2, [10, 0, 0, 1]));
    swapped.extend_from_slice(&done());
    assert_eq!(gateway_from_response(&swapped, 2), Some([10, 0, 0, 1]));
    assert_eq!(gateway_from_response(&swapped, 5), Some([172, 16, 0, 1]));
}

#[test]
fn done_first_gives_none() {
    let mut resp = done();
    resp.extend_from_slice(&route(2, [10, 0, 0, 1]));
    assert_eq!(gateway_from_response(&resp, 2), None);
    assert_eq!(gateway_from_response(&[], 2), None);
}

#[test]
fn ipv6_and_gatewayless_routes_are_skipped() {
    let v6 = frame(24, &rtmsg(10, &[attr(4, &2i32.to_ne_bytes()), attr(5, &[0xfe; 16])]));
    let no_gw = frame(24, &rtmsg(2, &[attr(4, &2i32.to_ne_bytes())]));
    let mut resp = v6.clone();
    resp.extend_from_slice(&no_gw);
    resp.extend_from_slice(&route(2, [10, 1, 1, 1]));
    assert_eq!(gateway_from_response(&resp, 2), Some([10, 1, 1, 1]));
    let msgs = parse_rtm_resp(parse_rtm_raw(parse_nlm_raw(&v6)));
    assert_eq!(msgs[0].get_gateway(), Some(IpAddr::V6([0xfe; 16])));
    assert_eq!(select_ipv4_gateway(&msgs, 2), None);
}

#[test]
fn truncated_response_keeps_complete_frames() {
    let mut resp = route(2, [10, 0, 0, 1]);
    let second = route(4, [10, 0, 0, 4]);
    resp.extend_from_slice(&second[..20]);
    let frames = parse_nlm_raw(&resp);
    assert_eq!(frames.len(), 1);
    assert_eq!(frames[0].payload.len(), 28);
    assert_eq!(gateway_from_response(&resp, 4), None);
}

#[test]
fn attribute_decoding() {
    let msgs = parse_rtm_resp(parse_rtm_raw(parse_nlm_raw(&frame(
        24,
        &rtmsg(2, &[attr(3, &9i32.to_ne_bytes()), attr(5, &[1, 2, 3]), attr(15, &[1, 0, 0, 0])]),
    ))));
    assert_eq!(msgs[0].attrs, vec![RtRespAttr::IIf(9), RtRespAttr::Oth, RtRespAttr::Oth]);
    assert_eq!(msgs[0].get_oif(), None);
}

#[test]
fn unlisted_route_header_codes_are_kept() {
    let odd = frame(24, &rtmsg(7, &[attr(4, &2i32.to_ne_bytes()), attr(5, &[1, 1, 1, 1])]));
    let msgs = parse_rtm_raw(parse_nlm_raw(&odd));
    assert_eq!(msgs.len(), 1);
    assert_eq!(msgs[0].hdr.family, RtFamily::Other(7));
    assert_eq!(msgs[0].attrs.len(), 2);
    assert_eq!(gateway_from_response(&odd, 2), None);
    let mut scoped = rtmsg(2, &[attr(4, &2i32.to_ne_bytes()), attr(5, &[10, 9, 8, 7])]);
    scoped[6] = 100;
    scoped[7] = 42;
    let resp = frame(24, &scoped);
    let msgs = parse_rtm_raw(parse_nlm_raw(&resp));
    assert_eq!(msgs[0].hdr.scope, RtMsgScope::Other(100));
    assert_eq!(msgs[0].hdr.ty, RtType::Other(42));
    assert_eq!(gateway_from_response(&resp, 2), Some([10, 9, 8, 7]));
    let short = frame(24, &[2, 0, 0, 0]);
    assert_eq!(parse_rtm_raw(parse_nlm_raw(&short)).len(), 0);
}

#[test]
fn type_kinds() {
    assert_eq!(NlMsgType(3).to_kind(), NlMsgTypeKind::Ctrl(NlMsgCtrlType::Done));
    assert_eq!(NlMsgType(2).to_kind(), NlMsgTypeKind::Ctrl(NlMsgCtrlType::Error));
    assert_eq!(NlMsgType(24).to_kind(), NlMsgTypeKind::Route(NlMsgRouteType::NewRoute));
    assert_eq!(NlMsgType(0).to_kind(), NlMsgTypeKind::Oth(0));
    assert_eq!(NlMsgType(77).to_kind(), NlMsgTypeKind::Oth(77));
    assert_eq!(RtAttrType(5).to_kind(), RtAttrKind::Gateway);
    assert_eq!(RtAttrType(6).to_kind(), RtAttrKind::Oth(6));
    assert_eq!(RtAttrKind::Oif.to_type(), RtAttrType(4));
    assert_eq!(RtReqAttr::IIf(1).kind(), RtAttrKind::Iif);
    let h = RtReqAttr::OIf(1).header(4);
    assert_eq!(h.len, 8);
    assert_eq!(h.ty, RtAttrType(4));
    assert_eq!(RtReqAttr::OIf(1).buf_len(), 8);
}

#[test]
fn request_attribute_bytes() {
    let mut buf = vec![0xaa];
    RtReqAttr::IIf(-1).fill_buf(&mut buf);
    assert_eq!(buf, vec![0xaa, 8, 0, 3, 0, 0xff, 0xff, 0xff, 0xff]);
    let mut oif = Vec::new();
    RtReqAttr::OIf(0x0102_0304).fill_buf(&mut oif);
    assert_eq!(oif, vec![8, 0, 4, 0, 4, 3, 2, 1]);
}

#[test]
fn header_codes() {
    assert_eq!(RtFamily::from_bits(10), RtFamily::IPv6);
    assert_eq!(RtFamily::from_bits(7), RtFamily::Other(7));
    assert_eq!(RtFamily::Other(7).to_bits(), 7);
    assert_eq!(RtMsgScope::Link.to_bits(), 253);
    assert_eq!(RtType::from_bits(9), RtType::Throw);
    assert_eq!(RtMsgScope::from_bits(100), RtMsgScope::Other(100));
    assert_eq!(RtMsgTable::custom(100).0, 100);
    assert_eq!(RtMsgProto::custom(9).0, 9);
    assert_eq!(RtMsgProto::kernel().0, 2);
}
