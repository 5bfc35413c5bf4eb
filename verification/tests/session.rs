use vcl_rs::addr::{IpAddr, SocketAddr};
use vcl_rs::error::{ErrnoCodes, VclError};
use vcl_rs::ffi::{epoll_event, vppcom_endpt_t, AttrBuffer, ShutdownHalf, VclCall};
use vcl_rs::session::{
    addr_from_endpoint, closing, endpoint_into_buf, epoll_wait, SessionHandle,
};

fn v4(octets: [u8; 4], port: u16) -> SocketAddr {
    SocketAddr::new(IpAddr::V4(octets), port)
}

fn v6(octets: [u8; 16], port: u16) -> SocketAddr {
    SocketAddr::new(IpAddr::V6(octets), port)
}

/// 2001:db8::1
const DOC_V6: [u8; 16] = [0x20, 0x01, 0x0d, 0xb8, 0, 0, 0, 0, 0, 0, 0, 0, 0, 0, 0, 1];

fn roundtrip(addr: SocketAddr, want_is_ip4: u8) {
    let mut ip_buf = [0u8; 16];
    let ep = endpoint_into_buf(addr, &mut ip_buf);
    assert_eq!(ep.is_ip4, want_is_ip4, "is_ip4 flag for {addr:?}");
    // The port rides the wire big-endian.
    assert_eq!(u16::from_ne_bytes(ep.port), addr.port.to_be(), "BE port for {addr:?}");
    let back = addr_from_endpoint(&ep, &ip_buf);
    assert_eq!(back, addr, "endpoint round-trip for {addr:?}");
}

#[test]
fn endpoint_roundtrips_v4_and_v6() {
    // 192.0.2.7:179
    roundtrip(v4([192, 0, 2, 7], 179), 1);
    // [2001:db8::1]:53
    roundtrip(v6(DOC_V6, 53), 0);
    // 203.0.113.9:65000, whose high port exercises both big-endian bytes.
    roundtrip(v4([203, 0, 113, 9], 65000), 1);
}

#[test]
fn v4_octets_leave_the_rest_of_the_buffer() {
    let mut ip_buf = [7u8; 16];
    let ep = endpoint_into_buf(v4([192, 0, 2, 7], 179), &mut ip_buf);
    assert_eq!(ep.port, [0, 179]);
    assert_eq!(ip_buf[..4], [192, 0, 2, 7]);
    assert_eq!(ip_buf[4..], [7u8; 12]);
    assert_eq!(addr_from_endpoint(&ep, &ip_buf), v4([192, 0, 2, 7], 179));
}

#[test]
fn any_non_zero_flag_means_v4() {
    let mut ep = vppcom_endpt_t::default();
    ep.is_ip4 = 9;
    ep.port = [0xfd, 0xe8];
    let mut ip_buf = [0u8; 16];
    ip_buf[..4].copy_from_slice(&[203, 0, 113, 9]);
    assert_eq!(addr_from_endpoint(&ep, &ip_buf), v4([203, 0, 113, 9], 65000));
    ep.is_ip4 = 0;
    assert_eq!(addr_from_endpoint(&ep, &ip_buf), v6(ip_buf, 65000));
}

#[test]
fn default_endpoint_is_an_empty_v4_endpoint() {
    let ep = vppcom_endpt_t::default();
    assert_eq!(ep.is_ip4, 1);
    assert_eq!(ep.port, [0, 0]);
    assert_eq!((ep.unused, ep.unused2, ep.app_tlv_len), (0, 0, 0));
}

#[test]
fn calls_carry_their_arguments() {
    let s = SessionHandle(42);
    assert_eq!(
        SessionHandle::create_tcp(true),
        VclCall::SessionCreate { proto: 0, is_nonblocking: 1 }
    );
    assert_eq!(
        SessionHandle::create_udp(false),
        VclCall::SessionCreate { proto: 1, is_nonblocking: 0 }
    );
    assert_eq!(s.close(), VclCall::SessionClose { session: 42 });
    assert_eq!(s.listen(128), VclCall::SessionListen { session: 42, queue_len: 128 });
    assert_eq!(s.look(), VclCall::SessionRead { session: 42, len: 0 });
    assert_eq!(
        s.shutdown(),
        VclCall::SessionShutdown { session: 42, half: ShutdownHalf::Write }
    );
    let event = Some(epoll_event { events: 5, data: 42 });
    assert_eq!(s.watch(3, 5), VclCall::EpollCtl { vep: 3, op: 1, session: 42, event });
    assert_eq!(
        epoll_wait(3, 8, 30),
        VclCall::EpollWait { vep: 3, max_events: 8, wait_ms: 30 }
    );
    assert_eq!(s.read(512), VclCall::SessionRead { session: 42, len: 512 });
    assert_eq!(s.write(513), VclCall::SessionWrite { session: 42, len: 513 });
    assert_eq!(
        s.accept(),
        VclCall::SessionAccept { session: 42, endpoint: vppcom_endpt_t::default(), flags: 0 }
    );
    assert_eq!(
        s.set_nodelay(),
        VclCall::SessionAttr { session: 42, op: 27, buffer: AttrBuffer::Word(1) }
    );
    assert_eq!(
        s.set_nonblocking(),
        VclCall::SessionAttr { session: 42, op: 3, buffer: AttrBuffer::Word(0o4000) }
    );
    assert_eq!(
        s.local_addr(),
        VclCall::SessionAttr {
            session: 42,
            op: 4,
            buffer: AttrBuffer::Endpoint(vppcom_endpt_t::default()),
        }
    );
    assert_eq!(
        s.peer_addr(),
        VclCall::SessionAttr {
            session: 42,
            op: 6,
            buffer: AttrBuffer::Endpoint(vppcom_endpt_t::default()),
        }
    );
    assert_eq!(
        s.recvfrom(4096),
        VclCall::SessionRecvfrom {
            session: 42,
            len: 4096,
            flags: 0,
            endpoint: vppcom_endpt_t::default(),
        }
    );
}

#[test]
fn addressed_calls_marshal_the_address() {
    let s = SessionHandle(7);
    let addr = v6(DOC_V6, 53);
    let mut octets = [0u8; 16];
    let ep = endpoint_into_buf(addr, &mut octets);
    assert_eq!(s.bind(addr), VclCall::SessionBind { session: 7, endpoint: ep, ip: octets });
    assert_eq!(s.connect(addr), VclCall::SessionConnect { session: 7, endpoint: ep, ip: octets });
    assert_eq!(
        s.sendto(0x1_0000_0005, addr),
        VclCall::SessionSendto { session: 7, len: 5, flags: 0, endpoint: ep, ip: octets }
    );
}

/// Error numbers of no particular host.
const CODES: ErrnoCodes = ErrnoCodes {
    would_block: 1,
    again: 2,
    in_progress: 3,
    not_connected: 4,
    connection_reset: 5,
    broken_pipe: 6,
};

#[test]
fn an_epoll_set_is_closed_before_its_session() {
    let (vep, session) =
        (VclCall::SessionClose { session: 3 }, VclCall::SessionClose { session: 42 });
    assert_eq!(closing(Some(3), SessionHandle(42)), [vep, session]);
    assert_eq!(closing(None, SessionHandle(42)), [session]);
}

#[test]
fn completions_go_by_given_numbers() {
    let peer = v4([198, 51, 100, 4], 4711);
    let mut octets = [0u8; 16];
    let ep = endpoint_into_buf(peer, &mut octets);
    assert_eq!(SessionHandle::created_with(5, &CODES, None), Ok(SessionHandle(5)));
    assert_eq!(SessionHandle::created_with(-1, &CODES, None), Err(VclError::WouldBlock));
    assert_eq!(SessionHandle::done_with(0, &CODES, None), Ok(()));
    assert_eq!(SessionHandle::done_with(-4, &CODES, None), Err(VclError::NotConnected));
    assert_eq!(SessionHandle::count_with(9, &CODES, None), Ok(9));
    assert_eq!(SessionHandle::count_with(-6, &CODES, None), Err(VclError::Closed));
    assert_eq!(
        SessionHandle::accepted_with(8, &CODES, None, &ep, &octets),
        Ok((SessionHandle(8), peer))
    );
    assert_eq!(
        SessionHandle::accepted_with(-2, &CODES, None, &ep, &octets),
        Err(VclError::WouldBlock)
    );
    assert_eq!(SessionHandle::datagram_with(3, &CODES, None, &ep, &octets), Ok((3, peer)));
    assert_eq!(
        SessionHandle::datagram_with(-5, &CODES, None, &ep, &octets),
        Err(VclError::Closed)
    );
    assert_eq!(SessionHandle::address_with(0, &CODES, None, &ep, &octets), Ok(peer));
    assert_eq!(
        SessionHandle::address_with(-11, &CODES, Some("eleven"), &ep, &octets),
        Err(VclError::Api("eleven".to_owned(), -11))
    );
}

#[test]
fn completions_split_success_from_failure() {
    assert_eq!(SessionHandle::created(5, None).unwrap(), SessionHandle(5));
    assert_eq!(
        SessionHandle::created(-99, Some("no memory")).unwrap_err(),
        VclError::Api("no memory".to_owned(), -99)
    );
    assert_eq!(SessionHandle::done(0, None), Ok(()));
    assert_eq!(SessionHandle::done(3, None), Ok(()));
    assert_eq!(
        SessionHandle::done(-99, None).unwrap_err(),
        VclError::Api("unknown error -99".to_owned(), -99)
    );
    assert_eq!(SessionHandle::count(0, None), Ok(0));
    assert_eq!(SessionHandle::count(1500, None), Ok(1500));
    assert_eq!(SessionHandle::count(-11, None), Err(VclError::WouldBlock));
}

#[test]
fn completions_read_the_filled_endpoint() {
    let peer = v4([198, 51, 100, 4], 4711);
    let mut octets = [0u8; 16];
    let ep = endpoint_into_buf(peer, &mut octets);
    assert_eq!(SessionHandle::accepted(9, None, &ep, &octets), Ok((SessionHandle(9), peer)));
    assert_eq!(SessionHandle::accepted(-11, None, &ep, &octets), Err(VclError::WouldBlock));
    assert_eq!(SessionHandle::datagram(28, None, &ep, &octets), Ok((28, peer)));
    assert_eq!(SessionHandle::datagram(-104, None, &ep, &octets), Err(VclError::Closed));
    assert_eq!(SessionHandle::address(0, None, &ep, &octets), Ok(peer));
    assert_eq!(SessionHandle::address(-107, None, &ep, &octets), Err(VclError::NotConnected));
}

#[test]
fn a_cut_through_peer_is_unspecified() {
    let octets = [0u8; 16];
    let (_, peer) =
        SessionHandle::accepted(9, None, &vppcom_endpt_t::default(), &octets).unwrap();
    assert!(peer.ip.is_unspecified());
    assert!(!v4([192, 0, 2, 7], 179).ip.is_unspecified());
    assert!(v6([0; 16], 1).ip.is_unspecified());
}

#[test]
fn addresses_of_different_families_differ() {
    assert!(v4([0, 0, 0, 0], 1).ip.same(&IpAddr::wildcard(false)));
    assert!(!IpAddr::wildcard(true).same(&IpAddr::wildcard(false)));
    assert!(!v4([192, 0, 2, 7], 1).ip.same(&v4([192, 0, 2, 8], 1).ip));
    let mut other = DOC_V6;
    other[15] = 2;
    assert!(!v6(DOC_V6, 1).ip.same(&v6(other, 1).ip));
    assert!(v4([192, 0, 2, 7], 1).ip.is_ipv4());
    assert!(!v6(DOC_V6, 1).ip.is_ipv4());
}
