use vcl_rs::addr::{IpAddr, SocketAddr};
use vcl_rs::error::VclError;
use vcl_rs::ffi::{vppcom_endpt_t, AttrBuffer, VclCall};
use vcl_rs::ops::{Close, Event, Op, Step, Target};
use vcl_rs::session::SessionHandle;
use vcl_rs::udp::{probe_local_source, query_udp_sync, UdpExchange, UdpSync, VclUdpSyncSocket};

const MS: u128 = 1_000_000;
const OWN: Close = Close::Session(Target::Own);
const RECEIVE: Op = Op::Receive { max: 4096 };

fn at(octets: [u8; 4], port: u16) -> SocketAddr {
    SocketAddr::new(IpAddr::V4(octets), port)
}

fn peer() -> SocketAddr {
    at([192, 0, 2, 53], 53)
}

type Reply = (Vec<u8>, SocketAddr);

fn go(s: UdpExchange, event: Event, want: Step<Reply>) -> UdpExchange {
    let (s, step) = s.step(event);
    assert_eq!(step, want);
    s
}

/// An exchange that has sent its query and looks for the response until 1500 ms.
fn receiving() -> UdpExchange {
    let (s, step) = VclUdpSyncSocket::query(peer(), &[1, 2, 3], 1000 * MS);
    assert_eq!(step, Step::Do(Op::SendTo(peer())));
    assert_eq!(s.outgoing(), [1, 2, 3]);
    let s = go(s, Event::Count(Ok(3)), Step::Do(Op::ReadClock));
    go(s, Event::Clock(500 * MS), Step::Do(RECEIVE))
}

#[test]
fn a_response_from_the_peer_is_returned() {
    // The peer may answer from another port.
    let from = at([192, 0, 2, 53], 5353);
    go(receiving(), Event::Datagram(Ok((vec![7], from))), Step::Done(Ok((vec![7], from))));
}

#[test]
fn stray_datagrams_are_discarded() {
    let stray = at([198, 51, 100, 1], 53);
    let s = go(receiving(), Event::Datagram(Ok((vec![9], stray))), Step::Do(Op::ReadClock));
    let s = go(s, Event::Clock(600 * MS), Step::Do(RECEIVE));
    go(s, Event::Datagram(Ok((vec![7], peer()))), Step::Done(Ok((vec![7], peer()))));
}

#[test]
fn strays_do_not_hold_off_the_deadline() {
    let stray = at([198, 51, 100, 1], 53);
    let s = go(receiving(), Event::Datagram(Ok((vec![9], stray))), Step::Do(Op::ReadClock));
    go(s, Event::Clock(1500 * MS), Step::Done(Err(VclError::Timeout)));
}

#[test]
fn an_exchange_sleeps_between_looks_and_times_out() {
    let s = go(receiving(), Event::Datagram(Err(VclError::WouldBlock)), Step::Do(Op::ReadClock));
    let s = go(s, Event::Clock(1499 * MS), Step::Do(Op::Sleep { ms: 5 }));
    let s = go(s, Event::Elapsed, Step::Do(RECEIVE));
    let s = go(s, Event::Datagram(Err(VclError::WouldBlock)), Step::Do(Op::ReadClock));
    let s = go(s, Event::Clock(1504 * MS), Step::Done(Err(VclError::Timeout)));
    go(s, Event::Elapsed, Step::Ignored);
}

#[test]
fn a_deadline_beyond_the_clock_is_never_reached() {
    let (s, _) = VclUdpSyncSocket::query(peer(), &[1], u128::MAX);
    let (s, _) = s.step(Event::Count(Ok(1)));
    let s = go(s, Event::Clock(500 * MS), Step::Do(RECEIVE));
    let s = go(s, Event::Datagram(Err(VclError::WouldBlock)), Step::Do(Op::ReadClock));
    go(s, Event::Clock(u128::MAX - 1), Step::Do(Op::Sleep { ms: 5 }));
}

#[test]
fn exchange_failures_are_reported() {
    let (s, _) = VclUdpSyncSocket::query(peer(), &[1], MS);
    go(s, Event::Count(Err(VclError::WouldBlock)), Step::Done(Err(VclError::WouldBlock)));
    go(receiving(), Event::Datagram(Err(VclError::Closed)), Step::Done(Err(VclError::Closed)));
}

fn query(source: Option<(IpAddr, &str)>) -> UdpSync {
    let (s, step) = query_udp_sync(peer(), "192.0.2.53:53", source, &[1, 2], 1000 * MS);
    assert_eq!(step, Step::Do(Op::Create { udp: true, nonblocking: true }));
    s
}

#[test]
fn a_one_shot_query_binds_listens_and_sends() {
    let (s, step) = query(None).advance(Event::Unit(Ok(())));
    match step {
        Step::Do(Op::Bind(addr)) => {
            assert_eq!(addr.ip, IpAddr::wildcard(false));
            assert!((32768..=60999).contains(&addr.port));
        }
        other => panic!("{other:?}"),
    }
    let (s, step) = s.advance(Event::Unit(Ok(())));
    assert_eq!(step, Step::Do(Op::Listen { backlog: 0 }));
    let (s, step) = s.advance(Event::Unit(Ok(())));
    assert_eq!(step, Step::Do(Op::SendTo(peer())));
    assert_eq!(s.outgoing(), [1, 2]);
    let (s, step) = s.advance(Event::Count(Ok(2)));
    assert_eq!(step, Step::Do(Op::ReadClock));
    let (s, step) = s.advance(Event::Clock(0));
    assert_eq!(step, Step::Do(RECEIVE));
    // The first datagram is the response, whoever sent it.
    let from = at([198, 51, 100, 1], 1);
    let (_, step) = s.advance(Event::Datagram(Ok((vec![5], from))));
    assert_eq!(step, Step::Close(OWN, Ok((vec![5], from))));
}

#[test]
fn a_one_shot_query_tries_eight_ports() {
    let source = IpAddr::V4([10, 0, 0, 1]);
    let (mut s, mut step) = query(Some((source, "10.0.0.1"))).advance(Event::Unit(Ok(())));
    for _ in 0..8 {
        assert!(matches!(step, Step::Do(Op::Bind(addr)) if addr.ip == source));
        (s, step) = s.advance(Event::Unit(Err(VclError::Closed)));
    }
    let exhausted = VclError::Api("ephemeral bind exhausted".to_owned(), -1);
    assert_eq!(step, Step::Close(OWN, Err(exhausted)));
}

#[test]
fn a_one_shot_query_refuses_another_family() {
    let (_, step) = query(Some((IpAddr::V6([0; 16]), "::"))).advance(Event::Unit(Ok(())));
    let message = "source IP family (::) doesn't match peer family (192.0.2.53:53)";
    assert_eq!(step, Step::Close(OWN, Err(VclError::Api(message.to_owned(), -1))));
}

#[test]
fn a_one_shot_query_reports_failures() {
    // Nothing was opened.
    let (_, step) = query(None).advance(Event::Unit(Err(VclError::Closed)));
    assert_eq!(step, Step::Done(Err(VclError::Closed)));
    let (s, _) = query(None).advance(Event::Unit(Ok(())));
    let (s, _) = s.advance(Event::Unit(Ok(())));
    let (s, step) = s.advance(Event::Unit(Err(VclError::NotConnected)));
    assert_eq!(step, Step::Close(OWN, Err(VclError::NotConnected)));
    assert_eq!(s.advance(Event::Elapsed).1, Step::Ignored);
}

#[test]
fn a_probe_sends_one_octet_and_asks() {
    let (s, step) = probe_local_source(peer());
    assert_eq!(step, Step::Do(Op::Create { udp: true, nonblocking: false }));
    let (s, step) = s.advance(Event::Unit(Ok(())));
    assert!(matches!(step, Step::Do(Op::Bind(addr)) if addr.ip == IpAddr::wildcard(false)));
    let (s, step) = s.advance(Event::Unit(Ok(())));
    assert_eq!(step, Step::Do(Op::SendTo(peer())));
    assert_eq!(s.outgoing(), [0]);
    let (s, step) = s.advance(Event::Count(Ok(1)));
    assert_eq!(step, Step::Do(Op::LocalAddr));
    let local = at([10, 0, 0, 1], 40000);
    let (s, step) = s.advance(Event::Address(Ok(local)));
    assert_eq!(step, Step::Close(OWN, Ok(local)));
    assert_eq!(s.advance(Event::Elapsed).1, Step::Ignored);
}

#[test]
fn a_probe_reports_failures() {
    let v6 = SocketAddr::new(IpAddr::V6([1; 16]), 53);
    let (mut s, mut step) = probe_local_source(v6).0.advance(Event::Unit(Ok(())));
    for _ in 0..8 {
        assert!(matches!(step, Step::Do(Op::Bind(addr)) if addr.ip == IpAddr::wildcard(true)));
        (s, step) = s.advance(Event::Unit(Err(VclError::Closed)));
    }
    let exhausted = VclError::Api("probe: ephemeral bind exhausted".to_owned(), -1);
    assert_eq!(step, Step::Close(OWN, Err(exhausted)));
    let (s, _) = probe_local_source(peer()).0.advance(Event::Unit(Ok(())));
    let (s, _) = s.advance(Event::Unit(Ok(())));
    let (_, step) = s.advance(Event::Count(Err(VclError::NotConnected)));
    assert_eq!(step, Step::Close(OWN, Err(VclError::NotConnected)));
}

#[test]
fn a_long_lived_socket_is_bound_and_listens() {
    let (s, step) = VclUdpSyncSocket::bind(None, true);
    assert_eq!(step, Step::Do(Op::Create { udp: true, nonblocking: true }));
    let (s, step) = s.advance(Event::Unit(Ok(())));
    assert!(matches!(step, Step::Do(Op::Bind(addr)) if addr.ip == IpAddr::wildcard(true)));
    let (s, step) = s.advance(Event::Unit(Ok(())));
    assert_eq!(step, Step::Do(Op::Listen { backlog: 0 }));
    let (s, step) = s.advance(Event::Unit(Ok(())));
    assert_eq!(step, Step::Done(Ok(())));
    assert_eq!(s.advance(Event::Elapsed).1, Step::Ignored);
}

#[test]
fn a_long_lived_socket_that_cannot_listen_is_closed() {
    let (s, _) = VclUdpSyncSocket::bind(None, false);
    let (s, _) = s.advance(Event::Unit(Ok(())));
    let (s, _) = s.advance(Event::Unit(Ok(())));
    let (_, step) = s.advance(Event::Unit(Err(VclError::Closed)));
    assert_eq!(step, Step::Close(OWN, Err(VclError::Closed)));
    let (s, _) = VclUdpSyncSocket::bind(None, false);
    let (_, step) = s.advance(Event::Unit(Err(VclError::Closed)));
    assert_eq!(step, Step::Done(Err(VclError::Closed)));
}

#[test]
fn a_probe_without_a_session_closes_nothing() {
    let (_, step) = probe_local_source(peer()).0.advance(Event::Unit(Err(VclError::Closed)));
    assert_eq!(step, Step::Done(Err(VclError::Closed)));
}

#[test]
fn a_long_lived_socket_refuses_another_family() {
    let source = Some((IpAddr::V4([10, 0, 0, 1]), "10.0.0.1"));
    let (s, _) = VclUdpSyncSocket::bind(source, true);
    let message = "source 10.0.0.1 family doesn't match is_v6=true";
    let (_, step) = s.advance(Event::Unit(Ok(())));
    assert_eq!(step, Step::Close(OWN, Err(VclError::Api(message.to_owned(), -1))));
    let (s, _) = VclUdpSyncSocket::bind(Some((IpAddr::V6([0; 16]), "::")), false);
    let message = "source :: family doesn't match is_v6=false";
    let (_, step) = s.advance(Event::Unit(Ok(())));
    assert_eq!(step, Step::Close(OWN, Err(VclError::Api(message.to_owned(), -1))));
}

#[test]
fn a_long_lived_socket_runs_out_of_ports() {
    let source = Some((IpAddr::V4([10, 0, 0, 1]), "10.0.0.1"));
    let (mut s, mut step) = VclUdpSyncSocket::bind(source, false).0.advance(Event::Unit(Ok(())));
    for _ in 0..8 {
        assert!(matches!(step, Step::Do(Op::Bind(_))));
        (s, step) = s.advance(Event::Unit(Err(VclError::Closed)));
    }
    let exhausted = VclError::Api("ephemeral bind exhausted".to_owned(), -1);
    assert_eq!(step, Step::Close(OWN, Err(exhausted)));
}

#[test]
fn a_long_lived_socket_asks_for_its_own_address() {
    let socket = VclUdpSyncSocket { handle: SessionHandle(3) };
    let buffer = AttrBuffer::Endpoint(vppcom_endpt_t::default());
    assert_eq!(socket.local_addr(), VclCall::SessionAttr { session: 3, op: 4, buffer });
}
