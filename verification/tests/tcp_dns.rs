use vcl_rs::addr::{IpAddr, SocketAddr};
use vcl_rs::error::VclError;
use vcl_rs::ffi::{EPOLLET, EPOLLIN, EPOLLOUT};
use vcl_rs::ops::{Close, Event, Op, Step, Target};
use vcl_rs::tcp_dns::{query_tcp_dns_sync, TcpDnsSync};

const MS: u128 = 1_000_000;
const BOTH: Close = Close::EpollAndSession;
const SESSION: Close = Close::Session(Target::Own);
const DRAIN: Op = Op::WaitEpoll { max_events: 4, wait_ms: 5 };

fn peer() -> SocketAddr {
    SocketAddr::new(IpAddr::V4([192, 0, 2, 53]), 53)
}

/// Hands the query an event and holds its step against `want`.
fn go(s: TcpDnsSync, event: Event, want: Step<Vec<u8>>) -> TcpDnsSync {
    let (s, step) = s.advance(event);
    assert_eq!(step, want);
    s
}

fn begin(query: &[u8]) -> TcpDnsSync {
    let (s, step) = query_tcp_dns_sync(peer(), "192.0.2.53:53", None, query, 1000 * MS);
    assert_eq!(step, Step::Do(Op::Create { udp: false, nonblocking: true }));
    s
}

fn connecting(query: &[u8]) -> TcpDnsSync {
    let s = go(begin(query), Event::Unit(Ok(())), Step::Do(Op::CreateEpoll));
    let events = EPOLLIN | EPOLLOUT | EPOLLET;
    let s = go(s, Event::Code(4), Step::Do(Op::AddToEpoll { events }));
    go(s, Event::Code(0), Step::Do(Op::Connect(peer())))
}

/// A query whose first write is due; its deadline is at 1500 ms.
fn writing(query: &[u8]) -> TcpDnsSync {
    let s = connecting(query);
    let s = go(s, Event::Unit(Err(VclError::WouldBlock)), Step::Do(Op::ReadClock));
    go(s, Event::Clock(500 * MS), Step::Do(Op::Write))
}

/// A query that was written and whose length prefix is due.
fn reading() -> TcpDnsSync {
    let s = writing(&[1, 2, 3]);
    assert_eq!(s.outgoing(), [0, 3, 1, 2, 3]);
    go(s, Event::Count(Ok(5)), Step::Do(Op::ReadClock))
}

#[test]
fn an_exchange_in_pieces_is_faithful() {
    let s = writing(&[1, 2, 3]);
    assert_eq!(s.outgoing(), [0, 3, 1, 2, 3]);
    let s = go(s, Event::Count(Err(VclError::NotConnected)), Step::Do(Op::ReadClock));
    let s = go(s, Event::Clock(501 * MS), Step::Do(DRAIN));
    let s = go(s, Event::Code(0), Step::Do(Op::Write));
    let s = go(s, Event::Count(Ok(3)), Step::Do(Op::Write));
    assert_eq!(s.outgoing(), [2, 3]);
    let s = go(s, Event::Count(Ok(2)), Step::Do(Op::ReadClock));
    assert!(s.outgoing().is_empty());
    let s = go(s, Event::Clock(502 * MS), Step::Do(Op::Read { max: 2 }));
    let s = go(s, Event::Bytes(Ok(vec![0])), Step::Do(Op::ReadClock));
    let s = go(s, Event::Clock(503 * MS), Step::Do(Op::Read { max: 1 }));
    let s = go(s, Event::Bytes(Ok(vec![4])), Step::Do(Op::ReadClock));
    let s = go(s, Event::Clock(504 * MS), Step::Do(Op::Read { max: 4 }));
    let s = go(s, Event::Bytes(Err(VclError::WouldBlock)), Step::Do(DRAIN));
    let s = go(s, Event::Code(0), Step::Do(Op::ReadClock));
    let s = go(s, Event::Clock(505 * MS), Step::Do(Op::Read { max: 4 }));
    let s = go(s, Event::Bytes(Ok(vec![9, 8, 7])), Step::Do(Op::ReadClock));
    let s = go(s, Event::Clock(506 * MS), Step::Do(Op::Read { max: 1 }));
    let s = go(s, Event::Bytes(Ok(vec![6])), Step::Close(BOTH, Ok(vec![9, 8, 7, 6])));
    go(s, Event::Elapsed, Step::Ignored);
}

#[test]
fn a_write_past_the_deadline_times_out() {
    let s = writing(&[1]);
    let s = go(s, Event::Count(Err(VclError::WouldBlock)), Step::Do(Op::ReadClock));
    go(s, Event::Clock(1500 * MS), Step::Close(BOTH, Err(VclError::Timeout)));
}

#[test]
fn a_read_past_the_deadline_times_out() {
    go(reading(), Event::Clock(1500 * MS), Step::Close(BOTH, Err(VclError::Timeout)));
    let s = go(reading(), Event::Clock(1499 * MS), Step::Do(Op::Read { max: 2 }));
    let s = go(s, Event::Bytes(Ok(vec![0, 9])), Step::Do(Op::ReadClock));
    go(s, Event::Clock(1501 * MS), Step::Close(BOTH, Err(VclError::Timeout)));
}

#[test]
fn a_failed_write_leaves_a_prefix_behind() {
    let s = writing(&[1, 2, 3]);
    let s = go(s, Event::Count(Ok(3)), Step::Do(Op::Write));
    // Two length octets and the first octet of the query were taken.
    assert_eq!(s.outgoing(), [2, 3]);
    let s = go(s, Event::Count(Err(VclError::Closed)), Step::Close(BOTH, Err(VclError::Closed)));
    assert!(s.outgoing().is_empty());
}

#[test]
fn an_early_end_is_reported() {
    let s = go(reading(), Event::Clock(600 * MS), Step::Do(Op::Read { max: 2 }));
    go(s, Event::Bytes(Ok(vec![])), Step::Close(BOTH, Err(VclError::Closed)));
}

#[test]
fn a_zero_length_response_is_refused() {
    let s = go(reading(), Event::Clock(600 * MS), Step::Do(Op::Read { max: 2 }));
    let zero = VclError::Api("zero-length DNS response".to_owned(), -1);
    go(s, Event::Bytes(Ok(vec![0, 0])), Step::Close(BOTH, Err(zero)));
}

#[test]
fn an_oversized_query_writes_nothing() {
    let s = connecting(&vec![0; 65536]);
    let oversized = VclError::Api("DNS query longer than 65535 bytes".to_owned(), -1);
    let s = go(s, Event::Unit(Ok(())), Step::Close(BOTH, Err(oversized)));
    assert!(s.outgoing().is_empty());
}

#[test]
fn the_source_is_bound_before_anything_else() {
    let ip = IpAddr::V4([10, 0, 0, 1]);
    let source = Some((ip, "10.0.0.1"));
    let (s, _) = query_tcp_dns_sync(peer(), "192.0.2.53:53", source, &[1], MS);
    let (mut s, mut step) = s.advance(Event::Unit(Ok(())));
    for attempt in 0..8 {
        match step {
            Step::Do(Op::Bind(addr)) => {
                assert_eq!(addr.ip, ip);
                assert!((32768..=60999).contains(&addr.port));
            }
            other => panic!("attempt {attempt}: {other:?}"),
        }
        (s, step) = s.advance(Event::Unit(Err(VclError::Closed)));
    }
    let exhausted = VclError::Api("ephemeral source bind exhausted".to_owned(), -1);
    assert_eq!(step, Step::Close(SESSION, Err(exhausted)));
}

#[test]
fn a_bound_source_leads_to_the_connection() {
    let source = Some((IpAddr::V4([10, 0, 0, 1]), "10.0.0.1"));
    let (s, _) = query_tcp_dns_sync(peer(), "192.0.2.53:53", source, &[1], MS);
    let (s, step) = s.advance(Event::Unit(Ok(())));
    assert!(matches!(step, Step::Do(Op::Bind(_))));
    go(s, Event::Unit(Ok(())), Step::Do(Op::CreateEpoll));
}

#[test]
fn the_exact_port_is_bound() {
    let ip = IpAddr::V4([10, 0, 0, 1]);
    let (s, _) = query_tcp_dns_sync(peer(), "192.0.2.53:53", Some((ip, "10.0.0.1")), &[1], MS);
    let (s, step) = s.step(Event::Unit(Ok(())));
    assert_eq!(step, Step::Do(Op::PickPort));
    let (_, step) = s.step(Event::Port(40000));
    assert_eq!(step, Step::Do(Op::Bind(SocketAddr::new(ip, 40000))));
}

#[test]
fn a_source_of_another_family_is_refused() {
    let source = Some((IpAddr::V6([0; 16]), "::"));
    let (s, _) = query_tcp_dns_sync(peer(), "192.0.2.53:53", source, &[1], MS);
    let message = "source IP family (::) doesn't match peer (192.0.2.53:53)";
    go(
        s,
        Event::Unit(Ok(())),
        Step::Close(SESSION, Err(VclError::Api(message.to_owned(), -1))),
    );
}

#[test]
fn failures_on_the_way_end_the_query() {
    // Nothing was opened.
    go(begin(&[1]), Event::Unit(Err(VclError::Closed)), Step::Done(Err(VclError::Closed)));
    let s = go(begin(&[1]), Event::Unit(Ok(())), Step::Do(Op::CreateEpoll));
    let e = VclError::Api("vppcom_epoll_create: -12".to_owned(), -12);
    go(s, Event::Code(-12), Step::Close(SESSION, Err(e)));
    let s = go(begin(&[1]), Event::Unit(Ok(())), Step::Do(Op::CreateEpoll));
    let (s, _) = s.advance(Event::Code(4));
    let e = VclError::Api("vppcom_epoll_ctl ADD: -22".to_owned(), -22);
    go(s, Event::Code(-22), Step::Close(BOTH, Err(e)));
    let s = connecting(&[1]);
    go(s, Event::Unit(Err(VclError::Closed)), Step::Close(BOTH, Err(VclError::Closed)));
    let s = writing(&[1]);
    go(s, Event::Count(Err(VclError::Closed)), Step::Close(BOTH, Err(VclError::Closed)));
    let s = go(reading(), Event::Clock(600 * MS), Step::Do(Op::Read { max: 2 }));
    go(s, Event::Bytes(Err(VclError::Timeout)), Step::Close(BOTH, Err(VclError::Timeout)));
}
