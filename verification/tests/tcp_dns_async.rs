use vcl_rs::addr::{IpAddr, SocketAddr};
use vcl_rs::ephemeral::BindPlan;
use vcl_rs::error::VclError;
use vcl_rs::ops::{remaining, Close, Event, Op, Step};
use vcl_rs::tcp_dns_async::{query_tcp_dns_async, TcpDnsAsync};

const MS: u128 = 1_000_000;
const PORTS: [u16; 8] = [40001, 40002, 40003, 40004, 40005, 40006, 40007, 40008];

fn peer() -> SocketAddr {
    SocketAddr::new(IpAddr::V4([192, 0, 2, 53]), 53)
}

fn go(s: TcpDnsAsync, event: Event, want: Step<Vec<u8>>) -> TcpDnsAsync {
    let (s, step) = s.step(event);
    assert_eq!(step, want);
    s
}

fn from_port(port: u16, timeout: u128) -> Step<Vec<u8>> {
    let source = Some(SocketAddr::new(IpAddr::V4([10, 0, 0, 1]), port));
    Step::Do(Op::ConnectStream { peer: peer(), source, timeout })
}

/// A query with a source and 1000 ms, whose clock stands at 100 ms.
fn sourced() -> TcpDnsAsync {
    let plan = BindPlan::Bind(IpAddr::V4([10, 0, 0, 1]));
    let (s, step) = TcpDnsAsync::start(peer(), plan, PORTS, &[1, 2], 1000 * MS);
    assert_eq!(step, Step::Do(Op::ReadClock));
    go(s, Event::Clock(100 * MS), Step::Do(Op::ReadClock))
}

#[test]
fn an_exchange_over_a_stream_is_faithful() {
    let (s, step) = query_tcp_dns_async(peer(), "192.0.2.53:53", None, &[1, 2], 7);
    assert_eq!(step, Step::Do(Op::ConnectStream { peer: peer(), source: None, timeout: 7 }));
    assert!(s.outgoing().is_empty());
    let s = go(s, Event::Unit(Ok(())), Step::Do(Op::WriteAll));
    assert_eq!(s.outgoing(), [0, 2, 1, 2]);
    let s = go(s, Event::Unit(Ok(())), Step::Do(Op::ReadExact { len: 2 }));
    let s = go(s, Event::Bytes(Ok(vec![0, 3])), Step::Do(Op::ReadExact { len: 3 }));
    let s = go(s, Event::Bytes(Ok(vec![9, 8, 7])), Step::Close(Close::Stream, Ok(vec![9, 8, 7])));
    go(s, Event::Elapsed, Step::Ignored);
}

#[test]
fn each_port_gets_the_time_that_is_left() {
    let s = go(sourced(), Event::Clock(100 * MS), from_port(40001, 1000 * MS));
    let s = go(s, Event::Unit(Err(VclError::Closed)), Step::Do(Op::ReadClock));
    let s = go(s, Event::Clock(350 * MS), from_port(40002, 750 * MS));
    let s = go(s, Event::Unit(Err(VclError::Closed)), Step::Do(Op::ReadClock));
    let s = go(s, Event::Clock(1099 * MS), from_port(40003, MS));
    let s = go(s, Event::Unit(Err(VclError::Closed)), Step::Do(Op::ReadClock));
    go(s, Event::Clock(1100 * MS), Step::Done(Err(VclError::Timeout)));
}

#[test]
fn the_last_refusal_is_the_result() {
    let mut s = sourced();
    for (i, port) in PORTS.iter().enumerate() {
        s = go(s, Event::Clock(100 * MS), from_port(*port, 1000 * MS));
        let refusal = VclError::Api(format!("refused {i}"), -98);
        let (next, step) = s.step(Event::Unit(Err(refusal)));
        if i < 7 {
            assert_eq!(step, Step::Do(Op::ReadClock));
        } else {
            assert_eq!(step, Step::Done(Err(VclError::Api("refused 7".to_owned(), -98))));
        }
        s = next;
    }
}

#[test]
fn a_connected_port_is_used() {
    let s = go(sourced(), Event::Clock(100 * MS), from_port(40001, 1000 * MS));
    let s = go(s, Event::Unit(Ok(())), Step::Do(Op::WriteAll));
    assert_eq!(s.outgoing(), [0, 2, 1, 2]);
}

#[test]
fn drawn_ports_are_ephemeral() {
    let source = Some((IpAddr::V4([10, 0, 0, 1]), "10.0.0.1"));
    let (s, step) = query_tcp_dns_async(peer(), "192.0.2.53:53", source, &[1], 1000 * MS);
    assert_eq!(step, Step::Do(Op::ReadClock));
    let (s, _) = s.step(Event::Clock(0));
    match s.step(Event::Clock(1)).1 {
        Step::Do(Op::ConnectStream { peer: to, source: Some(addr), timeout }) => {
            assert_eq!(to, peer());
            assert_eq!(addr.ip, IpAddr::V4([10, 0, 0, 1]));
            assert!((32768..=60999).contains(&addr.port));
            assert_eq!(timeout, 1000 * MS - 1);
        }
        other => panic!("{other:?}"),
    }
}

#[test]
fn another_family_is_refused_at_once() {
    let source = Some((IpAddr::V6([0; 16]), "::"));
    let (_, step) = query_tcp_dns_async(peer(), "192.0.2.53:53", source, &[1], MS);
    let message = "source IP family (::) doesn't match peer (192.0.2.53:53)";
    assert_eq!(step, Step::Done(Err(VclError::Api(message.to_owned(), -1))));
}

#[test]
fn an_oversized_query_is_not_written() {
    let (s, _) = query_tcp_dns_async(peer(), "p", None, &vec![0; 65536], MS);
    let oversized = VclError::Api("DNS query longer than 65535 bytes".to_owned(), -1);
    let s = go(s, Event::Unit(Ok(())), Step::Close(Close::Stream, Err(oversized)));
    assert!(s.outgoing().is_empty());
}

#[test]
fn a_zero_prefix_is_refused() {
    let (s, _) = query_tcp_dns_async(peer(), "p", None, &[1], MS);
    let (s, _) = s.step(Event::Unit(Ok(())));
    let (s, _) = s.step(Event::Unit(Ok(())));
    let zero = VclError::Api("zero-length DNS response".to_owned(), -1);
    go(s, Event::Bytes(Ok(vec![0, 0])), Step::Close(Close::Stream, Err(zero)));
}

#[test]
fn stream_failures_end_the_query() {
    let (s, _) = query_tcp_dns_async(peer(), "p", None, &[1], MS);
    go(s, Event::Unit(Err(VclError::Timeout)), Step::Done(Err(VclError::Timeout)));
    let (s, _) = query_tcp_dns_async(peer(), "p", None, &[1], MS);
    let (s, _) = s.step(Event::Unit(Ok(())));
    let closed = Step::Close(Close::Stream, Err(VclError::Closed));
    go(s, Event::Unit(Err(VclError::Closed)), closed);
    let (s, _) = query_tcp_dns_async(peer(), "p", None, &[1], MS);
    let (s, _) = s.step(Event::Unit(Ok(())));
    let (s, _) = s.step(Event::Unit(Ok(())));
    let s = go(s, Event::Bytes(Ok(vec![1, 0])), Step::Do(Op::ReadExact { len: 256 }));
    let closed = Step::Close(Close::Stream, Err(VclError::Closed));
    go(s, Event::Bytes(Err(VclError::Closed)), closed);
}

#[test]
fn remaining_time_never_goes_below_zero() {
    assert_eq!(remaining(10, 100, 100), 10);
    assert_eq!(remaining(10, 100, 103), 7);
    assert_eq!(remaining(10, 100, 110), 0);
    assert_eq!(remaining(10, 100, u128::MAX), 0);
    assert_eq!(remaining(10, 100, 50), 10);
}
