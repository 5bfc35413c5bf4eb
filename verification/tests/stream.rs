use vcl_rs::addr::{IpAddr, SocketAddr};
use vcl_rs::error::VclError;
use vcl_rs::ops::{Close, Event, Op, Step, Target};
use vcl_rs::stream::{BlockingConnect, Connect};
use vcl_rs::VclStream;

const OWN: Close = Close::Session(Target::Own);
const CREATE: Op = Op::Create { udp: false, nonblocking: true };

fn peer() -> SocketAddr {
    SocketAddr::new(IpAddr::V4([192, 0, 2, 7]), 179)
}

fn source() -> SocketAddr {
    SocketAddr::new(IpAddr::V4([10, 0, 0, 1]), 0)
}

fn go(s: Connect, event: Event, want: Step<()>) -> Connect {
    let (s, step) = s.step(event);
    assert_eq!(step, want);
    s
}

#[test]
fn a_read_waits_until_bytes_come() {
    let (s, step) = VclStream::read();
    assert_eq!(step, Step::Do(Op::ReadInto { from: 0 }));
    let (s, step) = s.step(Event::Count(Err(VclError::WouldBlock)));
    assert_eq!(step, Step::Do(Op::WaitReadable { timeout: 300_000_000_000 }));
    let (s, step) = s.step(Event::Unit(Ok(())));
    assert_eq!(step, Step::Do(Op::ReadInto { from: 0 }));
    let (_, step) = s.step(Event::Count(Ok(5)));
    assert_eq!(step, Step::Done(Ok(5)));
}

#[test]
fn a_read_of_nothing_is_the_end() {
    let (s, _) = VclStream::read();
    let (_, step) = s.step(Event::Count(Ok(0)));
    assert_eq!(step, Step::Done(Err(VclError::Closed)));
    let (s, _) = VclStream::read();
    let (_, step) = s.step(Event::Count(Err(VclError::NotConnected)));
    assert_eq!(step, Step::Done(Err(VclError::NotConnected)));
    let (s, _) = VclStream::read();
    let (s, _) = s.step(Event::Count(Err(VclError::WouldBlock)));
    let (_, step) = s.step(Event::Unit(Err(VclError::Timeout)));
    assert_eq!(step, Step::Done(Err(VclError::Timeout)));
}

#[test]
fn a_fill_takes_as_many_reads_as_needed() {
    let (s, step) = VclStream::read_exact(5);
    assert_eq!(step, Step::Do(Op::ReadInto { from: 0 }));
    let (s, step) = s.step(Event::Count(Ok(2)));
    assert_eq!(step, Step::Do(Op::ReadInto { from: 2 }));
    let (s, step) = s.step(Event::Count(Err(VclError::WouldBlock)));
    assert_eq!(step, Step::Do(Op::WaitReadable { timeout: 300_000_000_000 }));
    let (s, step) = s.step(Event::Unit(Ok(())));
    assert_eq!(step, Step::Do(Op::ReadInto { from: 2 }));
    let (s, step) = s.step(Event::Count(Ok(3)));
    assert_eq!(step, Step::Done(Ok(())));
    assert_eq!(s.step(Event::Count(Ok(1))).1, Step::Ignored);
}

#[test]
fn a_fill_ends_with_the_stream() {
    let (s, _) = VclStream::read_exact(5);
    let (s, _) = s.step(Event::Count(Ok(4)));
    let (_, step) = s.step(Event::Count(Ok(0)));
    assert_eq!(step, Step::Done(Err(VclError::Closed)));
}

#[test]
fn nothing_to_fill_or_write_is_done_at_once() {
    assert_eq!(VclStream::read_exact(0).1, Step::Done(Ok(())));
    assert_eq!(VclStream::write_all(0).1, Step::Done(Ok(())));
}

#[test]
fn all_bytes_are_written() {
    let (s, step) = VclStream::write_all(6);
    assert_eq!(step, Step::Do(Op::WriteFrom { from: 0 }));
    let (s, step) = s.step(Event::Count(Ok(4)));
    assert_eq!(step, Step::Do(Op::WriteFrom { from: 4 }));
    let (s, step) = s.step(Event::Count(Err(VclError::WouldBlock)));
    assert_eq!(step, Step::Do(Op::WaitWritable { timeout: 300_000_000_000 }));
    let (s, step) = s.step(Event::Unit(Ok(())));
    assert_eq!(step, Step::Do(Op::WriteFrom { from: 4 }));
    let (s, step) = s.step(Event::Count(Ok(0)));
    assert_eq!(step, Step::Do(Op::WriteFrom { from: 4 }));
    let (_, step) = s.step(Event::Count(Ok(2)));
    assert_eq!(step, Step::Done(Ok(())));
}

#[test]
fn a_failed_write_is_reported() {
    let (s, _) = VclStream::write_all(6);
    let (_, step) = s.step(Event::Count(Err(VclError::Closed)));
    assert_eq!(step, Step::Done(Err(VclError::Closed)));
    let (s, _) = VclStream::write_all(6);
    let (s, _) = s.step(Event::Count(Err(VclError::WouldBlock)));
    let (_, step) = s.step(Event::Unit(Err(VclError::Timeout)));
    assert_eq!(step, Step::Done(Err(VclError::Timeout)));
}

#[test]
fn a_stream_is_registered_before_it_connects() {
    let (s, step) = VclStream::connect_async(peer(), Some(source()), 30);
    assert_eq!(step, Step::Do(CREATE));
    let s = go(s, Event::Unit(Ok(())), Step::Do(Op::SetNodelay(Target::Own)));
    let s = go(s, Event::Elapsed, Step::Do(Op::Bind(source())));
    let s = go(s, Event::Unit(Ok(())), Step::Do(Op::Register(Target::Own)));
    let s = go(s, Event::Unit(Ok(())), Step::Do(Op::Connect(peer())));
    let s = go(s, Event::Unit(Err(VclError::WouldBlock)), Step::Do(Op::ReadClock));
    let s = go(s, Event::Clock(100), Step::Do(Op::WaitWritable { timeout: 30 }));
    let s = go(s, Event::Unit(Ok(())), Step::Do(Op::Look));
    let s = go(s, Event::Count(Err(VclError::WouldBlock)), Step::Done(Ok(())));
    go(s, Event::Elapsed, Step::Ignored);
}

/// A connection whose handshake is waited for, for 30 from 100 on.
fn handshaking() -> Connect {
    let (s, _) = VclStream::connect_async(peer(), None, 30);
    let (s, _) = s.step(Event::Unit(Ok(())));
    let (s, _) = s.step(Event::Elapsed);
    let (s, _) = s.step(Event::Unit(Ok(())));
    let s = go(s, Event::Unit(Err(VclError::WouldBlock)), Step::Do(Op::ReadClock));
    go(s, Event::Clock(100), Step::Do(Op::WaitWritable { timeout: 30 }))
}

#[test]
fn a_wake_before_the_handshake_is_over_is_waited_out() {
    let s = go(handshaking(), Event::Unit(Ok(())), Step::Do(Op::Look));
    let s = go(s, Event::Count(Err(VclError::NotConnected)), Step::Do(Op::ReadClock));
    let s = go(s, Event::Clock(110), Step::Do(Op::WaitWritable { timeout: 20 }));
    let s = go(s, Event::Unit(Ok(())), Step::Do(Op::Look));
    let s = go(s, Event::Count(Err(VclError::NotConnected)), Step::Do(Op::ReadClock));
    let s = go(s, Event::Clock(129), Step::Do(Op::WaitWritable { timeout: 1 }));
    let s = go(s, Event::Unit(Ok(())), Step::Do(Op::Look));
    go(s, Event::Count(Ok(0)), Step::Done(Ok(())));
}

#[test]
fn an_unfinished_handshake_times_out() {
    let s = go(handshaking(), Event::Unit(Ok(())), Step::Do(Op::Look));
    let s = go(s, Event::Count(Err(VclError::NotConnected)), Step::Do(Op::ReadClock));
    go(s, Event::Clock(130), Step::Close(OWN, Err(VclError::Timeout)));
    let s = go(handshaking(), Event::Unit(Ok(())), Step::Do(Op::Look));
    go(s, Event::Count(Err(VclError::Closed)), Step::Close(OWN, Err(VclError::Closed)));
}

#[test]
fn a_stream_without_a_source_is_not_bound() {
    let (s, _) = VclStream::connect_async(peer(), None, 30);
    let s = go(s, Event::Unit(Ok(())), Step::Do(Op::SetNodelay(Target::Own)));
    let s = go(s, Event::Elapsed, Step::Do(Op::Register(Target::Own)));
    let s = go(s, Event::Unit(Ok(())), Step::Do(Op::Connect(peer())));
    let s = go(s, Event::Unit(Ok(())), Step::Do(Op::ReadClock));
    let s = go(s, Event::Clock(0), Step::Do(Op::WaitWritable { timeout: 30 }));
    go(s, Event::Unit(Err(VclError::Timeout)), Step::Close(OWN, Err(VclError::Timeout)));
}

#[test]
fn a_refused_handshake_is_reported() {
    let (s, _) = VclStream::connect_async(peer(), None, 30);
    let (s, _) = s.step(Event::Unit(Ok(())));
    let (s, _) = s.step(Event::Elapsed);
    let (s, _) = s.step(Event::Unit(Ok(())));
    go(s, Event::Unit(Err(VclError::Closed)), Step::Close(OWN, Err(VclError::Closed)));
}

#[test]
fn a_blocking_connection_replaces_the_session() {
    let (s, step) = VclStream::connect(peer(), Some(source()));
    assert_eq!(step, Step::Do(CREATE));
    let s = go(s, Event::Unit(Ok(())), Step::Do(Op::SetNodelay(Target::Own)));
    let s = go(s, Event::Elapsed, Step::Do(Op::Bind(source())));
    let s = go(s, Event::Unit(Ok(())), Step::Do(Op::ConnectBlocking(peer())));
    let s = go(s, Event::Unit(Ok(())), Step::Do(Op::SetNodelay(Target::Own)));
    let s = go(s, Event::Elapsed, Step::Do(Op::SetNonblocking(Target::Own)));
    let s = go(s, Event::Unit(Ok(())), Step::Do(Op::Register(Target::Own)));
    go(s, Event::Unit(Ok(())), Step::Done(Ok(())));
}

#[test]
fn a_lost_thread_is_a_failure() {
    let (s, _) = VclStream::connect(peer(), None);
    let (s, _) = s.step(Event::Unit(Ok(())));
    let s = go(s, Event::Elapsed, Step::Do(Op::ConnectBlocking(peer())));
    let e = VclError::Api("spawn_blocking join: task 1 panicked".to_owned(), -1);
    go(s, Event::JoinFailed("task 1 panicked".to_owned()), Step::Close(OWN, Err(e)));
}

#[test]
fn failures_end_a_connection() {
    let (s, _) = VclStream::connect(peer(), None);
    go(s, Event::Unit(Err(VclError::Closed)), Step::Done(Err(VclError::Closed)));
    let (s, _) = VclStream::connect(peer(), Some(source()));
    let (s, _) = s.step(Event::Unit(Ok(())));
    let (s, _) = s.step(Event::Elapsed);
    go(s, Event::Unit(Err(VclError::Closed)), Step::Close(OWN, Err(VclError::Closed)));
    let (s, _) = VclStream::connect(peer(), None);
    let (s, _) = s.step(Event::Unit(Ok(())));
    let s = go(s, Event::Unit(Err(VclError::Closed)), Step::Ignored);
    let (s, _) = s.step(Event::Elapsed);
    go(s, Event::Unit(Err(VclError::Timeout)), Step::Close(OWN, Err(VclError::Timeout)));
}

#[test]
fn the_blocking_half_opens_a_session_of_its_own() {
    let (s, step) = BlockingConnect::start(peer());
    assert_eq!(step, Step::Do(Op::Create { udp: false, nonblocking: false }));
    let (s, step) = s.step(Event::Unit(Ok(())));
    assert_eq!(step, Step::Do(Op::Connect(peer())));
    let (_, step) = s.step(Event::Unit(Ok(())));
    assert_eq!(step, Step::Done(Ok(())));
    let (_, step) = s.step(Event::Unit(Err(VclError::WouldBlock)));
    assert_eq!(step, Step::Close(OWN, Err(VclError::WouldBlock)));
    let (s, _) = BlockingConnect::start(peer());
    let (_, step) = s.step(Event::Unit(Err(VclError::Closed)));
    assert_eq!(step, Step::Done(Err(VclError::Closed)));
}

#[test]
fn stream_addresses_are_optional() {
    assert_eq!(VclStream::local_addr(Ok(source())), Some(source()));
    assert_eq!(VclStream::local_addr(Err(VclError::Closed)), None);
    assert_eq!(VclStream::peer_addr(Ok(peer())), Some(peer()));
    assert_eq!(VclStream::peer_addr(Err(VclError::Closed)), None);
}
