use vcl_rs::addr::{IpAddr, SocketAddr};
use vcl_rs::bind::{verify_bind_or_err, ServerBind, VerifyBind};
use vcl_rs::error::VclError;
use vcl_rs::ffi::{EPOLLET, EPOLLHUP, EPOLLIN, EPOLLOUT, EPOLLRDHUP};
use vcl_rs::ops::{Close, Event, Op, Step, Target};
use vcl_rs::{VclDgramSocket, VclListener};

const OWN: Close = Close::Session(Target::Own);
const MS: u128 = 1_000_000;

fn addr(port: u16) -> SocketAddr {
    SocketAddr::new(IpAddr::V4([192, 0, 2, 1]), port)
}

/// Hands the confirmation an event and holds its step against `want`.
fn go(s: VerifyBind, event: Event, want: Step<()>) -> VerifyBind {
    let (s, step) = s.step(event);
    assert_eq!(step, want);
    s
}

/// A confirmation that watches the session from 1000 ms on.
fn watching() -> VerifyBind {
    let (s, step) = verify_bind_or_err(addr(53), "192.0.2.1:53");
    assert_eq!(step, Step::Do(Op::CreateEpoll));
    let events = EPOLLIN | EPOLLOUT | EPOLLHUP | EPOLLRDHUP | EPOLLET;
    let s = go(s, Event::Code(3), Step::Do(Op::AddToEpoll { events }));
    let s = go(s, Event::Code(0), Step::Do(Op::ReadClock));
    go(s, Event::Clock(1000 * MS), Step::Do(Op::ReadClock))
}

const WAIT: Op = Op::WaitEpoll { max_events: 8, wait_ms: 30 };

/// A confirmation whose message queue brought an event at once.
fn confirming() -> VerifyBind {
    let s = go(watching(), Event::Clock(1000 * MS), Step::Do(WAIT));
    let s = go(s, Event::Code(1), Step::Do(Op::CloseEpoll));
    go(s, Event::Elapsed, Step::Do(Op::ConfirmAddr))
}

#[test]
fn a_bind_is_confirmed_as_soon_as_an_event_comes() {
    let s = confirming();
    let s = go(
        s,
        Event::Confirmed(Ok((addr(53), "192.0.2.1:53".to_owned()))),
        Step::Done(Ok(())),
    );
    go(s, Event::Elapsed, Step::Ignored);
}

#[test]
fn a_quiet_queue_is_drained_until_the_deadline() {
    let s = go(watching(), Event::Clock(1000 * MS), Step::Do(WAIT));
    let s = go(s, Event::Code(0), Step::Do(Op::ReadClock));
    let s = go(s, Event::Clock(1200 * MS - 1), Step::Do(WAIT));
    let s = go(s, Event::Code(-4), Step::Do(Op::ReadClock));
    let s = go(s, Event::Clock(1200 * MS), Step::Do(Op::CloseEpoll));
    let s = go(s, Event::Elapsed, Step::Do(Op::ConfirmAddr));
    let bound = Ok((addr(53), "192.0.2.1:53".to_owned()));
    go(s, Event::Confirmed(bound), Step::Done(Ok(())));
}

#[test]
fn a_rejected_bind_is_an_error() {
    let message = "VPP rejected bind on 192.0.2.1:53: Closed (port-in-use is the common \
                   cause; libvppcom logs the specific reason)";
    go(
        confirming(),
        Event::Confirmed(Err("Closed".to_owned())),
        Step::Done(Err(VclError::Api(message.to_owned(), -1))),
    );
}

#[test]
fn another_port_is_an_error() {
    let message = "VPP bound 192.0.2.1:54 but we asked for 192.0.2.1:53 (port mismatch — \
                   likely VPP picked a different port because the requested one was unavailable)";
    go(
        confirming(),
        Event::Confirmed(Ok((addr(54), "192.0.2.1:54".to_owned()))),
        Step::Done(Err(VclError::Api(message.to_owned(), -1))),
    );
}

#[test]
fn the_epoll_set_is_closed_when_the_session_cannot_be_watched() {
    let (s, _) = verify_bind_or_err(addr(53), "192.0.2.1:53");
    let (s, _) = s.step(Event::Code(3));
    let s = go(s, Event::Code(-22), Step::Do(Op::CloseEpoll));
    go(
        s,
        Event::Elapsed,
        Step::Done(Err(VclError::Api("vppcom_epoll_ctl ADD: -22".to_owned(), -22))),
    );
}

#[test]
fn no_epoll_set_is_an_error() {
    let (s, _) = verify_bind_or_err(addr(53), "192.0.2.1:53");
    go(
        s,
        Event::Code(-12),
        Step::Done(Err(VclError::Api("vppcom_epoll_create: -12".to_owned(), -12))),
    );
}

fn server(s: ServerBind, event: Event, want: Step<()>) -> ServerBind {
    let (s, step) = s.step(event);
    assert_eq!(step, want);
    s
}

/// Drives a server session from its opening to its registration.
fn open(s: ServerBind, backlog: u32) -> ServerBind {
    let s = server(s, Event::Unit(Ok(())), Step::Do(Op::Bind(addr(53))));
    let s = server(s, Event::Unit(Ok(())), Step::Do(Op::Listen { backlog }));
    let s = server(s, Event::Unit(Ok(())), Step::Do(Op::CreateEpoll));
    let (s, _) = s.step(Event::Code(3));
    let s = server(s, Event::Code(0), Step::Do(Op::ReadClock));
    let s = server(s, Event::Clock(0), Step::Do(Op::ReadClock));
    let s = server(s, Event::Clock(300 * MS), Step::Do(Op::CloseEpoll));
    let s = server(s, Event::Elapsed, Step::Do(Op::ConfirmAddr));
    let confirmed = Event::Confirmed(Ok((addr(53), "192.0.2.1:53".to_owned())));
    server(s, confirmed, Step::Do(Op::Register(Target::Own)))
}

#[test]
fn a_listener_is_confirmed_before_it_is_registered() {
    let (s, step) = VclListener::bind(addr(53), "192.0.2.1:53");
    assert_eq!(step, Step::Do(Op::Create { udp: false, nonblocking: true }));
    let s = open(s, 128);
    server(s, Event::Unit(Ok(())), Step::Done(Ok(())));
}

#[test]
fn a_datagram_socket_is_confirmed_before_it_is_registered() {
    let (s, step) = VclDgramSocket::bind(addr(53), "192.0.2.1:53");
    assert_eq!(step, Step::Do(Op::Create { udp: true, nonblocking: true }));
    let s = open(s, 0);
    server(
        s,
        Event::Unit(Err(VclError::Closed)),
        Step::Close(OWN, Err(VclError::Closed)),
    );
}

#[test]
fn an_unconfirmed_server_is_closed() {
    let (s, _) = VclListener::bind(addr(53), "192.0.2.1:53");
    let (s, _) = s.step(Event::Unit(Ok(())));
    let (s, _) = s.step(Event::Unit(Ok(())));
    let (s, _) = s.step(Event::Unit(Ok(())));
    let e = VclError::Api("vppcom_epoll_create: -12".to_owned(), -12);
    server(s, Event::Code(-12), Step::Close(OWN, Err(e)));
}

#[test]
fn the_first_failure_ends_the_opening() {
    let (s, _) = VclListener::bind(addr(53), "192.0.2.1:53");
    server(s, Event::Unit(Err(VclError::Timeout)), Step::Done(Err(VclError::Timeout)));
    let (s, _) = VclListener::bind(addr(53), "192.0.2.1:53");
    let (s, _) = s.step(Event::Unit(Ok(())));
    server(s, Event::Unit(Err(VclError::Closed)), Step::Close(OWN, Err(VclError::Closed)));
    let (s, _) = VclListener::bind(addr(53), "192.0.2.1:53");
    let (s, _) = s.step(Event::Unit(Ok(())));
    let (s, _) = s.step(Event::Unit(Ok(())));
    let s = server(s, Event::Clock(1), Step::Ignored);
    server(s, Event::Unit(Err(VclError::Closed)), Step::Close(OWN, Err(VclError::Closed)));
}
