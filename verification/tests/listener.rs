use vcl_rs::addr::{IpAddr, SocketAddr};
use vcl_rs::error::VclError;
use vcl_rs::ops::{Close, Event, Op, Step, Target};
use vcl_rs::session::SessionHandle;
use vcl_rs::VclListener;

fn peer() -> SocketAddr {
    SocketAddr::new(IpAddr::V4([198, 51, 100, 4]), 4711)
}

#[test]
fn an_idle_listener_waits_again() {
    let (s, step) = VclListener::accept();
    assert_eq!(step, Step::Do(Op::Accept));
    let (s, step) = s.step(Event::Accepted(Err(VclError::WouldBlock)));
    assert_eq!(step, Step::Do(Op::WaitReadable { timeout: 300_000_000_000 }));
    let (s, step) = s.step(Event::Unit(Err(VclError::Timeout)));
    assert_eq!(step, Step::Do(Op::Accept));
    let (s, _) = s.step(Event::Accepted(Err(VclError::WouldBlock)));
    let (_, step) = s.step(Event::Unit(Err(VclError::Closed)));
    assert_eq!(step, Step::Done(Err(VclError::Closed)));
}

#[test]
fn an_accepted_session_is_made_ready() {
    let (s, _) = VclListener::accept();
    let (s, step) = s.step(Event::Accepted(Ok((SessionHandle(9), peer()))));
    assert_eq!(step, Step::Do(Op::SetNonblocking(Target::Accepted(SessionHandle(9)))));
    let (s, step) = s.step(Event::Unit(Ok(())));
    assert_eq!(step, Step::Do(Op::Register(Target::Accepted(SessionHandle(9)))));
    let (s, step) = s.step(Event::Unit(Ok(())));
    assert_eq!(step, Step::Do(Op::SetNodelay(Target::Accepted(SessionHandle(9)))));
    let (_, step) = s.step(Event::Elapsed);
    assert_eq!(step, Step::Done(Ok((SessionHandle(9), peer()))));
}

#[test]
fn a_session_that_cannot_be_made_ready_is_closed() {
    let accepted = Close::Session(Target::Accepted(SessionHandle(9)));
    let (s, _) = VclListener::accept();
    let (s, _) = s.step(Event::Accepted(Ok((SessionHandle(9), peer()))));
    let (_, step) = s.step(Event::Unit(Err(VclError::Closed)));
    assert_eq!(step, Step::Close(accepted, Err(VclError::Closed)));
    let (s, _) = VclListener::accept();
    let (s, _) = s.step(Event::Accepted(Ok((SessionHandle(9), peer()))));
    let (s, _) = s.step(Event::Unit(Ok(())));
    let (_, step) = s.step(Event::Unit(Err(VclError::Closed)));
    assert_eq!(step, Step::Close(accepted, Err(VclError::Closed)));
}

#[test]
fn a_failed_accept_is_reported() {
    let (s, _) = VclListener::accept();
    let (s, step) = s.step(Event::Unit(Ok(())));
    assert_eq!(step, Step::Ignored);
    let (_, step) = s.step(Event::Accepted(Err(VclError::NotConnected)));
    assert_eq!(step, Step::Done(Err(VclError::NotConnected)));
    assert_eq!(VclListener::local_addr(Ok(peer())), Some(peer()));
    assert_eq!(VclListener::local_addr(Err(VclError::Closed)), None);
}
