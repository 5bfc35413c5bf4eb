use vcl_rs::addr::{IpAddr, SocketAddr};
use vcl_rs::dgram::EphemeralBind;
use vcl_rs::ephemeral::{ephemeral_port, ephemeral_ports};
use vcl_rs::error::VclError;
use vcl_rs::ops::{Event, Op, Step};
use vcl_rs::VclDgramSocket;

fn addr(port: u16) -> SocketAddr {
    SocketAddr::new(IpAddr::V4([0, 0, 0, 0]), port)
}

#[test]
fn ports_are_ephemeral() {
    let mut drawn: Vec<u16> = vec![];
    for _ in 0..64 {
        let port = ephemeral_port();
        assert!((32768..=60999).contains(&port));
        drawn.push(port);
    }
    for port in ephemeral_ports() {
        assert!((32768..=60999).contains(&port));
        drawn.push(port);
    }
    drawn.sort();
    drawn.dedup();
    assert!(drawn.len() > 1, "ports are drawn at random");
}

#[test]
fn the_drawn_port_of_the_wildcard_is_bound() {
    for v6 in [false, true] {
        let (s, step) = EphemeralBind::start(v6);
        assert_eq!(step, Step::Do(Op::PickPort));
        let (s, step) = s.step(Event::Port(40000));
        let want = SocketAddr::new(IpAddr::wildcard(v6), 40000);
        assert_eq!(step, Step::Do(Op::BindDgram(want)));
        let (s, step) = s.step(Event::Unit(Ok(())));
        assert_eq!(step, Step::Done(Ok(())));
        assert_eq!(s.step(Event::Port(1)).1, Step::Ignored);
    }
}

/// The address that a step binds.
fn bound(step: &Step<()>) -> SocketAddr {
    match step {
        Step::Do(Op::BindDgram(addr)) => *addr,
        other => panic!("{other:?}"),
    }
}

#[test]
fn a_v4_bind_takes_an_ephemeral_port() {
    let (s, step) = VclDgramSocket::bind_ephemeral_v4();
    assert_eq!(bound(&step).ip, IpAddr::V4([0, 0, 0, 0]));
    assert!((32768..=60999).contains(&bound(&step).port));
    assert_eq!(s.advance(Event::Unit(Ok(()))).1, Step::Done(Ok(())));
}

#[test]
fn a_v6_bind_takes_an_ephemeral_port() {
    let (s, step) = VclDgramSocket::bind_ephemeral_v6();
    assert_eq!(bound(&step).ip, IpAddr::V6([0; 16]));
    assert!((32768..=60999).contains(&bound(&step).port));
    assert_eq!(s.advance(Event::Unit(Ok(()))).1, Step::Done(Ok(())));
}

#[test]
fn eight_refusals_exhaust_the_ports() {
    let (mut s, mut step) = VclDgramSocket::bind_ephemeral_v6();
    for attempt in 1..=8 {
        assert_eq!(bound(&step).ip, IpAddr::V6([0; 16]));
        assert!((32768..=60999).contains(&bound(&step).port));
        let refusal = VclError::Api(format!("refused {attempt}"), -98);
        (s, step) = s.advance(Event::Unit(Err(refusal)));
    }
    assert_eq!(step, Step::Done(Err(VclError::Api("refused 8".to_owned(), -98))));
}

#[test]
fn a_quiet_receiver_waits_again() {
    let (s, step) = VclDgramSocket::recv_from();
    assert_eq!(step, Step::Do(Op::ReceiveInto));
    let (s, step) = s.step(Event::Arrived(Err(VclError::WouldBlock)));
    assert_eq!(step, Step::Do(Op::WaitReadable { timeout: 300_000_000_000 }));
    let (s, step) = s.step(Event::Unit(Err(VclError::Timeout)));
    assert_eq!(step, Step::Do(Op::ReceiveInto));
    let (s, step) = s.step(Event::Arrived(Err(VclError::WouldBlock)));
    assert!(matches!(step, Step::Do(Op::WaitReadable { .. })));
    let (s, step) = s.step(Event::Unit(Ok(())));
    assert_eq!(step, Step::Do(Op::ReceiveInto));
    let (_, step) = s.step(Event::Arrived(Ok((12, addr(53)))));
    assert_eq!(step, Step::Done(Ok((12, addr(53)))));
}

#[test]
fn a_receiver_reports_other_failures() {
    let (s, _) = VclDgramSocket::recv_from();
    let (_, step) = s.step(Event::Arrived(Err(VclError::Closed)));
    assert_eq!(step, Step::Done(Err(VclError::Closed)));
    let (s, _) = VclDgramSocket::recv_from();
    let (s, _) = s.step(Event::Arrived(Err(VclError::WouldBlock)));
    let (_, step) = s.step(Event::Unit(Err(VclError::Closed)));
    assert_eq!(step, Step::Done(Err(VclError::Closed)));
}

#[test]
fn a_sender_waits_for_space_and_times_out() {
    let (s, step) = VclDgramSocket::send_to(addr(53));
    assert_eq!(step, Step::Do(Op::SendBuffer(addr(53))));
    let (s, step) = s.step(Event::Count(Err(VclError::WouldBlock)));
    assert_eq!(step, Step::Do(Op::WaitWritable { timeout: 30_000_000_000 }));
    let (s, step) = s.step(Event::Unit(Ok(())));
    assert_eq!(step, Step::Do(Op::SendBuffer(addr(53))));
    let (_, step) = s.step(Event::Count(Ok(17)));
    assert_eq!(step, Step::Done(Ok(17)));
    let (s, _) = VclDgramSocket::send_to(addr(53));
    let (s, _) = s.step(Event::Count(Err(VclError::WouldBlock)));
    let (_, step) = s.step(Event::Unit(Err(VclError::Timeout)));
    assert_eq!(step, Step::Done(Err(VclError::Timeout)));
}

#[test]
fn a_local_address_is_optional() {
    assert_eq!(VclDgramSocket::local_addr(Ok(addr(53))), Some(addr(53)));
    assert_eq!(VclDgramSocket::local_addr(Err(VclError::Closed)), None);
}
