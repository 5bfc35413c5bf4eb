use vcl_rs::error::{ErrnoCodes, IoError, IoErrorKind, VclError};
use vcl_rs::poll::{
    poll_shutdown, poll_shutdown_with, PollOp, PollRead, PollStep, PollWrite, Polled,
};

const ARM: PollOp = PollOp::Arm { timeout: 300_000_000_000 };

fn go(s: PollRead, event: Polled, want: PollStep<()>) -> PollRead {
    let (s, step) = s.step(event);
    assert_eq!(step, want);
    s
}

fn poll(s: PollRead, len: usize, want: PollStep<()>) -> PollRead {
    let (s, step) = s.poll_read(len);
    assert_eq!(step, want);
    s
}

fn timed_out() -> IoError {
    IoError { kind: IoErrorKind::Other, message: "timed out".to_owned() }
}

#[test]
fn a_full_buffer_is_ready() {
    let s = poll(PollRead::new(), 8, PollStep::Do(PollOp::Read { from: 0 }));
    let s = go(s, Polled::Count(Ok(3)), PollStep::Do(PollOp::Read { from: 3 }));
    let s = go(s, Polled::Count(Ok(5)), PollStep::Ready(Ok(())));
    assert_eq!((s.filled, s.armed), (8, false));
}

#[test]
fn a_drained_session_with_bytes_is_ready() {
    let s = poll(PollRead::new(), 8, PollStep::Do(PollOp::Read { from: 0 }));
    let s = go(s, Polled::Count(Ok(3)), PollStep::Do(PollOp::Read { from: 3 }));
    let s = go(s, Polled::Count(Err(VclError::WouldBlock)), PollStep::Ready(Ok(())));
    assert_eq!((s.filled, s.armed), (3, false));
    // The next poll finds the session empty and arms.
    let s = poll(s, 8, PollStep::Do(PollOp::Read { from: 0 }));
    let s = go(s, Polled::Count(Err(VclError::WouldBlock)), PollStep::Do(ARM));
    let s = go(s, Polled::Pending, PollStep::Pending);
    assert!(s.armed);
}

#[test]
fn a_pending_wait_is_polled_first() {
    let s = poll(PollRead::new(), 8, PollStep::Do(PollOp::Read { from: 0 }));
    let s = go(s, Polled::Count(Err(VclError::WouldBlock)), PollStep::Do(ARM));
    let s = go(s, Polled::Pending, PollStep::Pending);
    let s = poll(s, 4, PollStep::Do(PollOp::PollWait));
    let s = go(s, Polled::Pending, PollStep::Pending);
    let s = poll(s, 4, PollStep::Do(PollOp::PollWait));
    let s = go(s, Polled::Waited(Ok(())), PollStep::Do(PollOp::Read { from: 0 }));
    assert!(!s.armed);
    let s = go(s, Polled::Count(Ok(4)), PollStep::Ready(Ok(())));
    assert_eq!((s.filled, s.armed), (4, false));
}

#[test]
fn the_end_is_success_with_nothing_read() {
    let s = poll(PollRead::new(), 8, PollStep::Do(PollOp::Read { from: 0 }));
    let s = go(s, Polled::Count(Ok(0)), PollStep::Ready(Ok(())));
    assert_eq!(s.filled, 0);
    let s = poll(s, 8, PollStep::Do(PollOp::Read { from: 0 }));
    let s = go(s, Polled::Count(Err(VclError::Closed)), PollStep::Ready(Ok(())));
    assert_eq!(s.filled, 0);
}

#[test]
fn an_empty_buffer_is_ready_at_once() {
    poll(PollRead::new(), 0, PollStep::Ready(Ok(())));
}

#[test]
fn read_failures_become_io_errors() {
    let s = poll(PollRead::new(), 8, PollStep::Do(PollOp::Read { from: 0 }));
    go(s, Polled::Count(Err(VclError::Timeout)), PollStep::Ready(Err(timed_out())));
    let s = go(s, Polled::Count(Err(VclError::WouldBlock)), PollStep::Do(ARM));
    let s = go(s, Polled::Waited(Err(VclError::Timeout)), PollStep::Ready(Err(timed_out())));
    assert!(!s.armed);
    go(s, Polled::Pending, PollStep::Ignored);
}

#[test]
fn a_write_waits_for_space() {
    let (s, step) = PollWrite::new().poll_write();
    assert_eq!(step, PollStep::Do(PollOp::Write));
    let (s, step) = s.step(Polled::Count(Err(VclError::WouldBlock)));
    assert_eq!(step, PollStep::Do(ARM));
    let (s, step) = s.step(Polled::Pending);
    assert_eq!(step, PollStep::Pending);
    assert!(s.armed);
    let (s, step) = s.poll_write();
    assert_eq!(step, PollStep::Do(PollOp::PollWait));
    let (s, step) = s.step(Polled::Waited(Ok(())));
    assert_eq!(step, PollStep::Do(PollOp::Write));
    let (s, step) = s.step(Polled::Count(Ok(11)));
    assert_eq!(step, PollStep::Ready(Ok(11)));
    assert!(!s.armed);
}

#[test]
fn write_failures_become_io_errors() {
    let (s, _) = PollWrite::new().poll_write();
    let (_, step) = s.step(Polled::Count(Err(VclError::Closed)));
    let closed =
        IoError { kind: IoErrorKind::UnexpectedEof, message: "VCL session closed".to_owned() };
    assert_eq!(step, PollStep::Ready(Err(closed)));
    let (s, _) = s.step(Polled::Count(Err(VclError::WouldBlock)));
    let (s, step) = s.step(Polled::Waited(Err(VclError::Timeout)));
    assert_eq!(step, PollStep::Ready(Err(timed_out())));
    assert!(!s.armed);
    assert_eq!(s.step(Polled::Pending).1, PollStep::Ignored);
}

#[test]
fn a_shutdown_reports_its_code() {
    assert_eq!(poll_shutdown(0, None), Ok(()));
    assert_eq!(poll_shutdown(2, None), Ok(()));
    let e = poll_shutdown(-77, Some("EBADFD")).unwrap_err();
    assert_eq!(e.kind, IoErrorKind::Other);
    assert_eq!(e.message, "VCL call failed: EBADFD (rc=-77)");
    let e = poll_shutdown(-libc::EPIPE, None).unwrap_err();
    assert_eq!(e.kind, IoErrorKind::UnexpectedEof);
}

#[test]
fn a_shutdown_goes_by_given_numbers() {
    let codes = ErrnoCodes {
        would_block: 1,
        again: 2,
        in_progress: 3,
        not_connected: 4,
        connection_reset: 5,
        broken_pipe: 6,
    };
    assert_eq!(poll_shutdown_with(0, &codes, None), Ok(()));
    assert_eq!(
        poll_shutdown_with(-5, &codes, None).unwrap_err().kind,
        IoErrorKind::UnexpectedEof
    );
    assert_eq!(poll_shutdown_with(-2, &codes, None).unwrap_err().kind, IoErrorKind::WouldBlock);
    assert_eq!(poll_shutdown_with(-4, &codes, None).unwrap_err().message, "not connected");
}
