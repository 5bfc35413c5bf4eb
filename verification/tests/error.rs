use vcl_rs::error::{vcl_retval_str, vcl_to_io, ErrnoCodes, IoError, IoErrorKind, VclError};
use vcl_rs::text::{push_decimal, push_signed};

const LINUX: ErrnoCodes = ErrnoCodes {
    would_block: 11,
    again: 11,
    in_progress: 115,
    not_connected: 107,
    connection_reset: 104,
    broken_pipe: 32,
};

/// Codes of another platform, where the three transient conditions differ.
const OTHER: ErrnoCodes = ErrnoCodes {
    would_block: 1,
    again: 2,
    in_progress: 3,
    not_connected: 4,
    connection_reset: 5,
    broken_pipe: 6,
};

#[test]
fn host_codes_are_classified() {
    assert_eq!(VclError::from_rc(-libc::EAGAIN, None), VclError::WouldBlock);
    assert_eq!(VclError::from_rc(-libc::EWOULDBLOCK, None), VclError::WouldBlock);
    assert_eq!(VclError::from_rc(-libc::EINPROGRESS, None), VclError::WouldBlock);
    assert_eq!(VclError::from_rc(-libc::ENOTCONN, None), VclError::NotConnected);
    assert_eq!(VclError::from_rc(-libc::ECONNRESET, None), VclError::Closed);
    assert_eq!(VclError::from_rc(-libc::EPIPE, None), VclError::Closed);
    assert_eq!(
        VclError::from_rc(-libc::ENOMEM, Some("VPPCOM_ENOMEM")),
        VclError::Api("VPPCOM_ENOMEM".to_owned(), -libc::ENOMEM)
    );
}

#[test]
fn given_codes_are_classified() {
    for (rc, want) in [
        (-11, VclError::WouldBlock),
        (-115, VclError::WouldBlock),
        (-107, VclError::NotConnected),
        (-104, VclError::Closed),
        (-32, VclError::Closed),
        (-77, VclError::Api("unknown error -77".to_owned(), -77)),
        (i32::MIN, VclError::Api("unknown error -2147483648".to_owned(), i32::MIN)),
    ] {
        assert_eq!(VclError::from_rc_with(rc, &LINUX, None), want);
    }
}

#[test]
fn conditions_stay_apart_on_any_host() {
    for rc in [-1, -2, -3] {
        assert_eq!(VclError::from_rc_with(rc, &OTHER, None), VclError::WouldBlock);
    }
    assert_eq!(VclError::from_rc_with(-4, &OTHER, None), VclError::NotConnected);
    assert_eq!(VclError::from_rc_with(-5, &OTHER, None), VclError::Closed);
    assert_eq!(VclError::from_rc_with(-6, &OTHER, None), VclError::Closed);
    assert_eq!(
        VclError::from_rc_with(-11, &OTHER, Some("eleven")),
        VclError::Api("eleven".to_owned(), -11)
    );
}

#[test]
fn unknown_codes_are_named() {
    assert_eq!(vcl_retval_str(-5, None), "unknown error -5");
    assert_eq!(vcl_retval_str(12, None), "unknown error 12");
    assert_eq!(vcl_retval_str(-5, Some("")), "");
    assert_eq!(vcl_retval_str(-5, Some("bad file descriptor")), "bad file descriptor");
}

#[test]
fn failures_found_here_have_no_code() {
    assert_eq!(VclError::failure("no"), VclError::Api("no".to_owned(), -1));
    assert_eq!(
        VclError::call_failure("vppcom_epoll_create: ", -12),
        VclError::Api("vppcom_epoll_create: -12".to_owned(), -12)
    );
}

#[test]
fn errors_describe_themselves() {
    assert_eq!(
        VclError::Api("bind refused".to_owned(), -98).to_string(),
        "VCL call failed: bind refused (rc=-98)"
    );
    let io = IoError { kind: IoErrorKind::Os(5), message: "device gone".to_owned() };
    assert_eq!(VclError::Io(io).to_string(), "I/O error: device gone");
    assert_eq!(VclError::<String>::Closed.to_string(), "session closed");
    assert_eq!(VclError::<String>::NotConnected.to_string(), "not connected");
    assert_eq!(VclError::<String>::WouldBlock.to_string(), "would block");
    assert_eq!(VclError::<String>::Timeout.to_string(), "timed out");
}

#[test]
fn errors_become_io_errors() {
    let io = vcl_to_io(VclError::Closed);
    assert_eq!((io.kind, io.message.as_str()), (IoErrorKind::UnexpectedEof, "VCL session closed"));
    let io = vcl_to_io(VclError::WouldBlock);
    assert_eq!((io.kind, io.message.as_str()), (IoErrorKind::WouldBlock, "VCL would block"));
    let io = vcl_to_io(VclError::Timeout);
    assert_eq!((io.kind, io.message.as_str()), (IoErrorKind::Other, "timed out"));
    let io = vcl_to_io(VclError::Api("x".to_owned(), -3));
    assert_eq!((io.kind, io.message.as_str()), (IoErrorKind::Other, "VCL call failed: x (rc=-3)"));
}

#[test]
fn numbers_are_written_in_decimal() {
    for n in [0u64, 7, 10, 65535, u64::MAX] {
        let mut s = "n=".to_owned();
        push_decimal(&mut s, n);
        assert_eq!(s, format!("n={n}"));
    }
    for n in [0i32, -1, 42, i32::MAX, i32::MIN] {
        let mut s = String::new();
        push_signed(&mut s, n);
        assert_eq!(s, format!("{n}"));
    }
}
