//! VCL error types.

use vstd::prelude::*;

use crate::text::push_signed;
#[allow(unused_imports)]
use crate::text::signed_decimal;

verus! {

/// What kind of failure an [`IoError`] reports.
#[derive(Debug, Clone, Copy, PartialEq, Eq)]
pub enum IoErrorKind {
    /// The stream ended.
    UnexpectedEof,
    /// The operation would have to wait.
    WouldBlock,
    /// Anything else.
    Other,
    /// An error of the operating system, by its number.
    Os(i32),
}

/// An I/O error as plain values: its kind and its text.
///
/// The text is a `String` when the program runs and a `Seq<char>` in
/// contracts.
#[derive(Debug, PartialEq, Eq)]
pub struct IoError<S = String> {
    pub kind: IoErrorKind,
    pub message: S,
}

/// The failure of a VCL operation.
///
/// The text is a `String` when the program runs and a `Seq<char>` in
/// contracts.
#[derive(Debug, PartialEq, Eq)]
pub enum VclError<S = String> {
    /// A VCL call failed with this message and return code.
    Api(S, i32),
    /// The operating system refused an I/O operation.
    Io(IoError<S>),
    /// The peer closed or reset the session.
    Closed,
    /// The session's TCP handshake has not completed.
    NotConnected,
    /// The operation cannot proceed yet.
    WouldBlock,
    /// The time allowed for the operation has passed.
    Timeout,
}

/// The result of a VCL operation.
pub type Result<T> = std::result::Result<T, VclError>;

impl View for IoError {
    type V = IoError<Seq<char>>;

    open spec fn view(&self) -> IoError<Seq<char>> {
        IoError { kind: self.kind, message: self.message@ }
    }
}

impl View for VclError {
    type V = VclError<Seq<char>>;

    open spec fn view(&self) -> VclError<Seq<char>> {
        match *self {
            VclError::Api(message, rc) => VclError::Api(message@, rc),
            VclError::Io(e) => VclError::Io(e@),
            VclError::Closed => VclError::Closed,
            VclError::NotConnected => VclError::NotConnected,
            VclError::WouldBlock => VclError::WouldBlock,
            VclError::Timeout => VclError::Timeout,
        }
    }
}

/// The failure that the crate itself finds, with no return code of VCL behind
/// it.
pub open spec fn failure(message: Seq<char>) -> VclError<Seq<char>> {
    VclError::Api(message, (-1) as i32)
}

/// The failure of a call that returned `rc`, told by the name of the call.
pub open spec fn call_failure(call: Seq<char>, rc: i32) -> VclError<Seq<char>> {
    VclError::Api(call + signed_decimal(rc as int), rc)
}

/// The numbers by which the host's C library reports the conditions that
/// [`VclError::from_rc`] tells apart.
#[derive(Debug, Clone, Copy, PartialEq, Eq)]
pub struct ErrnoCodes {
    pub would_block: i32,
    pub again: i32,
    pub in_progress: i32,
    pub not_connected: i32,
    pub connection_reset: i32,
    pub broken_pipe: i32,
}

impl ErrnoCodes {
    /// The codes of the transient conditions.
    pub open spec fn is_transient(self, code: int) -> bool {
        code == self.would_block || code == self.again || code == self.in_progress
    }

    /// The three conditions that callers tell apart have codes of their own:
    /// "try again", "handshake unfinished" and "gone" never coincide.
    pub open spec fn distinct(self) -> bool {
        &&& !self.is_transient(self.not_connected as int)
        &&& !self.is_transient(self.connection_reset as int)
        &&& !self.is_transient(self.broken_pipe as int)
        &&& self.not_connected != self.connection_reset
        &&& self.not_connected != self.broken_pipe
    }
}

/// The constants `EWOULDBLOCK`, `EAGAIN`, `EINPROGRESS`, `ENOTCONN`,
/// `ECONNRESET` and `EPIPE` of the `libc` crate for the host.
///
/// Their numbers differ from platform to platform, so nothing is claimed of
/// them but that the conditions they stand for have separate numbers.
#[verifier::external_body]
pub(crate) fn host_errnos() -> (codes: ErrnoCodes)
    ensures
        codes.distinct(),
{
    ErrnoCodes {
        would_block: libc::EWOULDBLOCK,
        again: libc::EAGAIN,
        in_progress: libc::EINPROGRESS,
        not_connected: libc::ENOTCONN,
        connection_reset: libc::ECONNRESET,
        broken_pipe: libc::EPIPE,
    }
}

/// The message for a return code: the text that VCL knows for it, or a text
/// that names the code.
pub open spec fn retval_text(rc: i32, known: Option<Seq<char>>) -> Seq<char> {
    match known {
        Some(text) => text,
        None => "unknown error "@ + signed_decimal(rc as int),
    }
}

/// The error that a negative return code stands for.
pub open spec fn classify(codes: ErrnoCodes, rc: i32, known: Option<Seq<char>>) -> VclError<
    Seq<char>,
> {
    if codes.is_transient(-rc) {
        VclError::WouldBlock
    } else if -rc == codes.not_connected {
        VclError::NotConnected
    } else if -rc == codes.connection_reset || -rc == codes.broken_pipe {
        VclError::Closed
    } else {
        VclError::Api(retval_text(rc, known), rc)
    }
}

/// `e` is what `rc` stands for under some assignment of numbers that keeps the
/// conditions apart.
pub open spec fn classified(rc: i32, known: Option<Seq<char>>, e: VclError<Seq<char>>) -> bool {
    exists|codes: ErrnoCodes|
        #![trigger codes.distinct()]
        codes.distinct() && e == classify(codes, rc, known)
}

/// The view of an optional text.
pub open spec fn text_view(text: Option<&str>) -> Option<Seq<char>> {
    match text {
        Some(t) => Some(t@),
        None => None,
    }
}

/// The one-line description of an error.
pub open spec fn display(e: VclError<Seq<char>>) -> Seq<char> {
    match e {
        VclError::Api(message, rc) => "VCL call failed: "@ + message + " (rc="@ + signed_decimal(
            rc as int,
        ) + ")"@,
        VclError::Io(io) => "I/O error: "@ + io.message,
        VclError::Closed => "session closed"@,
        VclError::NotConnected => "not connected"@,
        VclError::WouldBlock => "would block"@,
        VclError::Timeout => "timed out"@,
    }
}

/// The I/O error that a VCL error becomes.
pub open spec fn io_view(e: VclError<Seq<char>>) -> IoError<Seq<char>> {
    match e {
        VclError::Closed => IoError {
            kind: IoErrorKind::UnexpectedEof,
            message: "VCL session closed"@,
        },
        VclError::WouldBlock => IoError {
            kind: IoErrorKind::WouldBlock,
            message: "VCL would block"@,
        },
        other => IoError { kind: IoErrorKind::Other, message: display(other) },
    }
}

/// The message for return code `rc`, where `known` is the text that
/// `vppcom_retval_str` gave for it, if it gave one.
pub fn vcl_retval_str(rc: i32, known: Option<&str>) -> (message: String)
    ensures
        message@ == retval_text(rc, text_view(known)),
{
    match known {
        Some(text) => text.to_owned(),
        None => {
            let mut message: String = "unknown error ".to_owned();
            push_signed(&mut message, rc);
            message
        },
    }
}

impl VclError {
    /// A failure that the crate itself found, with no return code of VCL behind
    /// it.
    pub fn failure(message: &str) -> (e: VclError)
        ensures
            e@ == failure(message@),
    {
        VclError::Api(message.to_owned(), -1)
    }

    /// The failure of a call that returned `rc`, told by the name of the call.
    pub fn call_failure(call: &str, rc: i32) -> (e: VclError)
        ensures
            e@ == call_failure(call@, rc),
    {
        let mut message: String = call.to_owned();
        push_signed(&mut message, rc);
        VclError::Api(message, rc)
    }

    /// The error for return code `rc` on a host whose error numbers are
    /// `codes`.
    ///
    /// `ENOTCONN` is distinct from [`VclError::Closed`]: VPP returns it on a
    /// TCP session whose handshake has not completed yet, and a caller that
    /// polls treats it like [`VclError::WouldBlock`].
    pub fn from_rc_with(rc: i32, codes: &ErrnoCodes, known: Option<&str>) -> (e: VclError)
        ensures
            e@ == classify(*codes, rc, text_view(known)),
    {
        let errno: i64 = -(rc as i64);
        if errno == codes.would_block as i64 || errno == codes.again as i64 || errno
            == codes.in_progress as i64 {
            return VclError::WouldBlock;
        }
        if errno == codes.not_connected as i64 {
            return VclError::NotConnected;
        }
        if errno == codes.connection_reset as i64 || errno == codes.broken_pipe as i64 {
            return VclError::Closed;
        }
        VclError::Api(vcl_retval_str(rc, known), rc)
    }

    /// The error for return code `rc` on this host.
    ///
    /// The error numbers are those of the host's C library, which the contract
    /// leaves open; [`VclError::from_rc_with`] says what is returned for each
    /// choice of them.
    pub fn from_rc(rc: i32, known: Option<&str>) -> (e: VclError)
        ensures
            classified(rc, text_view(known), e@),
    {
        let codes = host_errnos();
        VclError::from_rc_with(rc, &codes, known)
    }

    /// The one-line description of the error.
    pub fn to_string(&self) -> (s: String)
        ensures
            s@ == display(self@),
    {
        match self {
            VclError::Api(message, rc) => {
                let mut s: String = "VCL call failed: ".to_owned();
                s.append(message.as_str());
                s.append(" (rc=");
                push_signed(&mut s, *rc);
                s.append(")");
                s
            },
            VclError::Io(e) => {
                let mut s: String = "I/O error: ".to_owned();
                s.append(e.message.as_str());
                s
            },
            VclError::Closed => "session closed".to_owned(),
            VclError::NotConnected => "not connected".to_owned(),
            VclError::WouldBlock => "would block".to_owned(),
            VclError::Timeout => "timed out".to_owned(),
        }
    }
}

/// Converts a VCL error to an I/O error.
///
/// The return code is lost. `Closed` becomes the end-of-file kind, as the
/// readers of byte streams expect.
pub fn vcl_to_io(e: VclError) -> (io: IoError)
    ensures
        io@ == io_view(e@),
{
    match e {
        VclError::Closed => IoError {
            kind: IoErrorKind::UnexpectedEof,
            message: "VCL session closed".to_owned(),
        },
        VclError::WouldBlock => IoError {
            kind: IoErrorKind::WouldBlock,
            message: "VCL would block".to_owned(),
        },
        other => IoError { kind: IoErrorKind::Other, message: other.to_string() },
    }
}

/// A handshake that has not completed is never reported as a closed session,
/// nor a closed session as a transient condition: each condition is reported as
/// itself, whatever numbers the host gives them.
pub proof fn conditions_are_told_apart(codes: ErrnoCodes, rc: i32, known: Option<Seq<char>>)
    requires
        codes.distinct(),
    ensures
        classify(codes, rc, known) == VclError::<Seq<char>>::WouldBlock <==> codes.is_transient(
            -rc,
        ),
        classify(codes, rc, known) == VclError::<Seq<char>>::NotConnected <==> -rc
            == codes.not_connected,
        classify(codes, rc, known) == VclError::<Seq<char>>::Closed <==> (-rc
            == codes.connection_reset || -rc == codes.broken_pipe),
        classify(codes, rc, known) is Api <==> !codes.is_transient(-rc) && -rc
            != codes.not_connected && -rc != codes.connection_reset && -rc != codes.broken_pipe,
{
}

/// An error that is none of the conditions keeps its return code and the text that VCL
/// knows for it; without one, the text names the code.
pub proof fn api_errors_keep_code_and_text(
    codes: ErrnoCodes,
    rc: i32,
    known: Option<Seq<char>>,
    message: Seq<char>,
    code: i32,
)
    requires
        classify(codes, rc, known) == VclError::<Seq<char>>::Api(message, code),
    ensures
        code == rc,
        known matches Some(text) ==> message == text,
        known is None ==> message == "unknown error "@ + signed_decimal(rc as int),
{
}

/// No return code becomes a timeout or an I/O error, and every error is what some
/// numbering of the conditions makes of the code.
pub proof fn return_codes_are_no_timeouts(
    rc: i32,
    known: Option<Seq<char>>,
    e: VclError<Seq<char>>,
)
    requires
        classified(rc, known, e),
    ensures
        !(e is Timeout) && !(e is Io),
        e matches VclError::Api(_, code) ==> code == rc,
        (e is Api && known is Some) ==> e == VclError::Api(known->Some_0, rc),
{
}

/// A failure that the crate itself finds tells its message, and has -1 for a code; the
/// failure of a call tells the call, and has the call's code for a code.
pub proof fn failures_tell_what_failed(message: Seq<char>, rc: i32)
    ensures
        failure(message) matches VclError::Api(m, code) && m == message && code == -1,
        call_failure(message, rc) matches VclError::Api(m, code) && code == rc && m == message
            + signed_decimal(rc as int),
{
}

/// A description is told apart by its variant, and holds the message of the error.
pub proof fn descriptions_hold_the_message(message: Seq<char>, rc: i32, io: IoError<Seq<char>>)
    ensures
        ({
            let text = display(VclError::Api(message, rc));
            let start = "VCL call failed: "@.len() as int;
            &&& text.subrange(start, start + message.len()) == message
            &&& text.take(start) == "VCL call failed: "@
            &&& text.skip(start + message.len()) == " (rc="@ + signed_decimal(rc as int) + ")"@
        }),
        display(VclError::Io(io)).skip("I/O error: "@.len() as int) == io.message,
        display(VclError::Io(io)).take("I/O error: "@.len() as int) == "I/O error: "@,
        display(VclError::Closed) == "session closed"@,
        display(VclError::NotConnected) == "not connected"@,
        display(VclError::WouldBlock) == "would block"@,
        display(VclError::Timeout) == "timed out"@,
{
    let text = display(VclError::Api(message, rc));
    let start = "VCL call failed: "@.len() as int;
    assert(text.subrange(start, start + message.len()) =~= message);
    assert(text.take(start) =~= "VCL call failed: "@);
    assert(text.skip(start + message.len()) =~= " (rc="@ + signed_decimal(rc as int) + ")"@);
    assert(display(VclError::Io(io)).skip("I/O error: "@.len() as int) =~= io.message);
    assert(display(VclError::Io(io)).take("I/O error: "@.len() as int) =~= "I/O error: "@);
}

/// As an I/O error a closed session is the end of the file, a call that would block is
/// that, and any other error is described.
pub proof fn io_errors_tell_the_condition(e: VclError<Seq<char>>)
    ensures
        io_view(e).kind == IoErrorKind::UnexpectedEof <==> e is Closed,
        io_view(e).kind == IoErrorKind::WouldBlock <==> e is WouldBlock,
        io_view(e).kind == IoErrorKind::Other <==> !(e is Closed) && !(e is WouldBlock),
        !(e is Closed) && !(e is WouldBlock) ==> io_view(e).message == display(e),
        e is Closed ==> io_view(e).message == "VCL session closed"@,
        e is WouldBlock ==> io_view(e).message == "VCL would block"@,
{
}

/// Contracts see an error as it is: its condition, its text and its code.
pub proof fn errors_are_seen_as_they_are(e: VclError)
    ensures
        e is Closed <==> e@ is Closed,
        e is NotConnected <==> e@ is NotConnected,
        e is WouldBlock <==> e@ is WouldBlock,
        e is Timeout <==> e@ is Timeout,
        e matches VclError::Api(message, rc) ==> e@ == VclError::Api(message@, rc),
        e matches VclError::Io(io) ==> (e@ matches VclError::Io(seen) && seen.kind == io.kind
            && seen.message == io.message@),
{
}

/// A return code tells its condition by the numbers of the host: three of them mean that
/// the call would block, one that the session is not connected, two that it is gone, and
/// every other code is reported as it is.
pub proof fn return_codes_tell_their_condition(
    codes: ErrnoCodes,
    rc: i32,
    known: Option<Seq<char>>,
)
    ensures
        ({
            let e = classify(codes, rc, known);
            let blocks = -rc == codes.would_block || -rc == codes.again || -rc
                == codes.in_progress;
            let gone = -rc == codes.connection_reset || -rc == codes.broken_pipe;
            &&& e is WouldBlock <==> blocks
            &&& e is NotConnected <==> !blocks && -rc == codes.not_connected
            &&& e is Closed <==> !blocks && -rc != codes.not_connected && gone
            &&& !blocks && -rc != codes.not_connected && !gone ==> (e matches VclError::Api(_, code)
                && code == rc)
        }),
{
}

/// The numbers of a host keep the conditions apart exactly where no number that means one
/// of them means another.
pub proof fn distinct_codes_keep_conditions_apart(codes: ErrnoCodes)
    ensures
        codes.distinct() <==> {
            &&& codes.not_connected != codes.would_block && codes.not_connected != codes.again
                && codes.not_connected != codes.in_progress
            &&& codes.connection_reset != codes.would_block && codes.connection_reset
                != codes.again && codes.connection_reset != codes.in_progress
            &&& codes.broken_pipe != codes.would_block && codes.broken_pipe != codes.again
                && codes.broken_pipe != codes.in_progress
            &&& codes.not_connected != codes.connection_reset && codes.not_connected
                != codes.broken_pipe
        },
{
}

} // verus!
