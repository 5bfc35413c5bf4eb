//! The vocabulary in which the operations of this crate talk to the code that
//! performs calls, waits and reads the clock for them.
//!
//! An operation is a value. It says what to do next as a [`Step`]; whoever
//! drives it does that and hands what came of it back as an [`Event`].

use vstd::prelude::*;

use crate::addr::SocketAddr;
use crate::error::VclError;
use crate::session::SessionHandle;

verus! {

/// The session that a step is about.
#[derive(Debug, Clone, Copy, PartialEq, Eq)]
pub enum Target {
    /// The session that the operation opened.
    Own,
    /// A session that the operation accepted.
    Accepted(SessionHandle),
}

/// What an operation closes as it ends.
#[derive(Debug, Clone, Copy, PartialEq, Eq)]
pub enum Close {
    /// The session: see [`crate::session::closing`].
    Session(Target),
    /// The epoll set of the operation and then its session: see
    /// [`crate::session::closing`].
    EpollAndSession,
    /// The stream that was connected: see [`crate::reactor::VclReactor::retire`].
    Stream,
}

/// Something to do on behalf of an operation.
#[derive(Debug, Clone, Copy, PartialEq, Eq)]
pub enum Op {
    /// Open a session. Answered by [`Event::Unit`].
    Create { udp: bool, nonblocking: bool },
    /// Draw an ephemeral port. Answered by [`Event::Port`].
    PickPort,
    /// Bind the session. Answered by [`Event::Unit`].
    Bind(SocketAddr),
    /// Make the session listen. Answered by [`Event::Unit`].
    Listen { backlog: u32 },
    /// Connect the session. Answered by [`Event::Unit`].
    Connect(SocketAddr),
    /// Send the outgoing bytes as one datagram. Answered by [`Event::Count`].
    SendTo(SocketAddr),
    /// Receive one datagram of at most `max` bytes. Answered by
    /// [`Event::Datagram`].
    Receive { max: usize },
    /// Receive one datagram into the caller's buffer. Answered by
    /// [`Event::Arrived`].
    ReceiveInto,
    /// Read into what is left of the caller's buffer, `from` bytes of which are
    /// filled. Answered by [`Event::Count`].
    ReadInto { from: usize },
    /// Write what is left of the caller's buffer, the first `from` bytes of which
    /// were taken. Answered by [`Event::Count`].
    WriteFrom { from: usize },
    /// Send the caller's buffer as one datagram. Answered by [`Event::Count`].
    SendBuffer(SocketAddr),
    /// Write the outgoing bytes, or a prefix of them. Answered by
    /// [`Event::Count`].
    Write,
    /// Read at most `max` bytes. Answered by [`Event::Bytes`].
    Read { max: usize },
    /// Ask for the session's local address. Answered by [`Event::Address`].
    LocalAddr,
    /// Ask for the session's local address, to hold it against the requested
    /// one. Answered by [`Event::Confirmed`].
    ConfirmAddr,
    /// Bind a datagram socket of its own. Answered by [`Event::Unit`].
    BindDgram(SocketAddr),
    /// Open an epoll set. Answered by [`Event::Code`].
    CreateEpoll,
    /// Add the session to the epoll set. Answered by [`Event::Code`].
    AddToEpoll { events: u32 },
    /// Wait on the epoll set, which processes the message queue. Answered by
    /// [`Event::Code`]: how many events came.
    WaitEpoll { max_events: u32, wait_ms: u32 },
    /// Close the epoll set. Answered by [`Event::Elapsed`].
    CloseEpoll,
    /// Read the clock. Answered by [`Event::Clock`].
    ReadClock,
    /// Sleep. Answered by [`Event::Elapsed`].
    Sleep { ms: u32 },
    /// Turn off the delaying of small segments. Answered by [`Event::Elapsed`]:
    /// a failure is no failure of the operation.
    SetNodelay(Target),
    /// Put the session into non-blocking mode. Answered by [`Event::Unit`].
    SetNonblocking(Target),
    /// Register the session with the reactor. Answered by [`Event::Unit`].
    Register(Target),
    /// Look whether the session's handshake has completed, by a read of no bytes.
    /// Answered by [`Event::Count`].
    Look,
    /// On a thread that may block, open a blocking session and connect it; it
    /// takes the place of the session. Answered by [`Event::Unit`], or by
    /// [`Event::JoinFailed`] when the thread was lost.
    ConnectBlocking(SocketAddr),
    /// Connect a stream to `peer` within `timeout` nanoseconds. Answered by
    /// [`Event::Unit`].
    ConnectStream { peer: SocketAddr, source: Option<SocketAddr>, timeout: u128 },
    /// Write all outgoing bytes. Answered by [`Event::Unit`].
    WriteAll,
    /// Read exactly `len` bytes. Answered by [`Event::Bytes`].
    ReadExact { len: usize },
    /// Take the next incoming connection. Answered by [`Event::Accepted`].
    Accept,
    /// Wait until the session is readable, for at most `timeout` nanoseconds.
    /// Answered by [`Event::Unit`].
    WaitReadable { timeout: u128 },
    /// Wait until the session is writable, for at most `timeout` nanoseconds.
    /// Answered by [`Event::Unit`].
    WaitWritable { timeout: u128 },
}

/// What came of an [`Op`].
///
/// Texts and bytes are `String` and `Vec<u8>` when the program runs and
/// sequences in contracts.
#[derive(Debug, PartialEq, Eq)]
pub enum Event<S = String, B = Vec<u8>> {
    Unit(Result<(), VclError<S>>),
    Count(Result<usize, VclError<S>>),
    Bytes(Result<B, VclError<S>>),
    Datagram(Result<(B, SocketAddr), VclError<S>>),
    /// The length of a datagram in the caller's buffer, and its sender.
    Arrived(Result<(usize, SocketAddr), VclError<S>>),
    /// A new session and its peer.
    Accepted(Result<(SessionHandle, SocketAddr), VclError<S>>),
    Address(Result<SocketAddr, VclError<S>>),
    /// The local address and its text, or how the failure to get it is written
    /// for debugging.
    Confirmed(Result<(SocketAddr, S), S>),
    /// Why the thread of a blocking call was lost.
    JoinFailed(S),
    /// The return code of a call.
    Code(i32),
    Port(u16),
    /// Nanoseconds since an instant that stays fixed during the operation.
    Clock(u128),
    Elapsed,
}

/// What an operation does next.
#[derive(Debug, PartialEq, Eq)]
pub enum Step<R, S = String> {
    /// Perform this and hand back what came of it.
    Do(Op),
    /// The operation is over, and leaves nothing behind that is to be closed.
    Done(Result<R, VclError<S>>),
    /// Close this; the operation is then over with this result.
    Close(Close, Result<R, VclError<S>>),
    /// The event answers nothing that the operation asked for; its state is
    /// unchanged.
    Ignored,
}

impl View for Event {
    type V = Event<Seq<char>, Seq<u8>>;

    open spec fn view(&self) -> Event<Seq<char>, Seq<u8>> {
        match *self {
            Event::Unit(Ok(())) => Event::Unit(Ok(())),
            Event::Unit(Err(e)) => Event::Unit(Err(e@)),
            Event::Count(Ok(n)) => Event::Count(Ok(n)),
            Event::Count(Err(e)) => Event::Count(Err(e@)),
            Event::Bytes(Ok(bytes)) => Event::Bytes(Ok(bytes@)),
            Event::Bytes(Err(e)) => Event::Bytes(Err(e@)),
            Event::Datagram(Ok((bytes, from))) => Event::Datagram(Ok((bytes@, from))),
            Event::Datagram(Err(e)) => Event::Datagram(Err(e@)),
            Event::Arrived(Ok(arrival)) => Event::Arrived(Ok(arrival)),
            Event::Arrived(Err(e)) => Event::Arrived(Err(e@)),
            Event::Accepted(Ok(session)) => Event::Accepted(Ok(session)),
            Event::Accepted(Err(e)) => Event::Accepted(Err(e@)),
            Event::Address(Ok(addr)) => Event::Address(Ok(addr)),
            Event::Address(Err(e)) => Event::Address(Err(e@)),
            Event::Confirmed(Ok((addr, text))) => Event::Confirmed(Ok((addr, text@))),
            Event::Confirmed(Err(text)) => Event::Confirmed(Err(text@)),
            Event::JoinFailed(text) => Event::JoinFailed(text@),
            Event::Code(rc) => Event::Code(rc),
            Event::Port(port) => Event::Port(port),
            Event::Clock(now) => Event::Clock(now),
            Event::Elapsed => Event::Elapsed,
        }
    }
}

/// An event in the terms of contracts.
pub type EventView = Event<Seq<char>, Seq<u8>>;

/// The event that something succeeded which results in nothing.
pub open spec fn succeeded(event: EventView) -> bool {
    event matches Event::Unit(Ok(_))
}

/// The result with which a step ends the operation, if it does.
pub open spec fn result_of<R>(step: Step<R, Seq<char>>) -> Option<
    Result<R, VclError<Seq<char>>>,
> {
    match step {
        Step::Done(r) => Some(r),
        Step::Close(_, r) => Some(r),
        _ => None,
    }
}

/// A step of an operation that results in nothing but success or failure, in
/// the terms of contracts.
pub type UnitStep = Step<(), Seq<char>>;

/// A step of an operation that results in a number of bytes.
pub type CountStep = Step<usize, Seq<char>>;

/// A step of an operation that results in an address.
pub type AddrStep = Step<SocketAddr, Seq<char>>;

/// A step of an operation that results in bytes.
pub type BytesStep = Step<Seq<u8>, Seq<char>>;

/// A step of an operation that results in a datagram and its sender.
pub type DatagramStep = Step<(Seq<u8>, SocketAddr), Seq<char>>;

/// A step of an operation that results in the length of a datagram, which lies
/// in the caller's buffer, and its sender.
pub type ArrivalStep = Step<(usize, SocketAddr), Seq<char>>;

/// A step of an operation that results in a session and its peer.
pub type AcceptStep = Step<(SessionHandle, SocketAddr), Seq<char>>;

/// A step whose result is taken as it is.
pub open spec fn plain_step<R>(s: Step<R>) -> Step<R, Seq<char>> {
    match s {
        Step::Do(op) => Step::Do(op),
        Step::Done(Ok(r)) => Step::Done(Ok(r)),
        Step::Close(close, Ok(r)) => Step::Close(close, Ok(r)),
        Step::Done(Err(e)) => Step::Done(Err(e@)),
        Step::Close(close, Err(e)) => Step::Close(close, Err(e@)),
        Step::Ignored => Step::Ignored,
    }
}

/// A step whose result is taken by its view.
pub open spec fn bytes_step(s: Step<Vec<u8>>) -> Step<Seq<u8>, Seq<char>> {
    match s {
        Step::Do(op) => Step::Do(op),
        Step::Done(Ok(r)) => Step::Done(Ok(r@)),
        Step::Close(close, Ok(r)) => Step::Close(close, Ok(r@)),
        Step::Done(Err(e)) => Step::Done(Err(e@)),
        Step::Close(close, Err(e)) => Step::Close(close, Err(e@)),
        Step::Ignored => Step::Ignored,
    }
}

/// A step whose result is a datagram, taken by its view.
pub open spec fn datagram_step(s: Step<(Vec<u8>, SocketAddr)>) -> Step<
    (Seq<u8>, SocketAddr),
    Seq<char>,
> {
    match s {
        Step::Do(op) => Step::Do(op),
        Step::Done(Ok((bytes, from))) => Step::Done(Ok((bytes@, from))),
        Step::Close(close, Ok((bytes, from))) => Step::Close(close, Ok((bytes@, from))),
        Step::Done(Err(e)) => Step::Done(Err(e@)),
        Step::Close(close, Err(e)) => Step::Close(close, Err(e@)),
        Step::Ignored => Step::Ignored,
    }
}

/// The instant `timeout` after `now`; an instant beyond the clock's range is
/// its last one.
pub open spec fn deadline_after(now: u128, timeout: u128) -> u128 {
    if now + timeout > u128::MAX {
        u128::MAX
    } else {
        (now + timeout) as u128
    }
}

/// What is left of `timeout` at `now` when it counts from `started`.
pub open spec fn time_left(timeout: u128, started: u128, now: u128) -> u128 {
    let elapsed = if now < started {
        0
    } else {
        now - started
    };
    if elapsed >= timeout {
        0
    } else {
        (timeout - elapsed) as u128
    }
}

/// What is left of `timeout` at `now` when it counts from `started`.
pub fn remaining(timeout: u128, started: u128, now: u128) -> (left: u128)
    ensures
        left == time_left(timeout, started, now),
{
    let elapsed: u128 = if now < started {
        0
    } else {
        now - started
    };
    if elapsed >= timeout {
        0
    } else {
        timeout - elapsed
    }
}

/// The instant `timeout` after `now`.
pub fn deadline(now: u128, timeout: u128) -> (at: u128)
    ensures
        at == deadline_after(now, timeout),
{
    if timeout > u128::MAX - now {
        u128::MAX
    } else {
        now + timeout
    }
}

/// A deadline is the timeout after its start, or the end of the clock.
pub proof fn deadline_is_the_timeout_later(now: u128, timeout: u128)
    ensures
        now + timeout <= u128::MAX ==> deadline_after(now, timeout) == now + timeout,
        now + timeout > u128::MAX ==> deadline_after(now, timeout) == u128::MAX,
        deadline_after(now, timeout) >= now,
{
}

/// What is left of a timeout and what has passed of it are the timeout; once all of it
/// has passed nothing is left.
pub proof fn time_left_and_time_passed_add_up(timeout: u128, started: u128, now: u128)
    requires
        started <= now,
    ensures
        now - started <= timeout ==> time_left(timeout, started, now) + (now - started) == timeout,
        now - started >= timeout ==> time_left(timeout, started, now) == 0,
        time_left(timeout, started, started) == timeout,
{
}

/// Contracts see an event as it is: what came, and with what.
pub proof fn events_are_seen_as_they_are(event: Event)
    ensures
        event is Unit <==> event@ is Unit,
        event matches Event::Unit(r) ==> (event@->Unit_0 is Ok <==> r is Ok),
        event matches Event::Unit(Err(e)) ==> event@ == EventView::Unit(Err(e@)),
        event matches Event::Count(Ok(n)) ==> event@ == EventView::Count(Ok(n)),
        event matches Event::Count(Err(e)) ==> event@ == EventView::Count(Err(e@)),
        event matches Event::Bytes(Ok(bytes)) ==> event@ == EventView::Bytes(Ok(bytes@)),
        event matches Event::Bytes(Err(e)) ==> event@ == EventView::Bytes(Err(e@)),
        event matches Event::Datagram(Ok(d)) ==> event@ == EventView::Datagram(Ok((d.0@, d.1))),
        event matches Event::Datagram(Err(e)) ==> event@ == EventView::Datagram(Err(e@)),
        event matches Event::Arrived(Ok(a)) ==> event@ == EventView::Arrived(Ok(a)),
        event matches Event::Arrived(Err(e)) ==> event@ == EventView::Arrived(Err(e@)),
        event matches Event::Accepted(Ok(a)) ==> event@ == EventView::Accepted(Ok(a)),
        event matches Event::Accepted(Err(e)) ==> event@ == EventView::Accepted(Err(e@)),
        event matches Event::Address(Ok(a)) ==> event@ == EventView::Address(Ok(a)),
        event matches Event::Address(Err(e)) ==> event@ == EventView::Address(Err(e@)),
        event matches Event::Confirmed(Ok(c)) ==> event@ == EventView::Confirmed(Ok((c.0, c.1@))),
        event matches Event::Confirmed(Err(t)) ==> event@ == EventView::Confirmed(Err(t@)),
        event matches Event::JoinFailed(t) ==> event@ == EventView::JoinFailed(t@),
        event matches Event::Code(rc) ==> event@ == EventView::Code(rc),
        event matches Event::Port(port) ==> event@ == EventView::Port(port),
        event matches Event::Clock(now) ==> event@ == EventView::Clock(now),
        event is Elapsed <==> event@ is Elapsed,
{
}

/// Contracts see a step as it is: what to do, what to close, and the result.
pub proof fn steps_are_seen_as_they_are<R>(
    step: Step<R>,
    bytes: Step<Vec<u8>>,
    datagram: Step<(Vec<u8>, SocketAddr)>,
)
    ensures
        step matches Step::Do(op) ==> plain_step(step) == Step::<R, Seq<char>>::Do(op),
        step matches Step::Done(Ok(r)) ==> plain_step(step) == Step::<R, Seq<char>>::Done(Ok(r)),
        step matches Step::Done(Err(e)) ==> plain_step(step) == Step::<R, Seq<char>>::Done(
            Err(e@),
        ),
        step matches Step::Close(c, Ok(r)) ==> plain_step(step) == Step::<R, Seq<char>>::Close(
            c,
            Ok(r),
        ),
        step matches Step::Close(c, Err(e)) ==> plain_step(step) == Step::<R, Seq<char>>::Close(
            c,
            Err(e@),
        ),
        step is Ignored <==> plain_step(step) is Ignored,
        bytes matches Step::Do(op) ==> bytes_step(bytes) == BytesStep::Do(op),
        bytes matches Step::Done(Ok(r)) ==> bytes_step(bytes) == BytesStep::Done(Ok(r@)),
        bytes matches Step::Done(Err(e)) ==> bytes_step(bytes) == BytesStep::Done(Err(e@)),
        bytes matches Step::Close(c, Ok(r)) ==> bytes_step(bytes) == BytesStep::Close(c, Ok(r@)),
        bytes matches Step::Close(c, Err(e)) ==> bytes_step(bytes) == BytesStep::Close(c, Err(e@)),
        bytes is Ignored <==> bytes_step(bytes) is Ignored,
        datagram matches Step::Do(op) ==> datagram_step(datagram) == DatagramStep::Do(op),
        datagram matches Step::Done(Ok(d)) ==> datagram_step(datagram) == DatagramStep::Done(
            Ok((d.0@, d.1)),
        ),
        datagram matches Step::Done(Err(e)) ==> datagram_step(datagram) == DatagramStep::Done(
            Err(e@),
        ),
        datagram matches Step::Close(c, Ok(d)) ==> datagram_step(datagram) == DatagramStep::Close(
            c,
            Ok((d.0@, d.1)),
        ),
        datagram matches Step::Close(c, Err(e)) ==> datagram_step(datagram) == DatagramStep::Close(
            c,
            Err(e@),
        ),
        datagram is Ignored <==> datagram_step(datagram) is Ignored,
{
}

/// An operation ends with the result of its last step and with no other.
pub proof fn ending_steps_have_results<R>(step: Step<R, Seq<char>>, event: EventView)
    ensures
        step matches Step::Done(r) ==> result_of(step) == Some(r),
        step matches Step::Close(_, r) ==> result_of(step) == Some(r),
        step is Do || step is Ignored ==> result_of(step) is None,
        succeeded(event) <==> event is Unit && event->Unit_0 is Ok,
{
}

/// Where the clock went back, or stood still, all of the time is left.
pub proof fn standing_clock_uses_no_time(timeout: u128, started: u128, now: u128)
    requires
        now <= started,
    ensures
        time_left(timeout, started, now) == timeout,
{
}

} // verus!
