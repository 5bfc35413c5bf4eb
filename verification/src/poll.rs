//! Polled reading and writing of a stream.
//!
//! Readiness events are edge-triggered: one comes only when a session turns from
//! empty to non-empty. A reader therefore drains the session until a call would
//! block before it waits for the next event; a reader that waits while bytes are
//! left waits for an event that never comes.

use vstd::prelude::*;

use crate::dgram::RECEIVE_WAIT;
use crate::error::{host_errnos, vcl_to_io, ErrnoCodes, IoError, VclError};
#[allow(unused_imports)]
use crate::error::{classify, io_view, text_view};
use crate::stream::WRITE_WAIT;

verus! {

/// Something to do within a poll.
#[derive(Debug, Clone, Copy, PartialEq, Eq)]
pub enum PollOp {
    /// Poll the wait that is pending.
    PollWait,
    /// Begin a wait of at most `timeout` nanoseconds, keep it as the pending one,
    /// and poll it.
    Arm { timeout: u128 },
    /// Read into what is left of the buffer, `from` bytes of which are filled.
    Read { from: usize },
    /// Write the buffer, or a prefix of it.
    Write,
}

/// What came of a [`PollOp`].
#[derive(Debug, PartialEq, Eq)]
pub enum Polled<S = String> {
    /// The wait is not over.
    Pending,
    /// The wait is over.
    Waited(Result<(), VclError<S>>),
    /// The call read or wrote so many bytes.
    Count(Result<usize, VclError<S>>),
}

/// What a poll does next.
#[derive(Debug, PartialEq, Eq)]
pub enum PollStep<R, S = String> {
    /// Perform this and hand back what came of it.
    Do(PollOp),
    /// The poll is over; the task is woken when the pending wait is.
    Pending,
    /// The poll is over with this result, and no wait is pending.
    Ready(Result<R, IoError<S>>),
    /// The event answers nothing that the poll asked for; its state is unchanged.
    Ignored,
}

impl View for Polled {
    type V = Polled<Seq<char>>;

    open spec fn view(&self) -> Polled<Seq<char>> {
        match *self {
            Polled::Pending => Polled::Pending,
            Polled::Waited(Ok(())) => Polled::Waited(Ok(())),
            Polled::Waited(Err(e)) => Polled::Waited(Err(e@)),
            Polled::Count(Ok(n)) => Polled::Count(Ok(n)),
            Polled::Count(Err(e)) => Polled::Count(Err(e@)),
        }
    }
}

/// What came of a [`PollOp`], in the terms of contracts.
pub type PolledView = Polled<Seq<char>>;

/// A step of a polled read.
pub type ReadStep = PollStep<(), Seq<char>>;

/// A step of a polled write.
pub type WriteStep = PollStep<usize, Seq<char>>;

/// A step with its error taken by its view.
pub open spec fn poll_step<R>(s: PollStep<R>) -> PollStep<R, Seq<char>> {
    match s {
        PollStep::Do(op) => PollStep::Do(op),
        PollStep::Pending => PollStep::Pending,
        PollStep::Ready(Ok(r)) => PollStep::Ready(Ok(r)),
        PollStep::Ready(Err(e)) => PollStep::Ready(Err(e@)),
        PollStep::Ignored => PollStep::Ignored,
    }
}

/// Where a poll stands.
#[derive(Debug, Clone, Copy, PartialEq, Eq)]
pub enum PollPhase {
    /// No poll is under way.
    Idle,
    /// The pending wait is being polled.
    Waiting,
    /// The session is being read or written.
    Calling,
}

/// The reading side of a stream.
#[derive(Debug, Clone, Copy)]
pub struct PollRead {
    /// A wait is pending.
    pub armed: bool,
    /// The length of the buffer of the present poll.
    pub len: usize,
    /// How many bytes of it the present poll has filled.
    pub filled: usize,
    pub phase: PollPhase,
}

/// A reading side with no wait pending and no poll under way.
pub open spec fn read_idle() -> PollRead {
    PollRead { armed: false, len: 0, filled: 0, phase: PollPhase::Idle }
}

/// Reading goes on where there is room in the buffer, and is over where there is
/// none.
pub open spec fn drain(s: PollRead) -> (PollRead, ReadStep) {
    if s.filled >= s.len {
        read_ready(s, Ok(()))
    } else {
        (PollRead { phase: PollPhase::Calling, ..s }, PollStep::Do(PollOp::Read { from: s.filled }))
    }
}

/// The end of a poll.
pub open spec fn read_ready(s: PollRead, r: Result<(), IoError<Seq<char>>>) -> (
    PollRead,
    ReadStep,
) {
    (PollRead { phase: PollPhase::Idle, ..s }, PollStep::Ready(r))
}

/// A poll with a buffer of `len` bytes begins: with the pending wait, if there is
/// one.
pub open spec fn read_poll(s: PollRead, len: usize) -> (PollRead, ReadStep) {
    let s = PollRead { len, filled: 0, ..s };
    if s.armed {
        (PollRead { phase: PollPhase::Waiting, ..s }, PollStep::Do(PollOp::PollWait))
    } else {
        drain(s)
    }
}

/// The reading side and its step after an event.
///
/// The end of the stream is success with nothing more read. A call that would
/// block ends the poll where it has read something, and otherwise arms a wait.
pub open spec fn read_event(s: PollRead, event: PolledView) -> (PollRead, ReadStep) {
    match (s.phase, event) {
        (PollPhase::Waiting, Polled::Pending) => (
            PollRead { phase: PollPhase::Idle, ..s },
            PollStep::Pending,
        ),
        (PollPhase::Waiting, Polled::Waited(Ok(_))) => drain(PollRead { armed: false, ..s }),
        (PollPhase::Waiting, Polled::Waited(Err(e))) => read_ready(
            PollRead { armed: false, ..s },
            Err(io_view(e)),
        ),
        (PollPhase::Calling, Polled::Count(Ok(n))) => if n == 0 {
            read_ready(s, Ok(()))
        } else {
            drain(PollRead { filled: (s.filled + n) as usize, ..s })
        },
        (PollPhase::Calling, Polled::Count(Err(e))) => match e {
            VclError::WouldBlock => if s.filled > 0 {
                read_ready(s, Ok(()))
            } else {
                (
                    PollRead { armed: true, phase: PollPhase::Waiting, ..s },
                    PollStep::Do(PollOp::Arm { timeout: RECEIVE_WAIT }),
                )
            },
            VclError::Closed => read_ready(s, Ok(())),
            e => read_ready(s, Err(io_view(e))),
        },
        _ => (s, PollStep::Ignored),
    }
}

impl PollRead {
    /// A wait is pending exactly while one is polled or between polls that ended
    /// with it, and what is filled fits the buffer.
    pub open spec fn wf(self) -> bool {
        &&& self.filled <= self.len
        &&& self.phase is Waiting ==> self.armed && self.filled == 0
        &&& self.phase is Calling ==> !self.armed && self.filled < self.len
    }

    /// The call read no more bytes than were asked for.
    pub open spec fn fits(self, event: PolledView) -> bool {
        self.phase is Calling ==> (event matches Polled::Count(Ok(n)) ==> n <= self.len
            - self.filled)
    }

    /// A reading side with no wait pending.
    pub fn new() -> (s: PollRead)
        ensures
            s == read_idle(),
            s.wf(),
    {
        PollRead { armed: false, len: 0, filled: 0, phase: PollPhase::Idle }
    }

    fn ready(self, r: Result<(), IoError>) -> (next: (PollRead, PollStep<()>))
        ensures
            next.0 == (PollRead { phase: PollPhase::Idle, ..self }),
            next.1 == PollStep::<()>::Ready(r),
    {
        (PollRead { phase: PollPhase::Idle, ..self }, PollStep::Ready(r))
    }

    fn drain(self) -> (next: (PollRead, PollStep<()>))
        ensures
            (next.0, poll_step(next.1)) == drain(self),
    {
        if self.filled >= self.len {
            self.ready(Ok(()))
        } else {
            (
                PollRead { phase: PollPhase::Calling, ..self },
                PollStep::Do(PollOp::Read { from: self.filled }),
            )
        }
    }

    /// Begins a poll with a buffer of `len` bytes.
    pub fn poll_read(self, len: usize) -> (next: (PollRead, PollStep<()>))
        ensures
            (next.0, poll_step(next.1)) == read_poll(self, len),
            next.0.wf(),
    {
        let s = PollRead { armed: self.armed, len, filled: 0, phase: self.phase };
        if s.armed {
            (
                PollRead { phase: PollPhase::Waiting, ..s },
                PollStep::Do(PollOp::PollWait),
            )
        } else {
            s.drain()
        }
    }

    fn failed(self, e: VclError) -> (next: (PollRead, PollStep<()>))
        requires
            self.phase is Calling,
        ensures
            (next.0, poll_step(next.1)) == read_event(self, Polled::Count(Err(e))@),
    {
        match e {
            VclError::WouldBlock => if self.filled > 0 {
                self.ready(Ok(()))
            } else {
                (
                    PollRead { armed: true, phase: PollPhase::Waiting, ..self },
                    PollStep::Do(PollOp::Arm { timeout: RECEIVE_WAIT }),
                )
            },
            VclError::Closed => self.ready(Ok(())),
            e => self.ready(Err(vcl_to_io(e))),
        }
    }

    /// Moves the poll on by one event.
    pub fn step(self, event: Polled) -> (next: (PollRead, PollStep<()>))
        requires
            self.wf(),
            self.fits(event@),
        ensures
            (next.0, poll_step(next.1)) == read_event(self, event@),
            next.0.wf(),
    {
        match (self.phase, event) {
            (PollPhase::Waiting, Polled::Pending) => (
                PollRead { phase: PollPhase::Idle, ..self },
                PollStep::Pending,
            ),
            (PollPhase::Waiting, Polled::Waited(Ok(()))) => {
                let s = PollRead { armed: false, ..self };
                s.drain()
            },
            (PollPhase::Waiting, Polled::Waited(Err(e))) => {
                let s = PollRead { armed: false, ..self };
                s.ready(Err(vcl_to_io(e)))
            },
            (PollPhase::Calling, Polled::Count(Ok(n))) => if n == 0 {
                self.ready(Ok(()))
            } else {
                let filled: usize = self.filled + n;
                let s = PollRead { filled, ..self };
                s.drain()
            },
            (PollPhase::Calling, Polled::Count(Err(e))) => self.failed(e),
            _ => (self, PollStep::Ignored),
        }
    }
}

/// The event that a call would block.
pub open spec fn would_block(event: PolledView) -> bool {
    event matches Polled::Count(Err(VclError::WouldBlock))
}

/// The event that the stream has ended.
pub open spec fn stream_ended(event: PolledView) -> bool {
    event matches Polled::Count(Ok(0)) || event matches Polled::Count(Err(VclError::Closed))
}

/// A reader waits only on an empty session: a wait is armed only by a call that
/// would block, in a poll that has read nothing.
pub proof fn reader_arms_only_when_drained(s: PollRead, event: PolledView)
    requires
        s.wf(),
        s.fits(event),
    ensures
        read_event(s, event).1 matches PollStep::Do(PollOp::Arm { .. }) ==> would_block(event)
            && s.phase is Calling && s.filled == 0,
        !s.armed && read_event(s, event).0.armed ==> read_event(s, event).1 matches PollStep::Do(
            PollOp::Arm { .. },
        ),
{
}

/// A poll that is pending leaves a wait behind that will wake the task; a poll
/// that is ready leaves none.
pub proof fn pending_poll_leaves_a_wait(s: PollRead, event: PolledView, len: usize)
    requires
        s.wf(),
        s.fits(event),
    ensures
        read_event(s, event).1 is Pending ==> read_event(s, event).0.armed,
        read_event(s, event).1 is Ready ==> !read_event(s, event).0.armed,
        !(read_poll(s, len).1 is Pending),
        read_poll(s, len).1 is Ready ==> !read_poll(s, len).0.armed,
        s.armed <==> read_poll(s, len).1 == ReadStep::Do(PollOp::PollWait),
{
}

/// A successful poll has filled its buffer or drained the session, and one that
/// leaves its buffer empty though it has room tells the end of the stream.
pub proof fn ready_read_has_drained(s: PollRead, event: PolledView)
    requires
        s.wf(),
        s.fits(event),
    ensures
        read_event(s, event).1 matches PollStep::Ready(Ok(_)) ==> {
            let after = read_event(s, event).0;
            &&& after.filled == after.len || would_block(event) || stream_ended(event)
            &&& after.filled == 0 && after.len > 0 ==> stream_ended(event)
        },
{
}

/// The writing side of a stream.
#[derive(Debug, Clone, Copy)]
pub struct PollWrite {
    /// A wait is pending.
    pub armed: bool,
    pub phase: PollPhase,
}

/// A writing side with no wait pending and no poll under way.
pub open spec fn write_idle() -> PollWrite {
    PollWrite { armed: false, phase: PollPhase::Idle }
}

/// A poll begins: with the pending wait, if there is one.
pub open spec fn write_poll(s: PollWrite) -> (PollWrite, WriteStep) {
    if s.armed {
        (PollWrite { phase: PollPhase::Waiting, ..s }, PollStep::Do(PollOp::PollWait))
    } else {
        (PollWrite { phase: PollPhase::Calling, ..s }, PollStep::Do(PollOp::Write))
    }
}

/// The writing side and its step after an event.
pub open spec fn write_event(s: PollWrite, event: PolledView) -> (PollWrite, WriteStep) {
    match (s.phase, event) {
        (PollPhase::Waiting, Polled::Pending) => (
            PollWrite { phase: PollPhase::Idle, ..s },
            PollStep::Pending,
        ),
        (PollPhase::Waiting, Polled::Waited(Ok(_))) => (
            PollWrite { armed: false, phase: PollPhase::Calling },
            PollStep::Do(PollOp::Write),
        ),
        (PollPhase::Waiting, Polled::Waited(Err(e))) => (
            write_idle(),
            PollStep::Ready(Err(io_view(e))),
        ),
        (PollPhase::Calling, Polled::Count(Ok(n))) => (
            PollWrite { phase: PollPhase::Idle, ..s },
            PollStep::Ready(Ok(n)),
        ),
        (PollPhase::Calling, Polled::Count(Err(e))) => if e is WouldBlock {
            (
                PollWrite { armed: true, phase: PollPhase::Waiting },
                PollStep::Do(PollOp::Arm { timeout: WRITE_WAIT }),
            )
        } else {
            (PollWrite { phase: PollPhase::Idle, ..s }, PollStep::Ready(Err(io_view(e))))
        },
        _ => (s, PollStep::Ignored),
    }
}

impl PollWrite {
    /// A wait is pending exactly while one is polled or between polls that ended
    /// with it.
    pub open spec fn wf(self) -> bool {
        &&& self.phase is Waiting ==> self.armed
        &&& self.phase is Calling ==> !self.armed
    }

    /// A writing side with no wait pending.
    pub fn new() -> (s: PollWrite)
        ensures
            s == write_idle(),
            s.wf(),
    {
        PollWrite { armed: false, phase: PollPhase::Idle }
    }

    /// Begins a poll.
    pub fn poll_write(self) -> (next: (PollWrite, PollStep<usize>))
        ensures
            (next.0, poll_step(next.1)) == write_poll(self),
            next.0.wf(),
    {
        if self.armed {
            (
                PollWrite { armed: true, phase: PollPhase::Waiting },
                PollStep::Do(PollOp::PollWait),
            )
        } else {
            (PollWrite { armed: false, phase: PollPhase::Calling }, PollStep::Do(PollOp::Write))
        }
    }

    /// Moves the poll on by one event.
    pub fn step(self, event: Polled) -> (next: (PollWrite, PollStep<usize>))
        ensures
            (next.0, poll_step(next.1)) == write_event(self, event@),
            self.wf() ==> next.0.wf(),
    {
        match (self.phase, event) {
            (PollPhase::Waiting, Polled::Pending) => (
                PollWrite { phase: PollPhase::Idle, ..self },
                PollStep::Pending,
            ),
            (PollPhase::Waiting, Polled::Waited(Ok(()))) => (
                PollWrite { armed: false, phase: PollPhase::Calling },
                PollStep::Do(PollOp::Write),
            ),
            (PollPhase::Waiting, Polled::Waited(Err(e))) => (
                PollWrite { armed: false, phase: PollPhase::Idle },
                PollStep::Ready(Err(vcl_to_io(e))),
            ),
            (PollPhase::Calling, Polled::Count(Ok(n))) => (
                PollWrite { phase: PollPhase::Idle, ..self },
                PollStep::Ready(Ok(n)),
            ),
            (PollPhase::Calling, Polled::Count(Err(e))) => match e {
                VclError::WouldBlock => (
                    PollWrite { armed: true, phase: PollPhase::Waiting },
                    PollStep::Do(PollOp::Arm { timeout: WRITE_WAIT }),
                ),
                other => (
                    PollWrite { phase: PollPhase::Idle, ..self },
                    PollStep::Ready(Err(vcl_to_io(other))),
                ),
            },
            _ => (self, PollStep::Ignored),
        }
    }
}

/// A pending write leaves a wait behind, a ready one none, and a wait is armed
/// only by a call that would block.
pub proof fn writer_waits_only_when_blocked(s: PollWrite, event: PolledView)
    requires
        s.wf(),
    ensures
        write_event(s, event).1 is Pending ==> write_event(s, event).0.armed,
        write_event(s, event).1 is Ready ==> !write_event(s, event).0.armed,
        write_event(s, event).1 matches PollStep::Do(PollOp::Arm { .. }) ==> would_block(event)
            && s.phase is Calling,
        !s.armed && write_event(s, event).0.armed ==> write_event(s, event).1 matches PollStep::Do(
            PollOp::Arm { .. },
        ),
{
}

/// The result of a shutdown whose call returned `rc`, on a host whose error numbers
/// are `codes`; `known` is the text that VCL knows for the code.
pub fn poll_shutdown_with(rc: i32, codes: &ErrnoCodes, known: Option<&str>) -> (r: Result<
    (),
    IoError,
>)
    ensures
        rc >= 0 ==> r is Ok,
        rc < 0 ==> (r matches Err(e) && e@ == io_view(classify(*codes, rc, text_view(known)))),
{
    if rc < 0 {
        return Err(vcl_to_io(VclError::from_rc_with(rc, codes, known)));
    }
    Ok(())
}

/// `e` is the I/O error for a negative return code, whatever numbers the host gives
/// its errors.
pub open spec fn shutdown_error(rc: i32, known: Option<Seq<char>>, e: IoError<Seq<char>>) -> bool {
    exists|codes: ErrnoCodes|
        #![trigger codes.distinct()]
        codes.distinct() && e == io_view(classify(codes, rc, known))
}

/// The result of a shutdown whose call returned `rc`.
pub fn poll_shutdown(rc: i32, known: Option<&str>) -> (r: Result<(), IoError>)
    ensures
        rc >= 0 ==> r is Ok,
        rc < 0 ==> (r matches Err(e) && shutdown_error(rc, text_view(known), e@)),
{
    let codes = host_errnos();
    poll_shutdown_with(rc, &codes, known)
}

// ---- what polling is for ----

/// The end of the stream ends a poll with success, whatever the poll has read before: what
/// it has filled is kept, and nothing is left to wait for.
pub proof fn end_of_stream_is_success(s: PollRead, event: PolledView)
    requires
        s.phase is Calling,
        event == PolledView::Count(Ok(0)) || event == PolledView::Count(Err(VclError::Closed)),
    ensures
        read_event(s, event).1 matches PollStep::Ready(Ok(_)),
        read_event(s, event).0 == (PollRead { phase: PollPhase::Idle, ..s }),
{
}

/// Bytes that were read are kept: they are filled in behind what was there, and reading
/// goes on where they end; once the buffer is full the poll is a success.
pub proof fn read_bytes_are_kept(s: PollRead, n: usize)
    requires
        s.wf(),
        s.phase is Calling,
        0 < n <= s.len - s.filled,
    ensures
        ({
            let (next, step) = read_event(s, Polled::Count(Ok(n)));
            &&& next.filled == s.filled + n && next.len == s.len && next.armed == s.armed
            &&& s.filled + n < s.len ==> step == ReadStep::Do(
                PollOp::Read { from: (s.filled + n) as usize },
            ) && next.phase is Calling
            &&& s.filled + n == s.len ==> (step matches PollStep::Ready(Ok(_))) && next.phase
                is Idle
        }),
{
}

/// An empty session is no failure: a poll that has read something is a success with what
/// it has, and one that has read nothing waits for up to 300 seconds. A wait that is not
/// over leaves the poll pending, and the next poll goes on with it; one that is over leads
/// back to the very same read.
pub proof fn empty_session_is_waited_for(s: PollRead)
    requires
        s.wf(),
        s.phase is Calling,
    ensures
        ({
            let (blocked, step) = read_event(s, Polled::Count(Err(VclError::WouldBlock)));
            let (left, pending) = read_event(blocked, Polled::Pending);
            let (again, read) = read_event(blocked, Polled::Waited(Ok(())));
            &&& s.filled > 0 ==> (step matches PollStep::Ready(Ok(_))) && blocked == (
                PollRead { phase: PollPhase::Idle, ..s })
            &&& s.filled == 0 ==> {
                &&& step == ReadStep::Do(PollOp::Arm { timeout: 300_000_000_000 })
                &&& pending is Pending && left.armed
                &&& read_poll(left, s.len) == (blocked, ReadStep::Do(PollOp::PollWait))
                &&& again == s && read == ReadStep::Do(PollOp::Read { from: 0 })
            }
        }),
{
}

/// A poll begins with nothing filled: with the wait that is pending, and otherwise with a
/// read into the whole buffer; an empty buffer is full.
pub proof fn poll_begins_with_an_empty_buffer(s: PollRead, len: usize)
    ensures
        read_poll(s, len).0.len == len && read_poll(s, len).0.filled == 0 && read_poll(
            s,
            len,
        ).0.armed == s.armed,
        !s.armed && len > 0 ==> read_poll(s, len).1 == ReadStep::Do(PollOp::Read { from: 0 })
            && read_poll(s, len).0.phase is Calling,
        !s.armed && len == 0 ==> (read_poll(s, len).1 matches PollStep::Ready(Ok(_)))
            && read_poll(s, len).0.phase is Idle,
        s.armed ==> read_poll(s, len).1 == ReadStep::Do(PollOp::PollWait) && read_poll(
            s,
            len,
        ).0.phase is Waiting,
{
}

/// A polled read fails exactly where its wait fails, or its call does for another reason
/// than that the session is empty or has ended; the error is that failure's.
pub proof fn polled_read_fails_only_for_a_reason(
    s: PollRead,
    event: PolledView,
    why: IoError<Seq<char>>,
)
    ensures
        read_event(s, event).1 == ReadStep::Ready(Err(why)) <==> match (s.phase, event) {
            (PollPhase::Waiting, Polled::Waited(Err(e))) => why == io_view(e),
            (PollPhase::Calling, Polled::Count(Err(e))) => !(e is WouldBlock) && !(e is Closed)
                && why == io_view(e),
            _ => false,
        },
        !(read_poll(s, s.len).1 matches PollStep::Ready(Err(_))),
{
}

/// What answers nothing that the poll asked for changes nothing, and that is so of just
/// those events.
pub proof fn polls_ignore_other_events(r: PollRead, w: PollWrite, event: PolledView)
    ensures
        read_event(r, event).1 is Ignored ==> read_event(r, event).0 == r,
        read_event(r, event).1 is Ignored <==> match r.phase {
            PollPhase::Idle => true,
            PollPhase::Waiting => event is Count,
            PollPhase::Calling => !(event is Count),
        },
        write_event(w, event).1 is Ignored ==> write_event(w, event).0 == w,
        write_event(w, event).1 is Ignored <==> match w.phase {
            PollPhase::Idle => true,
            PollPhase::Waiting => event is Count,
            PollPhase::Calling => !(event is Count),
        },
{
}

/// A polled write is a success exactly with the count that its call returned, none
/// included.
pub proof fn polled_write_returns_the_count(s: PollWrite, event: PolledView, n: usize)
    ensures
        write_event(s, event).1 == WriteStep::Ready(Ok(n)) <==> s.phase is Calling && event
            == PolledView::Count(Ok(n)),
{
}

/// A session that takes nothing is no failure: the write waits for up to 300 seconds. A
/// wait that is not over leaves the poll pending, and the next poll goes on with it; one
/// that is over leads back to the very same write.
pub proof fn full_session_is_waited_for(s: PollWrite)
    requires
        s.wf(),
        s.phase is Calling,
    ensures
        ({
            let (blocked, step) = write_event(s, Polled::Count(Err(VclError::WouldBlock)));
            let (left, pending) = write_event(blocked, Polled::Pending);
            let (again, write) = write_event(blocked, Polled::Waited(Ok(())));
            &&& step == WriteStep::Do(PollOp::Arm { timeout: 300_000_000_000 })
            &&& pending is Pending && left.armed
            &&& write_poll(left) == (blocked, WriteStep::Do(PollOp::PollWait))
            &&& again == s && write == WriteStep::Do(PollOp::Write)
        }),
{
}

/// A polled write begins with the wait that is pending, and otherwise with a write.
pub proof fn polled_write_begins(s: PollWrite)
    ensures
        write_poll(s).0.armed == s.armed,
        !s.armed ==> write_poll(s).1 == WriteStep::Do(PollOp::Write) && write_poll(s).0.phase
            is Calling,
        s.armed ==> write_poll(s).1 == WriteStep::Do(PollOp::PollWait) && write_poll(s).0.phase
            is Waiting,
{
}

/// A polled write fails exactly where its wait fails, or its call does for another reason
/// than that the session takes nothing; the error is that failure's.
pub proof fn polled_write_fails_only_for_a_reason(
    s: PollWrite,
    event: PolledView,
    why: IoError<Seq<char>>,
)
    ensures
        write_event(s, event).1 == WriteStep::Ready(Err(why)) <==> match (s.phase, event) {
            (PollPhase::Waiting, Polled::Waited(Err(e))) => why == io_view(e),
            (PollPhase::Calling, Polled::Count(Err(e))) => !(e is WouldBlock) && why == io_view(e),
            _ => false,
        },
{
}

/// A fresh side of a stream has no wait pending and no poll under way.
pub proof fn fresh_sides_are_idle()
    ensures
        !read_idle().armed && read_idle().phase is Idle && read_idle().filled == 0
            && read_idle().len == 0,
        !write_idle().armed && write_idle().phase is Idle,
{
}

/// In a contract what came of a poll, and what it does next, stand as they are, with each
/// error by its view.
pub proof fn polls_are_seen_as_they_are<R>(event: Polled, step: PollStep<R>)
    ensures
        event is Pending <==> event@ is Pending,
        event matches Polled::Waited(r) ==> (event@ matches Polled::Waited(v) && (r is Ok <==> v
            is Ok) && (r matches Err(e) ==> v->Err_0 == e@)),
        event matches Polled::Count(r) ==> (event@ matches Polled::Count(v) && (r matches Ok(n)
            ==> v == Ok::<usize, VclError<Seq<char>>>(n)) && (r matches Err(e) ==> v == Err::<
            usize,
            VclError<Seq<char>>,
        >(e@))),
        step matches PollStep::Do(op) ==> poll_step(step) == PollStep::<R, Seq<char>>::Do(op),
        step is Pending <==> poll_step(step) is Pending,
        step is Ignored <==> poll_step(step) is Ignored,
        step matches PollStep::Ready(Ok(r)) ==> poll_step(step) == PollStep::<
            R,
            Seq<char>,
        >::Ready(Ok(r)),
        step matches PollStep::Ready(Err(e)) ==> poll_step(step) == PollStep::<
            R,
            Seq<char>,
        >::Ready(Err(e@)),
{
}

/// The bytes that a sequence of counts adds up to.
pub open spec fn added_up(counts: Seq<usize>) -> int
    decreases counts.len(),
{
    if counts.len() == 0 {
        0
    } else {
        added_up(counts.drop_last()) + counts.last()
    }
}

/// The reading side after reads that returned these counts.
pub open spec fn after_reads(s: PollRead, counts: Seq<usize>) -> PollRead
    decreases counts.len(),
{
    if counts.len() == 0 {
        s
    } else {
        read_event(after_reads(s, counts.drop_last()), Polled::Count(Ok(counts.last()))).0
    }
}

/// A poll drains the session: reads that each return something, and together leave room
/// in the buffer, lead to one more read, right behind all that they returned.
pub proof fn reader_drains_the_session(s: PollRead, counts: Seq<usize>)
    requires
        s.wf(),
        s.phase is Calling,
        forall|i: int| 0 <= i < counts.len() ==> counts[i] > 0,
        s.filled + added_up(counts) < s.len,
    ensures
        ({
            let after = after_reads(s, counts);
            after.wf() && after.phase is Calling && after.filled == s.filled + added_up(counts)
                && after.len == s.len
        }),
        counts.len() > 0 ==> read_event(
            after_reads(s, counts.drop_last()),
            Polled::Count(Ok(counts.last())),
        ).1 == ReadStep::Do(PollOp::Read { from: (s.filled + added_up(counts)) as usize }),
    decreases counts.len(),
{
    if counts.len() > 0 {
        let before = counts.drop_last();
        assert(counts.last() == counts[counts.len() - 1]);
        assert forall|i: int| 0 <= i < before.len() implies before[i] > 0 by {
            assert(before[i] == counts[i]);
        }
        reader_drains_the_session(s, before);
    }
}

} // verus!
