//! TCP streams: connecting, reading and writing.
//!
//! A stream wraps a non-blocking session. Where a call would block, the stream
//! waits for the session to become ready and makes the call again.

use vstd::prelude::*;

use crate::addr::SocketAddr;
use crate::dgram::{LoopPhase, RECEIVE_WAIT};
#[allow(unused_imports)]
use crate::error::failure;
use crate::error::VclError;
use crate::ops::{remaining, Close, Event, Op, Step, Target};
#[allow(unused_imports)]
use crate::ops::{
    plain_step, result_of, succeeded, time_left, CountStep, EventView, UnitStep,
};
use crate::session::SessionHandle;

verus! {

/// For how many nanoseconds a writer waits for space: five minutes.
pub const WRITE_WAIT: u128 = 300_000_000_000;

/// A connected session.
#[derive(Debug)]
pub struct VclStream {
    pub handle: SessionHandle,
}

// ---- reading ----

/// Reading once, into a buffer of which `from` bytes are filled already.
#[derive(Debug, Clone, Copy)]
pub struct StreamRead {
    pub from: usize,
    pub phase: LoopPhase,
}

/// The reader and its step after an event. Nothing to read means that the peer
/// has closed the session.
pub open spec fn read_next(s: StreamRead, event: EventView) -> (StreamRead, CountStep) {
    match (s.phase, event) {
        (LoopPhase::Calling, Event::Count(Ok(n))) => (
            StreamRead { phase: LoopPhase::Finished, ..s },
            Step::Done(
                if n == 0 {
                    Err(VclError::Closed)
                } else {
                    Ok(n)
                },
            ),
        ),
        (LoopPhase::Calling, Event::Count(Err(e))) => if e is WouldBlock {
            (
                StreamRead { phase: LoopPhase::Waiting, ..s },
                Step::Do(Op::WaitReadable { timeout: RECEIVE_WAIT }),
            )
        } else {
            (StreamRead { phase: LoopPhase::Finished, ..s }, Step::Done(Err(e)))
        },
        (LoopPhase::Waiting, Event::Unit(Ok(_))) => (
            StreamRead { phase: LoopPhase::Calling, ..s },
            Step::Do(Op::ReadInto { from: s.from }),
        ),
        (LoopPhase::Waiting, Event::Unit(Err(e))) => (
            StreamRead { phase: LoopPhase::Finished, ..s },
            Step::Done(Err(e)),
        ),
        _ => (s, Step::Ignored),
    }
}

impl StreamRead {
    fn start(from: usize) -> (r: (StreamRead, Step<usize>))
        ensures
            r.0 == (StreamRead { from, phase: LoopPhase::Calling }),
            plain_step(r.1) == CountStep::Do(Op::ReadInto { from }),
    {
        (StreamRead { from, phase: LoopPhase::Calling }, Step::Do(Op::ReadInto { from }))
    }

    /// Moves the reader on by one event.
    pub fn step(self, event: Event) -> (next: (StreamRead, Step<usize>))
        ensures
            (next.0, plain_step(next.1)) == read_next(self, event@),
    {
        let from = self.from;
        match (self.phase, event) {
            (LoopPhase::Calling, Event::Count(Ok(n))) => {
                let done = StreamRead { from, phase: LoopPhase::Finished };
                if n == 0 {
                    (done, Step::Done(Err(VclError::Closed)))
                } else {
                    (done, Step::Done(Ok(n)))
                }
            },
            (LoopPhase::Calling, Event::Count(Err(e))) => match e {
                VclError::WouldBlock => (
                    StreamRead { from, phase: LoopPhase::Waiting },
                    Step::Do(Op::WaitReadable { timeout: RECEIVE_WAIT }),
                ),
                other => (
                    StreamRead { from, phase: LoopPhase::Finished },
                    Step::Done(Err(other)),
                ),
            },
            (LoopPhase::Waiting, Event::Unit(Ok(()))) => StreamRead::start(from),
            (LoopPhase::Waiting, Event::Unit(Err(e))) => (
                StreamRead { from, phase: LoopPhase::Finished },
                Step::Done(Err(e)),
            ),
            _ => (self, Step::Ignored),
        }
    }
}

/// A reader never reports success without a byte: it ends with at least one, or
/// with `Closed` at the end of the stream, or with the failure of the call or of
/// the wait; that the call would block is never the result.
pub proof fn a_read_brings_bytes(s: StreamRead, event: EventView)
    ensures
        read_next(s, event).1 matches Step::Done(Ok(n)) ==> n > 0 && event == EventView::Count(
            Ok(n),
        ),
        s.phase is Calling && event == EventView::Count(Ok(0)) ==> read_next(s, event).1
            == CountStep::Done(Err(VclError::Closed)),
        read_next(s, event).1 matches Step::Done(Err(e)) ==> !(e is WouldBlock && s.phase
            is Calling),
{
}

/// Filling a buffer of `len` bytes, reading as often as it takes.
#[derive(Debug, Clone, Copy)]
pub struct ReadExact {
    pub len: usize,
    pub read: StreamRead,
}

impl ReadExact {
    /// Something is left to read until the buffer is full.
    pub open spec fn wf(self) -> bool {
        !(self.read.phase is Finished) ==> self.read.from < self.len
    }

    /// The call returned no more bytes than were asked for.
    pub open spec fn fits(self, event: EventView) -> bool {
        self.read.phase is Calling ==> (event matches Event::Count(Ok(n)) ==> n <= self.len
            - self.read.from)
    }
}

/// The reader and its step after an event.
pub open spec fn read_exact_next(s: ReadExact, event: EventView) -> (ReadExact, UnitStep) {
    let (read, step) = read_next(s.read, event);
    match step {
        Step::Do(op) => (ReadExact { read, ..s }, Step::Do(op)),
        Step::Done(Err(e)) => (ReadExact { read, ..s }, Step::Done(Err(e))),
        Step::Done(Ok(n)) => if s.read.from + n >= s.len {
            (
                ReadExact { read: StreamRead { from: s.len, phase: LoopPhase::Finished }, ..s },
                Step::Done(Ok(())),
            )
        } else {
            let from = (s.read.from + n) as usize;
            (
                ReadExact { read: StreamRead { from, phase: LoopPhase::Calling }, ..s },
                Step::Do(Op::ReadInto { from }),
            )
        },
        _ => (s, Step::Ignored),
    }
}

impl ReadExact {
    /// Moves the reader on by one event.
    pub fn step(self, event: Event) -> (next: (ReadExact, Step<()>))
        requires
            self.wf(),
        ensures
            (next.0, plain_step(next.1)) == read_exact_next(self, event@),
            next.0.wf(),
    {
        let len = self.len;
        let (read, step) = self.read.step(event);
        match step {
            Step::Do(op) => (ReadExact { len, read }, Step::Do(op)),
            Step::Done(Err(e)) => (ReadExact { len, read }, Step::Done(Err(e))),
            Step::Done(Ok(n)) => {
                if n >= len - self.read.from {
                    (
                        ReadExact {
                            len,
                            read: StreamRead { from: len, phase: LoopPhase::Finished },
                        },
                        Step::Done(Ok(())),
                    )
                } else {
                    let from: usize = self.read.from + n;
                    (
                        ReadExact {
                            len,
                            read: StreamRead { from, phase: LoopPhase::Calling },
                        },
                        Step::Do(Op::ReadInto { from }),
                    )
                }
            },
            _ => (self, Step::Ignored),
        }
    }
}

/// The reader after a sequence of events.
pub open spec fn read_exact_run(s: ReadExact, events: Seq<EventView>) -> ReadExact
    decreases events.len(),
{
    if events.len() == 0 {
        s
    } else {
        read_exact_next(read_exact_run(s, events.drop_last()), events.last()).0
    }
}

/// No call in the sequence returned more bytes than were asked for.
pub open spec fn read_exact_fits(s: ReadExact, events: Seq<EventView>) -> bool
    decreases events.len(),
{
    events.len() > 0 ==> {
        &&& read_exact_fits(s, events.drop_last())
        &&& read_exact_run(s, events.drop_last()).fits(events.last())
    }
}

/// How many bytes an event brings.
pub open spec fn brought(s: ReadExact, event: EventView) -> nat {
    match (s.read.phase, event) {
        (LoopPhase::Calling, Event::Count(Ok(n))) => n as nat,
        _ => 0,
    }
}

/// How many bytes a sequence of events brings.
pub open spec fn all_brought(s: ReadExact, events: Seq<EventView>) -> nat
    decreases events.len(),
{
    if events.len() == 0 {
        0
    } else {
        all_brought(s, events.drop_last()) + brought(
            read_exact_run(s, events.drop_last()),
            events.last(),
        )
    }
}

proof fn read_exact_counts(len: usize, events: Seq<EventView>)
    requires
        len > 0,
        read_exact_fits(read_exact_start(len), events),
    ensures
        ({
            let s = read_exact_run(read_exact_start(len), events);
            &&& s.wf() && s.len == len
            &&& !(s.read.phase is Finished) ==> s.read.from == all_brought(
                read_exact_start(len),
                events,
            )
        }),
    decreases events.len(),
{
    if events.len() > 0 {
        read_exact_counts(len, events.drop_last());
    }
}

/// A fill that has not begun.
pub open spec fn read_exact_start(len: usize) -> ReadExact {
    ReadExact { len, read: StreamRead { from: 0, phase: LoopPhase::Calling } }
}

/// A fill succeeds only when the reads have brought exactly as many bytes as the
/// buffer holds, each read going on where the one before it ended.
pub proof fn read_exact_fills_the_buffer(len: usize, events: Seq<EventView>, last: EventView)
    requires
        len > 0,
        read_exact_fits(read_exact_start(len), events.push(last)),
    ensures
        read_exact_next(read_exact_run(read_exact_start(len), events), last).1 matches Step::Done(
            Ok(_),
        ) ==> all_brought(read_exact_start(len), events.push(last)) == len,
        read_exact_next(read_exact_run(read_exact_start(len), events), last).1 matches Step::Do(
            Op::ReadInto { from },
        ) ==> from == all_brought(read_exact_start(len), events.push(last)) && from < len,
{
    assert(events.push(last).drop_last() =~= events);
    read_exact_counts(len, events);
    read_exact_counts(len, events.push(last));
}

// ---- writing ----

/// Writing a buffer of `len` bytes, as often as it takes; the first `from` were
/// taken.
#[derive(Debug, Clone, Copy)]
pub struct WriteAll {
    pub len: usize,
    pub from: usize,
    pub phase: LoopPhase,
}

impl WriteAll {
    /// Something is left to write until all is written.
    pub open spec fn wf(self) -> bool {
        !(self.phase is Finished) ==> self.from < self.len
    }

    /// The call took no more bytes than were offered.
    pub open spec fn fits(self, event: EventView) -> bool {
        self.phase is Calling ==> (event matches Event::Count(Ok(n)) ==> n <= self.len
            - self.from)
    }
}

/// The writer and its step after an event.
pub open spec fn write_all_next(s: WriteAll, event: EventView) -> (WriteAll, UnitStep) {
    match (s.phase, event) {
        (LoopPhase::Calling, Event::Count(Ok(n))) => if s.from + n >= s.len {
            (
                WriteAll { from: s.len, phase: LoopPhase::Finished, ..s },
                Step::Done(Ok(())),
            )
        } else {
            let from = (s.from + n) as usize;
            (WriteAll { from, ..s }, Step::Do(Op::WriteFrom { from }))
        },
        (LoopPhase::Calling, Event::Count(Err(e))) => if e is WouldBlock {
            (
                WriteAll { phase: LoopPhase::Waiting, ..s },
                Step::Do(Op::WaitWritable { timeout: WRITE_WAIT }),
            )
        } else {
            (WriteAll { phase: LoopPhase::Finished, ..s }, Step::Done(Err(e)))
        },
        (LoopPhase::Waiting, Event::Unit(Ok(_))) => (
            WriteAll { phase: LoopPhase::Calling, ..s },
            Step::Do(Op::WriteFrom { from: s.from }),
        ),
        (LoopPhase::Waiting, Event::Unit(Err(e))) => (
            WriteAll { phase: LoopPhase::Finished, ..s },
            Step::Done(Err(e)),
        ),
        _ => (s, Step::Ignored),
    }
}

impl WriteAll {
    /// Moves the writer on by one event.
    pub fn step(self, event: Event) -> (next: (WriteAll, Step<()>))
        requires
            self.wf(),
        ensures
            (next.0, plain_step(next.1)) == write_all_next(self, event@),
            next.0.wf(),
    {
        match (self.phase, event) {
            (LoopPhase::Calling, Event::Count(Ok(n))) => {
                if n >= self.len - self.from {
                    (
                        WriteAll { from: self.len, phase: LoopPhase::Finished, ..self },
                        Step::Done(Ok(())),
                    )
                } else {
                    let from: usize = self.from + n;
                    (WriteAll { from, ..self }, Step::Do(Op::WriteFrom { from }))
                }
            },
            (LoopPhase::Calling, Event::Count(Err(e))) => match e {
                VclError::WouldBlock => (
                    WriteAll { phase: LoopPhase::Waiting, ..self },
                    Step::Do(Op::WaitWritable { timeout: WRITE_WAIT }),
                ),
                other => (
                    WriteAll { phase: LoopPhase::Finished, ..self },
                    Step::Done(Err(other)),
                ),
            },
            (LoopPhase::Waiting, Event::Unit(Ok(()))) => (
                WriteAll { phase: LoopPhase::Calling, ..self },
                Step::Do(Op::WriteFrom { from: self.from }),
            ),
            (LoopPhase::Waiting, Event::Unit(Err(e))) => (
                WriteAll { phase: LoopPhase::Finished, ..self },
                Step::Done(Err(e)),
            ),
            _ => (self, Step::Ignored),
        }
    }
}

/// The writer after a sequence of events.
pub open spec fn write_all_run(s: WriteAll, events: Seq<EventView>) -> WriteAll
    decreases events.len(),
{
    if events.len() == 0 {
        s
    } else {
        write_all_next(write_all_run(s, events.drop_last()), events.last()).0
    }
}

/// No call in the sequence took more bytes than were offered.
pub open spec fn write_all_fits(s: WriteAll, events: Seq<EventView>) -> bool
    decreases events.len(),
{
    events.len() > 0 ==> {
        &&& write_all_fits(s, events.drop_last())
        &&& write_all_run(s, events.drop_last()).fits(events.last())
    }
}

/// The bytes of `buf` that an event says were taken.
pub open spec fn took(buf: Seq<u8>, s: WriteAll, event: EventView) -> Seq<u8> {
    match (s.phase, event) {
        (LoopPhase::Calling, Event::Count(Ok(n))) => buf.subrange(s.from as int, s.from + n),
        _ => Seq::empty(),
    }
}

/// The bytes of `buf` that a sequence of events says were taken, in order.
pub open spec fn all_took(buf: Seq<u8>, s: WriteAll, events: Seq<EventView>) -> Seq<u8>
    decreases events.len(),
{
    if events.len() == 0 {
        Seq::empty()
    } else {
        all_took(buf, s, events.drop_last()) + took(
            buf,
            write_all_run(s, events.drop_last()),
            events.last(),
        )
    }
}

/// A writing that has not begun.
pub open spec fn write_all_start(len: usize) -> WriteAll {
    WriteAll { len, from: 0, phase: LoopPhase::Calling }
}

/// However a writing goes and ends, the bytes that were taken are a prefix of the
/// buffer: the one that the writer counts.
pub proof fn bytes_taken_are_a_prefix(buf: Seq<u8>, len: usize, events: Seq<EventView>)
    requires
        buf.len() == len,
        len > 0,
        write_all_fits(write_all_start(len), events),
    ensures
        ({
            let s = write_all_run(write_all_start(len), events);
            &&& s.wf() && s.len == len && s.from <= len
            &&& all_took(buf, write_all_start(len), events) == buf.take(s.from as int)
        }),
    decreases events.len(),
{
    let start = write_all_start(len);
    if events.len() > 0 {
        let before = events.drop_last();
        bytes_taken_are_a_prefix(buf, len, before);
        let s = write_all_run(start, before);
        let next = write_all_run(start, events);
        assert(buf.take(s.from as int) + took(buf, s, events.last()) =~= buf.take(
            next.from as int,
        ));
    } else {
        assert(buf.take(0) =~= Seq::<u8>::empty());
    }
}

/// A writing succeeds only when all bytes of the buffer were taken, each once and
/// in order, over however many writes.
pub proof fn write_all_writes_the_buffer(
    buf: Seq<u8>,
    len: usize,
    events: Seq<EventView>,
    last: EventView,
)
    requires
        buf.len() == len,
        len > 0,
        write_all_fits(write_all_start(len), events.push(last)),
    ensures
        write_all_next(write_all_run(write_all_start(len), events), last).1 matches Step::Done(
            Ok(_),
        ) ==> all_took(buf, write_all_start(len), events.push(last)) == buf,
        write_all_next(write_all_run(write_all_start(len), events), last).1 matches Step::Do(
            Op::WriteFrom { from },
        ) ==> from < len && all_took(buf, write_all_start(len), events.push(last)) == buf.take(
            from as int,
        ),
{
    assert(events.push(last).drop_last() =~= events);
    bytes_taken_are_a_prefix(buf, len, events);
    bytes_taken_are_a_prefix(buf, len, events.push(last));
    assert(buf.take(len as int) =~= buf);
}

// ---- connecting ----

/// How a stream is connected.
#[derive(Debug, Clone, Copy)]
pub enum ConnectMode {
    /// By a blocking call on another thread, whose session takes the place of the
    /// first one. That session is not bound to any source.
    Blocking,
    /// By a call that returns at once; the handshake may take `timeout`
    /// nanoseconds from then.
    Async { timeout: u128 },
}

/// How far connecting has come.
#[derive(Debug, Clone, Copy)]
pub enum ConnectPhase {
    Creating,
    SettingNodelay,
    Binding,
    ConnectingBlocking,
    SettingNodelayAgain,
    SettingNonblocking,
    Registering,
    Connecting,
    /// The handshake is under way; its time starts now.
    Stamping,
    /// The session may become writable, which the end of the handshake makes it.
    WaitingWritable { started: u128 },
    /// Something woke the wait, and the session is looked at.
    Looking { started: u128 },
    /// The handshake goes on; the clock is read for the time it has left.
    Rechecking { started: u128 },
    Finished,
}

/// Connecting a stream to `addr`. Where a `source` is given, the session that the
/// operation opens is bound to it; the connection is made from there, unless a
/// blocking call puts another session in its place.
#[derive(Debug, Clone, Copy)]
pub struct Connect {
    pub addr: SocketAddr,
    pub source: Option<SocketAddr>,
    pub mode: ConnectMode,
    pub phase: ConnectPhase,
}

/// What follows once the session has its local address.
pub open spec fn connect_leave(s: Connect) -> (Connect, UnitStep) {
    match s.mode {
        ConnectMode::Blocking => (
            Connect { phase: ConnectPhase::ConnectingBlocking, ..s },
            Step::Do(Op::ConnectBlocking(s.addr)),
        ),
        ConnectMode::Async { .. } => (
            Connect { phase: ConnectPhase::Registering, ..s },
            Step::Do(Op::Register(Target::Own)),
        ),
    }
}

/// Connecting is over with success, and the session is handed out.
pub open spec fn connect_made(s: Connect) -> (Connect, UnitStep) {
    (Connect { phase: ConnectPhase::Finished, ..s }, Step::Done(Ok(())))
}

/// Connecting failed, and closes its session.
pub open spec fn connect_failed(s: Connect, e: VclError<Seq<char>>) -> (Connect, UnitStep) {
    (
        Connect { phase: ConnectPhase::Finished, ..s },
        Step::Close(Close::Session(Target::Own), Err(e)),
    )
}

/// How long the handshake may take.
pub open spec fn handshake_time(mode: ConnectMode) -> u128 {
    match mode {
        ConnectMode::Blocking => 0,
        ConnectMode::Async { timeout } => timeout,
    }
}

/// The wait for the handshake goes on at `now`, in the time that is left of what
/// counts from `started`.
pub open spec fn connect_wait(s: Connect, started: u128, now: u128) -> (Connect, UnitStep) {
    let timeout = time_left(handshake_time(s.mode), started, now);
    if timeout == 0 {
        connect_failed(s, VclError::Timeout)
    } else {
        (
            Connect { phase: ConnectPhase::WaitingWritable { started }, ..s },
            Step::Do(Op::WaitWritable { timeout }),
        )
    }
}

/// The connection and its step after an event.
///
/// That the handshake is under way is no failure of the call that begins it. A
/// wake of the wait does not tell that the handshake is complete, so the session is
/// looked at: while it is not connected, the wait goes on in the time that is left.
pub open spec fn connect_next(s: Connect, event: EventView) -> (Connect, UnitStep) {
    match (s.phase, event) {
        (ConnectPhase::Creating, Event::Unit(Ok(_))) => (
            Connect { phase: ConnectPhase::SettingNodelay, ..s },
            Step::Do(Op::SetNodelay(Target::Own)),
        ),
        (ConnectPhase::SettingNodelay, Event::Elapsed) => match s.source {
            Some(source) => (
                Connect { phase: ConnectPhase::Binding, ..s },
                Step::Do(Op::Bind(source)),
            ),
            None => connect_leave(s),
        },
        (ConnectPhase::Binding, Event::Unit(Ok(_))) => connect_leave(s),
        (ConnectPhase::ConnectingBlocking, Event::Unit(Ok(_))) => (
            Connect { phase: ConnectPhase::SettingNodelayAgain, ..s },
            Step::Do(Op::SetNodelay(Target::Own)),
        ),
        (ConnectPhase::ConnectingBlocking, Event::JoinFailed(text)) => connect_failed(
            s,
            failure("spawn_blocking join: "@ + text),
        ),
        (ConnectPhase::SettingNodelayAgain, Event::Elapsed) => (
            Connect { phase: ConnectPhase::SettingNonblocking, ..s },
            Step::Do(Op::SetNonblocking(Target::Own)),
        ),
        (ConnectPhase::SettingNonblocking, Event::Unit(Ok(_))) => (
            Connect { phase: ConnectPhase::Registering, ..s },
            Step::Do(Op::Register(Target::Own)),
        ),
        (ConnectPhase::Registering, Event::Unit(Ok(_))) => match s.mode {
            ConnectMode::Blocking => connect_made(s),
            ConnectMode::Async { .. } => (
                Connect { phase: ConnectPhase::Connecting, ..s },
                Step::Do(Op::Connect(s.addr)),
            ),
        },
        (ConnectPhase::Connecting, Event::Unit(r)) => if r matches Err(e) && !(e is WouldBlock) {
            connect_failed(s, r->Err_0)
        } else {
            (Connect { phase: ConnectPhase::Stamping, ..s }, Step::Do(Op::ReadClock))
        },
        (ConnectPhase::Stamping, Event::Clock(started)) => (
            Connect { phase: ConnectPhase::WaitingWritable { started }, ..s },
            Step::Do(Op::WaitWritable { timeout: handshake_time(s.mode) }),
        ),
        (ConnectPhase::WaitingWritable { started }, Event::Unit(Ok(_))) => (
            Connect { phase: ConnectPhase::Looking { started }, ..s },
            Step::Do(Op::Look),
        ),
        (ConnectPhase::Looking { started }, Event::Count(r)) => match r {
            Err(VclError::NotConnected) => (
                Connect { phase: ConnectPhase::Rechecking { started }, ..s },
                Step::Do(Op::ReadClock),
            ),
            Err(VclError::WouldBlock) => connect_made(s),
            Err(e) => connect_failed(s, e),
            Ok(_) => connect_made(s),
        },
        (ConnectPhase::Rechecking { started }, Event::Clock(now)) => connect_wait(s, started, now),
        (ConnectPhase::SettingNodelay, _) => (s, Step::Ignored),
        (ConnectPhase::SettingNodelayAgain, _) => (s, Step::Ignored),
        (ConnectPhase::Stamping, _) => (s, Step::Ignored),
        (ConnectPhase::Looking { .. }, _) => (s, Step::Ignored),
        (ConnectPhase::Rechecking { .. }, _) => (s, Step::Ignored),
        (ConnectPhase::Finished, _) => (s, Step::Ignored),
        (ConnectPhase::Creating, Event::Unit(Err(e))) => (
            Connect { phase: ConnectPhase::Finished, ..s },
            Step::Done(Err(e)),
        ),
        (_, Event::Unit(Err(e))) => connect_failed(s, e),
        _ => (s, Step::Ignored),
    }
}

impl Connect {
    /// What is done in the present mode: a call that returns at once is made in
    /// one mode, a call that blocks in the other.
    pub open spec fn wf(self) -> bool {
        match self.phase {
            ConnectPhase::Connecting => self.mode is Async,
            ConnectPhase::Stamping => self.mode is Async,
            ConnectPhase::WaitingWritable { .. } => self.mode is Async,
            ConnectPhase::Looking { .. } => self.mode is Async,
            ConnectPhase::Rechecking { .. } => self.mode is Async,
            ConnectPhase::ConnectingBlocking => self.mode is Blocking,
            ConnectPhase::SettingNodelayAgain => self.mode is Blocking,
            ConnectPhase::SettingNonblocking => self.mode is Blocking,
            _ => true,
        }
    }

    fn enter(self, phase: ConnectPhase, op: Op) -> (next: (Connect, Step<()>))
        ensures
            next.0 == (Connect { phase, ..self }),
            plain_step(next.1) == UnitStep::Do(op),
    {
        (Connect { phase, ..self }, Step::Do(op))
    }

    fn end(self, r: Result<(), VclError>) -> (next: (Connect, Step<()>))
        ensures
            next.0 == (Connect { phase: ConnectPhase::Finished, ..self }),
            next.1 == Step::<()>::Done(r),
    {
        (Connect { phase: ConnectPhase::Finished, ..self }, Step::Done(r))
    }

    fn fail(self, e: VclError) -> (next: (Connect, Step<()>))
        ensures
            (next.0, plain_step(next.1)) == connect_failed(self, e@),
    {
        (
            Connect { phase: ConnectPhase::Finished, ..self },
            Step::Close(Close::Session(Target::Own), Err(e)),
        )
    }

    fn leave(self) -> (next: (Connect, Step<()>))
        ensures
            (next.0, plain_step(next.1)) == connect_leave(self),
    {
        match self.mode {
            ConnectMode::Blocking => self.enter(
                ConnectPhase::ConnectingBlocking,
                Op::ConnectBlocking(self.addr),
            ),
            ConnectMode::Async { .. } => self.enter(
                ConnectPhase::Registering,
                Op::Register(Target::Own),
            ),
        }
    }

    fn connecting(self, r: Result<(), VclError>) -> (next: (Connect, Step<()>))
        requires
            self.phase is Connecting,
        ensures
            (next.0, plain_step(next.1)) == connect_next(self, Event::Unit(r)@),
    {
        match r {
            Ok(()) | Err(VclError::WouldBlock) => self.enter(
                ConnectPhase::Stamping,
                Op::ReadClock,
            ),
            Err(e) => self.fail(e),
        }
    }

    fn handshake_time(&self) -> (timeout: u128)
        ensures
            timeout == handshake_time(self.mode),
    {
        match self.mode {
            ConnectMode::Blocking => 0,
            ConnectMode::Async { timeout } => timeout,
        }
    }

    fn wait(self, started: u128, now: u128) -> (next: (Connect, Step<()>))
        ensures
            (next.0, plain_step(next.1)) == connect_wait(self, started, now),
    {
        let timeout = remaining(self.handshake_time(), started, now);
        if timeout == 0 {
            self.fail(VclError::Timeout)
        } else {
            self.enter(
                ConnectPhase::WaitingWritable { started },
                Op::WaitWritable { timeout },
            )
        }
    }

    fn looked(self, started: u128, r: Result<usize, VclError>) -> (next: (Connect, Step<()>))
        requires
            self.phase == (ConnectPhase::Looking { started }),
        ensures
            (next.0, plain_step(next.1)) == connect_next(self, Event::Count(r)@),
    {
        match r {
            Err(VclError::NotConnected) => self.enter(
                ConnectPhase::Rechecking { started },
                Op::ReadClock,
            ),
            Ok(_) | Err(VclError::WouldBlock) => self.end(Ok(())),
            Err(e) => self.fail(e),
        }
    }

    /// Moves the connection on by one event.
    pub fn step(self, event: Event) -> (next: (Connect, Step<()>))
        ensures
            (next.0, plain_step(next.1)) == connect_next(self, event@),
            self.wf() ==> next.0.wf(),
    {
        match (self.phase, event) {
            (ConnectPhase::Creating, Event::Unit(Ok(()))) => self.enter(
                ConnectPhase::SettingNodelay,
                Op::SetNodelay(Target::Own),
            ),
            (ConnectPhase::SettingNodelay, Event::Elapsed) => match self.source {
                Some(source) => self.enter(ConnectPhase::Binding, Op::Bind(source)),
                None => self.leave(),
            },
            (ConnectPhase::Binding, Event::Unit(Ok(()))) => self.leave(),
            (ConnectPhase::ConnectingBlocking, Event::Unit(Ok(()))) => self.enter(
                ConnectPhase::SettingNodelayAgain,
                Op::SetNodelay(Target::Own),
            ),
            (ConnectPhase::ConnectingBlocking, Event::JoinFailed(text)) => {
                let mut message: String = "spawn_blocking join: ".to_owned();
                message.append(text.as_str());
                self.fail(VclError::failure(message.as_str()))
            },
            (ConnectPhase::SettingNodelayAgain, Event::Elapsed) => self.enter(
                ConnectPhase::SettingNonblocking,
                Op::SetNonblocking(Target::Own),
            ),
            (ConnectPhase::SettingNonblocking, Event::Unit(Ok(()))) => self.enter(
                ConnectPhase::Registering,
                Op::Register(Target::Own),
            ),
            (ConnectPhase::Registering, Event::Unit(Ok(()))) => match self.mode {
                ConnectMode::Blocking => self.end(Ok(())),
                ConnectMode::Async { .. } => self.enter(
                    ConnectPhase::Connecting,
                    Op::Connect(self.addr),
                ),
            },
            (ConnectPhase::Connecting, Event::Unit(r)) => self.connecting(r),
            (ConnectPhase::Stamping, Event::Clock(started)) => self.enter(
                ConnectPhase::WaitingWritable { started },
                Op::WaitWritable { timeout: self.handshake_time() },
            ),
            (ConnectPhase::WaitingWritable { started }, Event::Unit(Ok(()))) => self.enter(
                ConnectPhase::Looking { started },
                Op::Look,
            ),
            (ConnectPhase::Looking { started }, Event::Count(r)) => self.looked(started, r),
            (ConnectPhase::Rechecking { started }, Event::Clock(now)) => self.wait(started, now),
            (ConnectPhase::SettingNodelay, _) => (self, Step::Ignored),
            (ConnectPhase::SettingNodelayAgain, _) => (self, Step::Ignored),
            (ConnectPhase::Stamping, _) => (self, Step::Ignored),
            (ConnectPhase::Looking { .. }, _) => (self, Step::Ignored),
            (ConnectPhase::Rechecking { .. }, _) => (self, Step::Ignored),
            (ConnectPhase::Finished, _) => (self, Step::Ignored),
            (ConnectPhase::Creating, Event::Unit(Err(e))) => self.end(Err(e)),
            (_, Event::Unit(Err(e))) => self.fail(e),
            _ => (self, Step::Ignored),
        }
    }
}

/// A connection that has not begun.
pub open spec fn connect_start(
    addr: SocketAddr,
    source: Option<SocketAddr>,
    mode: ConnectMode,
) -> Connect {
    Connect { addr, source, mode, phase: ConnectPhase::Creating }
}

/// The connection after a sequence of events.
pub open spec fn connect_run(s: Connect, events: Seq<EventView>) -> Connect
    decreases events.len(),
{
    if events.len() == 0 {
        s
    } else {
        connect_next(connect_run(s, events.drop_last()), events.last()).0
    }
}

/// A step of waiting for the handshake, which is taken as often as it is needed.
pub open spec fn is_waiting(op: Op) -> bool {
    op is ReadClock || op is WaitWritable || op is Look
}

/// What has been done by the time of the last of the events, the opening of the
/// session first, but for the steps of waiting.
pub open spec fn connect_trace(s: Connect, events: Seq<EventView>) -> Seq<Op>
    decreases events.len(),
{
    if events.len() == 0 {
        seq![Op::Create { udp: false, nonblocking: true }]
    } else {
        let done = connect_trace(s, events.drop_last());
        match connect_next(connect_run(s, events.drop_last()), events.last()).1 {
            Step::Do(op) => if is_waiting(op) {
                done
            } else {
                done.push(op)
            },
            _ => done,
        }
    }
}

/// The steps that lead to a session with a local address.
pub open spec fn opening_steps(source: Option<SocketAddr>) -> Seq<Op> {
    let opened = seq![Op::Create { udp: false, nonblocking: true }, Op::SetNodelay(Target::Own)];
    match source {
        Some(addr) => opened.push(Op::Bind(addr)),
        None => opened,
    }
}

/// The steps of a connection that is made, in order, but for those of waiting.
pub open spec fn connect_steps(s: Connect) -> Seq<Op> {
    match s.mode {
        ConnectMode::Blocking => opening_steps(s.source) + seq![
            Op::ConnectBlocking(s.addr),
            Op::SetNodelay(Target::Own),
            Op::SetNonblocking(Target::Own),
            Op::Register(Target::Own),
        ],
        ConnectMode::Async { .. } => opening_steps(s.source) + seq![
            Op::Register(Target::Own),
            Op::Connect(s.addr),
        ],
    }
}

/// How many steps lead to the present phase, the step that is awaited being the
/// last of them.
spec fn steps_taken(s: Connect) -> int {
    let opening = opening_steps(s.source).len() as int;
    match s.phase {
        ConnectPhase::Creating => 1,
        ConnectPhase::SettingNodelay => 2,
        ConnectPhase::Binding => 3,
        ConnectPhase::ConnectingBlocking => opening + 1,
        ConnectPhase::SettingNodelayAgain => opening + 2,
        ConnectPhase::SettingNonblocking => opening + 3,
        ConnectPhase::Registering => if s.mode is Blocking {
            opening + 4
        } else {
            opening + 1
        },
        ConnectPhase::Finished => 0,
        _ => opening + 2,
    }
}

proof fn connect_follows_its_steps(s: Connect, events: Seq<EventView>)
    requires
        s.phase is Creating,
    ensures
        ({
            let now = connect_run(s, events);
            &&& now == (Connect { phase: now.phase, ..s })
            &&& now.wf()
            &&& now.phase is Binding ==> s.source is Some
            &&& !(now.phase is Finished) ==> connect_trace(s, events) == connect_steps(s).take(
                steps_taken(now),
            )
        }),
    decreases events.len(),
{
    if events.len() > 0 {
        connect_follows_its_steps(s, events.drop_last());
        let before = connect_run(s, events.drop_last());
        let now = connect_run(s, events);
        if !(now.phase is Finished) {
            assert(connect_trace(s, events) =~= connect_steps(s).take(steps_taken(now)));
        }
    } else {
        assert(connect_trace(s, events) =~= connect_steps(s).take(1));
    }
}

/// A connection that is made has taken every step of its kind, once and in order:
/// a given source is bound before anything is connected; without a blocking call
/// the session is registered before the handshake begins; after a blocking call the
/// session that took the place of the first is in non-blocking mode before it is
/// registered.
pub proof fn connection_takes_every_step(s: Connect, events: Seq<EventView>, last: EventView)
    requires
        s.phase is Creating,
    ensures
        connect_next(connect_run(s, events), last).1 matches Step::Done(Ok(_)) ==> connect_trace(
            s,
            events.push(last),
        ) == connect_steps(s),
{
    assert(events.push(last).drop_last() =~= events);
    connect_follows_its_steps(s, events);
    let now = connect_run(s, events);
    if connect_next(now, last).1 matches Step::Done(Ok(_)) {
        assert(connect_steps(s).take(steps_taken(now)) =~= connect_steps(s));
    }
}

/// The answer of a look at a session whose handshake has completed.
pub open spec fn is_connected(event: EventView) -> bool {
    event matches Event::Count(Ok(_)) || event matches Event::Count(Err(VclError::WouldBlock))
}

/// A stream that is connected without a blocking call is ready: connecting succeeds
/// only after a look at the session, and only where that shows that the handshake
/// has completed. A wake of the wait, whatever it came from, is followed by a look
/// and never by success.
pub proof fn connected_stream_is_ready(s: Connect, event: EventView)
    requires
        s.wf(),
        s.mode is Async,
    ensures
        connect_next(s, event).1 matches Step::Done(Ok(_)) ==> s.phase is Looking
            && is_connected(event),
        s.phase is Looking && is_connected(event) ==> connect_next(s, event).1 matches Step::Done(
            Ok(_),
        ),
        s.phase is WaitingWritable && succeeded(event) ==> connect_next(s, event).1
            == UnitStep::Do(Op::Look),
        connect_next(s, event).0.phase is Looking && !(s.phase is Looking) ==> s.phase
            is WaitingWritable && succeeded(event),
{
}

/// While a look shows that the handshake goes on, the wait goes on too: in the time
/// that is left, and until none is.
pub proof fn handshake_has_its_time(s: Connect, event: EventView, timeout: u128)
    requires
        s.mode == (ConnectMode::Async { timeout }),
    ensures
        s.phase is Looking && event == EventView::Count(Err(VclError::NotConnected)) ==> (
        connect_next(s, event).1 == UnitStep::Do(Op::ReadClock) && connect_next(s, event).0.phase
            is Rechecking),
        (s.phase matches ConnectPhase::Rechecking { started } && event matches Event::Clock(now)
            && now >= started + timeout) ==> connect_next(s, event) == connect_failed(
            s,
            VclError::Timeout,
        ),
        (s.phase matches ConnectPhase::Rechecking { started } && event matches Event::Clock(now)
            && started <= now < started + timeout) ==> connect_next(s, event).1 == UnitStep::Do(
            Op::WaitWritable {
                timeout: time_left(timeout, s.phase->Rechecking_started, event->Clock_0),
            },
        ),
        connect_next(s, event).1 matches Step::Do(Op::WaitWritable { timeout: t }) ==> t
            <= timeout,
{
}

/// A connection that fails closes its session: connecting ends with nothing to close
/// only where it succeeds, and the session is handed out, or where the session could
/// not be opened.
pub proof fn failed_connection_closes_its_session(s: Connect, event: EventView)
    ensures
        connect_next(s, event).1 matches Step::Close(close, r) ==> close == Close::Session(
            Target::Own,
        ) && r is Err && !(s.phase is Creating) && !(s.phase is Finished),
        connect_next(s, event).1 matches Step::Done(Err(e)) ==> s.phase is Creating && event
            == EventView::Unit(Err(e)),
{
}

/// How far the blocking connection has come.
#[derive(Debug, Clone, Copy)]
pub enum BlockingPhase {
    Creating,
    Connecting,
    Finished,
}

/// Opening a blocking session and connecting it, on a thread that may block.
#[derive(Debug, Clone, Copy)]
pub struct BlockingConnect {
    pub addr: SocketAddr,
    pub phase: BlockingPhase,
}

/// The blocking connection and its step after an event.
pub open spec fn blocking_next(s: BlockingConnect, event: EventView) -> (
    BlockingConnect,
    UnitStep,
) {
    match (s.phase, event) {
        (BlockingPhase::Creating, Event::Unit(Ok(_))) => (
            BlockingConnect { phase: BlockingPhase::Connecting, ..s },
            Step::Do(Op::Connect(s.addr)),
        ),
        (BlockingPhase::Creating, Event::Unit(Err(e))) => (
            BlockingConnect { phase: BlockingPhase::Finished, ..s },
            Step::Done(Err(e)),
        ),
        (BlockingPhase::Connecting, Event::Unit(Ok(_))) => (
            BlockingConnect { phase: BlockingPhase::Finished, ..s },
            Step::Done(Ok(())),
        ),
        (BlockingPhase::Connecting, Event::Unit(Err(e))) => (
            BlockingConnect { phase: BlockingPhase::Finished, ..s },
            Step::Close(Close::Session(Target::Own), Err(e)),
        ),
        _ => (s, Step::Ignored),
    }
}

impl BlockingConnect {
    /// Begins to connect a session to `addr`. A session whose connection fails is
    /// closed.
    pub fn start(addr: SocketAddr) -> (r: (BlockingConnect, Step<()>))
        ensures
            r.0 == (BlockingConnect { addr, phase: BlockingPhase::Creating }),
            plain_step(r.1) == UnitStep::Do(Op::Create { udp: false, nonblocking: false }),
    {
        (
            BlockingConnect { addr, phase: BlockingPhase::Creating },
            Step::Do(Op::Create { udp: false, nonblocking: false }),
        )
    }

    /// Moves the blocking connection on by one event.
    pub fn step(self, event: Event) -> (next: (BlockingConnect, Step<()>))
        ensures
            (next.0, plain_step(next.1)) == blocking_next(self, event@),
    {
        match (self.phase, event) {
            (BlockingPhase::Creating, Event::Unit(Ok(()))) => (
                BlockingConnect { phase: BlockingPhase::Connecting, ..self },
                Step::Do(Op::Connect(self.addr)),
            ),
            (BlockingPhase::Creating, Event::Unit(Err(e))) => (
                BlockingConnect { phase: BlockingPhase::Finished, ..self },
                Step::Done(Err(e)),
            ),
            (BlockingPhase::Connecting, Event::Unit(Ok(()))) => (
                BlockingConnect { phase: BlockingPhase::Finished, ..self },
                Step::Done(Ok(())),
            ),
            (BlockingPhase::Connecting, Event::Unit(Err(e))) => (
                BlockingConnect { phase: BlockingPhase::Finished, ..self },
                Step::Close(Close::Session(Target::Own), Err(e)),
            ),
            _ => (self, Step::Ignored),
        }
    }
}

impl VclStream {
    /// Begins to connect to `addr`, by a call that blocks another thread for as long
    /// as the handshake takes.
    ///
    /// A given `source` is bound on the session that is opened first. The session
    /// that the blocking call connects takes its place, and VPP picks the address
    /// that one is connected from.
    pub fn connect(addr: SocketAddr, source: Option<SocketAddr>) -> (r: (Connect, Step<()>))
        ensures
            r.0 == connect_start(addr, source, ConnectMode::Blocking),
            plain_step(r.1) == UnitStep::Do(Op::Create { udp: false, nonblocking: true }),
    {
        (
            Connect { addr, source, mode: ConnectMode::Blocking, phase: ConnectPhase::Creating },
            Step::Do(Op::Create { udp: false, nonblocking: true }),
        )
    }

    /// Begins to connect to `addr`, from `source` where one is given, without a
    /// blocking call; the handshake may take `timeout` nanoseconds. On success it
    /// has completed, and the stream is ready for use.
    pub fn connect_async(addr: SocketAddr, source: Option<SocketAddr>, timeout: u128) -> (r: (
        Connect,
        Step<()>,
    ))
        ensures
            r.0 == connect_start(addr, source, ConnectMode::Async { timeout }),
            plain_step(r.1) == UnitStep::Do(Op::Create { udp: false, nonblocking: true }),
    {
        (
            Connect {
                addr,
                source,
                mode: ConnectMode::Async { timeout },
                phase: ConnectPhase::Creating,
            },
            Step::Do(Op::Create { udp: false, nonblocking: true }),
        )
    }

    /// Begins to read once, into the caller's buffer. The result is the number of
    /// bytes read, or `Closed` at the end of the stream.
    pub fn read() -> (r: (StreamRead, Step<usize>))
        ensures
            r.0 == (StreamRead { from: 0, phase: LoopPhase::Calling }),
            plain_step(r.1) == CountStep::Do(Op::ReadInto { from: 0 }),
    {
        StreamRead::start(0)
    }

    /// Begins to fill the caller's buffer of `len` bytes. The result is `Closed`
    /// where the stream ends before that.
    pub fn read_exact(len: usize) -> (r: (ReadExact, Step<()>))
        ensures
            len > 0 ==> r.0 == read_exact_start(len),
            len > 0 ==> plain_step(r.1) == UnitStep::Do(Op::ReadInto { from: 0 }),
            len == 0 ==> r.0.read.phase is Finished,
            len == 0 ==> r.1 == Step::<()>::Done(Ok(())),
            r.0.wf(),
    {
        if len == 0 {
            (
                ReadExact { len, read: StreamRead { from: 0, phase: LoopPhase::Finished } },
                Step::Done(Ok(())),
            )
        } else {
            (
                ReadExact { len, read: StreamRead { from: 0, phase: LoopPhase::Calling } },
                Step::Do(Op::ReadInto { from: 0 }),
            )
        }
    }

    /// Begins to write the caller's buffer of `len` bytes, in as many writes as it
    /// takes.
    pub fn write_all(len: usize) -> (r: (WriteAll, Step<()>))
        ensures
            len > 0 ==> r.0 == write_all_start(len),
            len > 0 ==> plain_step(r.1) == UnitStep::Do(Op::WriteFrom { from: 0 }),
            len == 0 ==> r.0.phase is Finished,
            len == 0 ==> r.1 == Step::<()>::Done(Ok(())),
            r.0.wf(),
    {
        if len == 0 {
            (WriteAll { len, from: 0, phase: LoopPhase::Finished }, Step::Done(Ok(())))
        } else {
            (
                WriteAll { len, from: 0, phase: LoopPhase::Calling },
                Step::Do(Op::WriteFrom { from: 0 }),
            )
        }
    }

    /// The local address, where the session gave one.
    pub fn local_addr(answer: Result<SocketAddr, VclError>) -> (addr: Option<SocketAddr>)
        ensures
            addr == answer.ok(),
    {
        answer.ok()
    }

    /// The peer's address, where the session gave one.
    pub fn peer_addr(answer: Result<SocketAddr, VclError>) -> (addr: Option<SocketAddr>)
        ensures
            addr == answer.ok(),
    {
        answer.ok()
    }
}

// ---- what a stream is for ----

/// Bytes that are not there yet are waited for, for up to 300 seconds, and a wait that
/// succeeded leads back to the very same read.
pub proof fn absent_bytes_are_waited_for(s: StreamRead, x: ReadExact)
    requires
        s.phase is Calling,
        x.read.phase is Calling,
    ensures
        ({
            let (waiting, wait) = read_next(s, Event::Count(Err(VclError::WouldBlock)));
            let (again, read) = read_next(waiting, Event::Unit(Ok(())));
            &&& wait == CountStep::Do(Op::WaitReadable { timeout: 300_000_000_000 })
            &&& read == CountStep::Do(Op::ReadInto { from: s.from })
            &&& again == s
        }),
        ({
            let (waiting, wait) = read_exact_next(x, Event::Count(Err(VclError::WouldBlock)));
            let (again, read) = read_exact_next(waiting, Event::Unit(Ok(())));
            &&& wait == UnitStep::Do(Op::WaitReadable { timeout: 300_000_000_000 })
            &&& read == UnitStep::Do(Op::ReadInto { from: x.read.from })
            &&& again == x
        }),
{
}

/// A read ends exactly with the bytes that its call brought, at least one; with the
/// failure of the call, other than that nothing was there yet; at the end of the stream;
/// or with the failure of the wait. What answers nothing that it asked for changes
/// nothing.
pub proof fn read_ends_only_for_a_reason(
    s: StreamRead,
    event: EventView,
    n: usize,
    e: VclError<Seq<char>>,
)
    ensures
        read_next(s, event).1 == CountStep::Done(Ok(n)) <==> s.phase is Calling && event
            == EventView::Count(Ok(n)) && n > 0,
        read_next(s, event).1 == CountStep::Done(Err(e)) <==> match s.phase {
            LoopPhase::Calling => (event == EventView::Count(Err(e)) && !(e is WouldBlock)) || (
            event == EventView::Count(Ok(0)) && e is Closed),
            LoopPhase::Waiting => event == EventView::Unit(Err(e)),
            LoopPhase::Finished => false,
        },
        read_next(s, event).0.from == s.from,
        !(read_next(s, event).1 is Close),
        read_next(s, event).1 is Ignored ==> read_next(s, event).0 == s,
        read_next(s, event).1 is Ignored <==> match s.phase {
            LoopPhase::Calling => !(event is Count),
            LoopPhase::Waiting => !(event is Unit),
            LoopPhase::Finished => true,
        },
{
}

/// A fill goes on behind the bytes that a read brought until the buffer is full, which
/// ends it with success.
pub proof fn fill_goes_on_until_full(s: ReadExact, n: usize)
    requires
        s.wf(),
        s.read.phase is Calling,
        0 < n <= s.len - s.read.from,
    ensures
        ({
            let (next, step) = read_exact_next(s, Event::Count(Ok(n)));
            &&& next.len == s.len && next.read.from == s.read.from + n
            &&& s.read.from + n == s.len <==> (step matches Step::Done(Ok(_)))
            &&& s.read.from + n < s.len ==> next.read.phase is Calling && step == UnitStep::Do(
                Op::ReadInto { from: (s.read.from + n) as usize },
            )
        }),
{
}

/// A fill fails exactly where one of its reads does: with the failure of the call, other
/// than that nothing was there yet; with the end of the stream before the buffer is full;
/// or with the failure of the wait. What answers nothing that it asked for changes
/// nothing.
pub proof fn fill_fails_only_for_a_reason(s: ReadExact, event: EventView, e: VclError<Seq<char>>)
    ensures
        read_exact_next(s, event).1 == UnitStep::Done(Err(e)) <==> match s.read.phase {
            LoopPhase::Calling => (event == EventView::Count(Err(e)) && !(e is WouldBlock)) || (
            event == EventView::Count(Ok(0)) && e is Closed),
            LoopPhase::Waiting => event == EventView::Unit(Err(e)),
            LoopPhase::Finished => false,
        },
        read_exact_next(s, event).0.len == s.len,
        !(read_exact_next(s, event).1 is Close),
        read_exact_next(s, event).1 is Ignored ==> read_exact_next(s, event).0 == s,
        read_exact_next(s, event).1 is Ignored <==> match s.read.phase {
            LoopPhase::Calling => !(event is Count),
            LoopPhase::Waiting => !(event is Unit),
            LoopPhase::Finished => true,
        },
{
}

/// Space that is not there yet is waited for, for up to 300 seconds, and a wait that
/// succeeded leads back to the very same write.
pub proof fn absent_write_space_is_waited_for(s: WriteAll)
    requires
        s.phase is Calling,
    ensures
        ({
            let (waiting, wait) = write_all_next(s, Event::Count(Err(VclError::WouldBlock)));
            let (again, write) = write_all_next(waiting, Event::Unit(Ok(())));
            &&& wait == UnitStep::Do(Op::WaitWritable { timeout: 300_000_000_000 })
            &&& write == UnitStep::Do(Op::WriteFrom { from: s.from })
            &&& again == s
        }),
{
}

/// A writing goes on behind the bytes that a write took, none included, until all are
/// taken, which ends it with success.
pub proof fn writing_goes_on_until_all_is_taken(s: WriteAll, n: usize)
    requires
        s.wf(),
        s.phase is Calling,
        n <= s.len - s.from,
    ensures
        ({
            let (next, step) = write_all_next(s, Event::Count(Ok(n)));
            &&& next.len == s.len && next.from == s.from + n
            &&& s.from + n == s.len <==> (step matches Step::Done(Ok(_)))
            &&& s.from + n < s.len ==> next.phase is Calling && step == UnitStep::Do(
                Op::WriteFrom { from: (s.from + n) as usize },
            )
        }),
{
}

/// A writing fails exactly with the failure of its call, other than that there was no
/// space, or of the wait. What answers nothing that it asked for changes nothing.
pub proof fn writing_fails_only_for_a_reason(s: WriteAll, event: EventView, e: VclError<Seq<char>>)
    ensures
        write_all_next(s, event).1 == UnitStep::Done(Err(e)) <==> match s.phase {
            LoopPhase::Calling => event == EventView::Count(Err(e)) && !(e is WouldBlock),
            LoopPhase::Waiting => event == EventView::Unit(Err(e)),
            LoopPhase::Finished => false,
        },
        write_all_next(s, event).0.len == s.len,
        !(write_all_next(s, event).1 is Close),
        write_all_next(s, event).1 is Ignored ==> write_all_next(s, event).0 == s,
        write_all_next(s, event).1 is Ignored <==> match s.phase {
            LoopPhase::Calling => !(event is Count),
            LoopPhase::Waiting => !(event is Unit),
            LoopPhase::Finished => true,
        },
{
}

/// A connection whose steps succeed is made. The session is opened, small segments are not
/// to be delayed, and a given source is bound; then, by a blocking call, the peer is
/// connected, and the session that it left is made ready and registered; or, without one,
/// the session is registered and then connected to the peer.
pub proof fn connection_goes_on_to_its_peer(s: Connect)
    requires
        s.phase is Creating,
    ensures
        ({
            let (nodelay, first) = connect_next(s, Event::Unit(Ok(())));
            let (second, op) = connect_next(nodelay, Event::Elapsed);
            let (bound, bound_op) = if s.source is Some {
                connect_next(second, Event::Unit(Ok(())))
            } else {
                (second, op)
            };
            &&& first == UnitStep::Do(Op::SetNodelay(Target::Own))
            &&& s.source matches Some(source) ==> op == UnitStep::Do(Op::Bind(source))
            &&& s.mode is Blocking ==> {
                let (again, again_op) = connect_next(bound, Event::Unit(Ok(())));
                let (nonblocking, nonblocking_op) = connect_next(again, Event::Elapsed);
                let (registering, register) = connect_next(nonblocking, Event::Unit(Ok(())));
                let (_, end) = connect_next(registering, Event::Unit(Ok(())));
                &&& bound_op == UnitStep::Do(Op::ConnectBlocking(s.addr))
                &&& again_op == UnitStep::Do(Op::SetNodelay(Target::Own))
                &&& nonblocking_op == UnitStep::Do(Op::SetNonblocking(Target::Own))
                &&& register == UnitStep::Do(Op::Register(Target::Own))
                &&& end matches Step::Done(Ok(_))
            }
            &&& s.mode is Async ==> {
                let (connecting, connect) = connect_next(bound, Event::Unit(Ok(())));
                &&& bound_op == UnitStep::Do(Op::Register(Target::Own))
                &&& connect == UnitStep::Do(Op::Connect(s.addr))
                &&& connecting == (Connect { phase: ConnectPhase::Connecting, ..s })
            }
        }),
{
}

/// A handshake that has begun, whether its call returned at once or would block, is waited
/// for in its whole time; a wake leads to a look, and a look at a connected session ends
/// the connection with success.
pub proof fn handshake_goes_on_to_its_end(
    s: Connect,
    begun: EventView,
    looked: EventView,
    timeout: u128,
    started: u128,
)
    requires
        s.phase is Connecting,
        s.mode == (ConnectMode::Async { timeout }),
        succeeded(begun) || begun == EventView::Unit(Err(VclError::WouldBlock)),
        (looked matches Event::Count(Ok(_))) || looked == EventView::Count(
            Err(VclError::WouldBlock),
        ),
    ensures
        ({
            let (stamping, stamp) = connect_next(s, begun);
            let (waiting, wait) = connect_next(stamping, Event::Clock(started));
            let (looking, look) = connect_next(waiting, Event::Unit(Ok(())));
            let (_, end) = connect_next(looking, looked);
            &&& stamp == UnitStep::Do(Op::ReadClock)
            &&& wait == UnitStep::Do(Op::WaitWritable { timeout })
            &&& look == UnitStep::Do(Op::Look)
            &&& end matches Step::Done(Ok(_))
        }),
{
}

/// A wake before the handshake is complete leads, in the time that is left, back to the
/// very same wait, now for just that time; once no time is left, to a timeout.
pub proof fn early_wake_is_followed_by_another_wait(
    s: Connect,
    timeout: u128,
    started: u128,
    now: u128,
)
    requires
        s.mode == (ConnectMode::Async { timeout }),
        s.phase == (ConnectPhase::WaitingWritable { started }),
        started <= now,
    ensures
        ({
            let (looking, look) = connect_next(s, Event::Unit(Ok(())));
            let (checking, check) = connect_next(
                looking,
                Event::Count(Err(VclError::NotConnected)),
            );
            let (again, wait) = connect_next(checking, Event::Clock(now));
            &&& look == UnitStep::Do(Op::Look)
            &&& check == UnitStep::Do(Op::ReadClock)
            &&& now - started < timeout ==> again == s && wait == UnitStep::Do(
                Op::WaitWritable { timeout: (timeout - (now - started)) as u128 },
            )
            &&& now - started >= timeout ==> result_of(wait) == Some(
                Err::<(), VclError<Seq<char>>>(VclError::Timeout),
            )
        }),
{
}

/// Connecting fails exactly for a reason: with the failure of the step that it asked for,
/// where that a handshake would block is none, nor that a look finds it under way; with
/// the failure of the thread that blocks; or with a timeout once no time is left.
pub proof fn connecting_fails_only_for_a_reason(
    s: Connect,
    event: EventView,
    e: VclError<Seq<char>>,
)
    requires
        s.wf(),
    ensures
        result_of(connect_next(s, event).1) == Some(Err::<(), VclError<Seq<char>>>(e))
            <==> match (s.phase, event) {
            (ConnectPhase::Finished, _) => false,
            (ConnectPhase::SettingNodelay, _) => false,
            (ConnectPhase::SettingNodelayAgain, _) => false,
            (ConnectPhase::Stamping, _) => false,
            (ConnectPhase::Connecting, Event::Unit(Err(f))) => f == e && !(e is WouldBlock),
            (ConnectPhase::Looking { .. }, Event::Count(Err(f))) => f == e && !(e is WouldBlock)
                && !(e is NotConnected),
            (ConnectPhase::Looking { .. }, _) => false,
            (ConnectPhase::Rechecking { started }, Event::Clock(now)) => e is Timeout && (now
                >= started + handshake_time(s.mode) || handshake_time(s.mode) == 0) && (s.mode
                matches ConnectMode::Async { timeout } && timeout == handshake_time(s.mode)),
            (ConnectPhase::Rechecking { .. }, _) => false,
            (ConnectPhase::ConnectingBlocking, Event::JoinFailed(text)) => e matches VclError::Api(
                why,
                rc,
            ) && why == "spawn_blocking join: "@ + text && rc == -1,
            (_, Event::Unit(Err(f))) => f == e,
            _ => false,
        },
{
}

/// Each failure of a step that a connection asked for ends it with that failure.
pub proof fn failed_step_ends_the_connection(s: Connect, e: VclError<Seq<char>>, text: Seq<char>)
    ensures
        (s.phase is Creating || s.phase is Binding || s.phase is ConnectingBlocking || s.phase
            is SettingNonblocking || s.phase is Registering || s.phase is WaitingWritable || (
        s.phase is Connecting && !(e is WouldBlock))) ==> result_of(
            connect_next(s, Event::Unit(Err(e))).1,
        ) == Some(Err::<(), VclError<Seq<char>>>(e)),
        s.phase is Looking && !(e is WouldBlock) && !(e is NotConnected) ==> result_of(
            connect_next(s, Event::Count(Err(e))).1,
        ) == Some(Err::<(), VclError<Seq<char>>>(e)),
        s.phase is ConnectingBlocking ==> result_of(
            connect_next(s, Event::JoinFailed(text)).1,
        ) is Some,
{
}

/// Whatever happens, a connection keeps its peer, its source and its way; the only address
/// that it binds is its source, and the only one that it connects to is its peer. What
/// answers nothing that it asked for changes nothing.
pub proof fn connecting_keeps_its_inputs(s: Connect, event: EventView)
    ensures
        ({
            let next = connect_next(s, event).0;
            next.addr == s.addr && next.source == s.source && next.mode == s.mode
        }),
        connect_next(s, event).1 matches Step::Do(Op::Bind(addr)) ==> s.source == Some(addr),
        connect_next(s, event).1 matches Step::Do(Op::Connect(addr)) ==> addr == s.addr && s.mode
            is Async,
        connect_next(s, event).1 matches Step::Do(Op::ConnectBlocking(addr)) ==> addr == s.addr
            && s.mode is Blocking,
        connect_next(s, event).1 is Ignored ==> connect_next(s, event).0 == s,
        connect_next(s, event).1 is Ignored <==> match s.phase {
            ConnectPhase::SettingNodelay => !(event is Elapsed),
            ConnectPhase::SettingNodelayAgain => !(event is Elapsed),
            ConnectPhase::Stamping => !(event is Clock),
            ConnectPhase::Rechecking { .. } => !(event is Clock),
            ConnectPhase::Looking { .. } => !(event is Count),
            ConnectPhase::ConnectingBlocking => !(event is Unit) && !(event is JoinFailed),
            ConnectPhase::Finished => true,
            _ => !(event is Unit),
        },
{
}

/// A connection begins with what it was asked for, and nothing done.
pub proof fn connection_begins_with_its_inputs(
    addr: SocketAddr,
    source: Option<SocketAddr>,
    mode: ConnectMode,
    len: usize,
)
    ensures
        ({
            let s = connect_start(addr, source, mode);
            s.addr == addr && s.source == source && s.mode == mode && s.phase is Creating
        }),
        read_exact_start(len).len == len && read_exact_start(len).read.from == 0
            && read_exact_start(len).read.phase is Calling,
        write_all_start(len).len == len && write_all_start(len).from == 0 && write_all_start(
            len,
        ).phase is Calling,
{
}

/// A blocking connection opens its session, connects it to its peer, and is made; its
/// failures are those of the two steps, and the session that could not be connected is
/// closed. What answers nothing that it asked for changes nothing.
pub proof fn blocking_connection_connects_its_peer(
    s: BlockingConnect,
    event: EventView,
    e: VclError<Seq<char>>,
)
    ensures
        s.phase is Creating && succeeded(event) ==> blocking_next(s, event) == (
            BlockingConnect { phase: BlockingPhase::Connecting, ..s },
            UnitStep::Do(Op::Connect(s.addr)),
        ),
        (blocking_next(s, event).1 matches Step::Done(Ok(_))) <==> s.phase is Connecting
            && succeeded(event),
        result_of(blocking_next(s, event).1) == Some(Err::<(), VclError<Seq<char>>>(e))
            <==> !(s.phase is Finished) && event == EventView::Unit(Err(e)),
        blocking_next(s, event).1 is Close <==> s.phase is Connecting && (event
            matches Event::Unit(Err(_))),
        blocking_next(s, event).1 matches Step::Close(close, _) ==> close == Close::Session(
            Target::Own,
        ),
        blocking_next(s, event).0.addr == s.addr,
        blocking_next(s, event).1 is Ignored ==> blocking_next(s, event).0 == s,
        blocking_next(s, event).1 is Ignored <==> s.phase is Finished || !(event is Unit),
{
}

} // verus!
