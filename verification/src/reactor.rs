//! Waiting for sessions to become ready.
//!
//! VCL tells of ready sessions through a message queue, whose descriptor becomes
//! readable when any session has an event. The reactor owns an epoll set of
//! sessions and a notifier for each session that a task waits on. When the
//! descriptor is readable the epoll set is drained, and the notifier of each
//! session with an event is signalled.
//!
//! # Masked events
//!
//! VPP marks a session when it tells of it, and clears the mark only when the
//! session has been drained. A session that a reader drained in part stays marked,
//! and nothing more is told of it. So the reactor ticks: each tick drains the set
//! and then signals every waiter, whether or not its session had an event. The
//! woken task tries again and makes progress.

use std::collections::HashMap;

use vstd::prelude::*;
#[allow(unused_imports)]
use vstd::std_specs::iter::IteratorSpec;

use crate::error::{host_errnos, ErrnoCodes, IoError, Result, VclError};
#[allow(unused_imports)]
use crate::error::{classify, text_view};
#[allow(unused_imports)]
use crate::ffi::EPOLL_CTL_ADD;
use crate::ffi::{epoll_event, VclCall};
use crate::ffi::{EPOLL_CTL_DEL, SESSION_EVENTS};
use crate::ops::deadline;
#[allow(unused_imports)]
use crate::ops::deadline_after;
use crate::session::{epoll_wait, SessionHandle};

verus! {

/// Nanoseconds between two ticks: ten milliseconds.
pub const TICK: u128 = 10_000_000;

/// Two ticks at least this many nanoseconds apart, half a second, mean that the
/// thread was blocked between them; scheduling alone delays no tick that long.
pub const STALL_THRESHOLD: u128 = 500_000_000;

/// After how many nanoseconds the ticker tells again that it is alive: a minute.
pub const ALIVE_INTERVAL: u128 = 60_000_000_000;

/// How many events one call takes from the epoll set.
pub const EVENT_BATCH: usize = 64;

/// The epoll set and the notifiers of the sessions that tasks wait on.
pub struct VclReactor<N> {
    /// The handle of the epoll set.
    pub vep: u32,
    /// The notifier of each session that a task waits on.
    pub waiters: HashMap<u32, N>,
}

/// The session that an event tells of: the low 32 bits of its data.
pub open spec fn session_of(event: epoll_event) -> u32 {
    (event.data as int % 0x1_0000_0000) as u32
}

/// The sessions that the events tell of, in order.
pub open spec fn sessions_of(events: Seq<epoll_event>) -> Seq<u32> {
    Seq::new(events.len(), |i: int| session_of(events[i]))
}

/// The waiting sessions that the events tell of, one for each event, in order.
pub open spec fn signalled(waiting: Set<u32>, events: Seq<epoll_event>) -> Seq<u32> {
    sessions_of(events).filter(|s: u32| waiting.contains(s))
}

/// What one batch of events leads to.
#[derive(Debug, PartialEq, Eq)]
pub struct Drained {
    /// The sessions whose notifiers are to be signalled, in order.
    pub notify: Vec<u32>,
    /// More events may be left.
    pub again: bool,
}

// ---- creation ----

/// How far the creation of a reactor has come.
#[derive(Debug, Clone, Copy, PartialEq, Eq)]
pub enum SetupPhase {
    CreatingEpoll,
    /// The epoll set is `vep`; the descriptor of the message queue is asked for.
    FetchingQueue { vep: u32 },
    /// The runtime is to watch that descriptor.
    WatchingQueue { vep: u32 },
    Finished,
}

/// Creating a reactor.
#[derive(Debug, Clone, Copy)]
pub struct ReactorSetup {
    pub phase: SetupPhase,
}

/// A new reactor, and its ticker with the first step.
pub struct Started<N> {
    pub reactor: VclReactor<N>,
    pub ticker: Ticker,
    pub step: TickStep,
}

/// What the creation of a reactor does next.
pub enum SetupStep<N> {
    /// Open an epoll set, and hand the code that came back to
    /// [`ReactorSetup::created`].
    CreateEpoll,
    /// Call `vppcom_mq_epoll_fd`, and hand what it returns to
    /// [`ReactorSetup::fetched`].
    FetchQueue,
    /// Have the runtime watch this descriptor, and hand what came of it to
    /// [`ReactorSetup::watched`].
    WatchQueue { fd: i32 },
    /// The creation is over. The reactor is to be ticked as long as it is there.
    Done(Result<Started<N>>),
    /// What was handed over answers nothing that was asked for; the state is
    /// unchanged.
    Ignored,
}

/// The creation is over with the failure `e`.
pub open spec fn setup_failed<N>(
    r: (ReactorSetup, SetupStep<N>),
    e: VclError<Seq<char>>,
) -> bool {
    r.0.phase is Finished && (r.1 matches SetupStep::Done(Err(f)) && f@ == e)
}

/// What was handed over changed nothing.
pub open spec fn setup_ignored<N>(s: ReactorSetup, r: (ReactorSetup, SetupStep<N>)) -> bool {
    r.0 == s && r.1 is Ignored
}

impl ReactorSetup {
    fn fail<N>(e: VclError) -> (r: (ReactorSetup, SetupStep<N>))
        ensures
            setup_failed(r, e@),
    {
        (ReactorSetup { phase: SetupPhase::Finished }, SetupStep::Done(Err(e)))
    }

    /// The creation of the epoll set returned `rc`, on a host whose error numbers
    /// are `codes`; `known` is the text that VCL knows for the code. Only then is
    /// the message queue asked for.
    pub fn created_with<N>(self, rc: i32, codes: &ErrnoCodes, known: Option<&str>) -> (r: (
        ReactorSetup,
        SetupStep<N>,
    ))
        ensures
            !(self.phase is CreatingEpoll) ==> setup_ignored(self, r),
            self.phase is CreatingEpoll && rc < 0 ==> setup_failed(
                r,
                classify(*codes, rc, text_view(known)),
            ),
            self.phase is CreatingEpoll && rc >= 0 ==> r.0.phase == (SetupPhase::FetchingQueue {
                vep: rc as u32,
            }) && r.1 is FetchQueue,
    {
        match self.phase {
            SetupPhase::CreatingEpoll => if rc < 0 {
                ReactorSetup::fail(VclError::from_rc_with(rc, codes, known))
            } else {
                (
                    ReactorSetup { phase: SetupPhase::FetchingQueue { vep: rc as u32 } },
                    SetupStep::FetchQueue,
                )
            },
            _ => (self, SetupStep::Ignored),
        }
    }

    /// The creation of the epoll set returned `rc`.
    pub fn created<N>(self, rc: i32, known: Option<&str>) -> (r: (ReactorSetup, SetupStep<N>))
        ensures
            !(self.phase is CreatingEpoll) ==> setup_ignored(self, r),
            self.phase is CreatingEpoll && rc < 0 ==> exists|codes: ErrnoCodes|
                #![trigger codes.distinct()]
                codes.distinct() && setup_failed(r, classify(codes, rc, text_view(known))),
            self.phase is CreatingEpoll && rc >= 0 ==> r.0.phase == (SetupPhase::FetchingQueue {
                vep: rc as u32,
            }) && r.1 is FetchQueue,
    {
        let codes = host_errnos();
        self.created_with(rc, &codes, known)
    }

    /// `vppcom_mq_epoll_fd` returned `fd`.
    pub fn fetched<N>(self, fd: i32) -> (r: (ReactorSetup, SetupStep<N>))
        ensures
            match self.phase {
                SetupPhase::FetchingQueue { vep } => if fd < 0 {
                    setup_failed(r, VclError::Api("vppcom_mq_epoll_fd returned negative"@, fd))
                } else {
                    r.0.phase == (SetupPhase::WatchingQueue { vep }) && (r.1 matches
                        SetupStep::WatchQueue { fd: watched } && watched == fd)
                },
                _ => setup_ignored(self, r),
            },
    {
        match self.phase {
            SetupPhase::FetchingQueue { vep } => if fd < 0 {
                ReactorSetup::fail(
                    VclError::Api("vppcom_mq_epoll_fd returned negative".to_owned(), fd),
                )
            } else {
                (
                    ReactorSetup { phase: SetupPhase::WatchingQueue { vep } },
                    SetupStep::WatchQueue { fd },
                )
            },
            _ => (self, SetupStep::Ignored),
        }
    }

    /// The runtime watches the descriptor, or failed to; it is `now`. The new reactor
    /// is over the epoll set that was created, no task waits yet, and its ticker
    /// starts.
    pub fn watched<N>(self, outcome: std::result::Result<(), IoError>, now: u128) -> (r: (
        ReactorSetup,
        SetupStep<N>,
    ))
        ensures
            match (self.phase, outcome) {
                (SetupPhase::WatchingQueue { vep }, Ok(_)) => r.0.phase is Finished && (r.1 matches
                    SetupStep::Done(Ok(started)) && started.reactor.vep == vep
                    && started.reactor.waiters@ == Map::<u32, N>::empty() && started.ticker
                    == ticker_start(now) && started.step@ == first_tick_step()),
                (SetupPhase::WatchingQueue { .. }, Err(e)) => setup_failed(r, VclError::Io(e@)),
                _ => setup_ignored(self, r),
            },
    {
        match (self.phase, outcome) {
            (SetupPhase::WatchingQueue { vep }, Ok(())) => {
                let reactor = VclReactor { vep, waiters: HashMap::new() };
                let (ticker, step) = Ticker::new(now);
                (
                    ReactorSetup { phase: SetupPhase::Finished },
                    SetupStep::Done(Ok(Started { reactor, ticker, step })),
                )
            },
            (SetupPhase::WatchingQueue { .. }, Err(e)) => ReactorSetup::fail(VclError::Io(e)),
            _ => (self, SetupStep::Ignored),
        }
    }
}

// ---- sessions and waiters ----

impl<N> VclReactor<N> {
    /// The sessions that tasks wait on.
    pub open spec fn waiting(self) -> Set<u32> {
        self.waiters@.dom()
    }

    /// Begins to create a reactor, with the epoll set.
    pub fn new() -> (r: (ReactorSetup, SetupStep<N>))
        ensures
            r.0.phase is CreatingEpoll,
            r.1 is CreateEpoll,
    {
        (ReactorSetup { phase: SetupPhase::CreatingEpoll }, SetupStep::CreateEpoll)
    }

    /// Adds a session to the epoll set, to be watched for reads and writes,
    /// edge-triggered. Its events carry the session's handle.
    pub fn register(&self, session_handle: u32) -> (call: VclCall)
        ensures
            call == (VclCall::EpollCtl {
                vep: self.vep,
                op: EPOLL_CTL_ADD,
                session: session_handle,
                event: Some(epoll_event { events: SESSION_EVENTS, data: session_handle as u64 }),
            }),
    {
        SessionHandle(session_handle).watch(self.vep, SESSION_EVENTS)
    }

    /// Forgets the notifier of a session, and removes the session from the epoll
    /// set.
    pub fn deregister(&mut self, session_handle: u32) -> (call: VclCall)
        ensures
            final(self).vep == old(self).vep,
            final(self).waiters@ == old(self).waiters@.remove(session_handle),
            call == (VclCall::EpollCtl {
                vep: old(self).vep,
                op: EPOLL_CTL_DEL,
                session: session_handle,
                event: None,
            }),
    {
        self.waiters.remove(&session_handle);
        VclCall::EpollCtl {
            vep: self.vep,
            op: EPOLL_CTL_DEL,
            session: session_handle,
            event: None,
        }
    }

    /// Gives a session up: forgets its notifier, removes it from the epoll set and
    /// closes it, in this order. This is how streams, listeners and datagram sockets
    /// end; a session that is closed first would leave its notifier behind.
    pub fn retire(&mut self, session: SessionHandle) -> (calls: [VclCall; 2])
        ensures
            final(self).vep == old(self).vep,
            final(self).waiters@ == old(self).waiters@.remove(session.0),
            calls@ == seq![
                VclCall::EpollCtl {
                    vep: old(self).vep,
                    op: EPOLL_CTL_DEL,
                    session: session.0,
                    event: None,
                },
                VclCall::SessionClose { session: session.0 },
            ],
    {
        let calls: [VclCall; 2] = [self.deregister(session.0), session.close()];
        assert(calls@ =~= seq![calls@[0], calls@[1]]);
        calls
    }

    /// Gives a session the notifier `fresh`, unless it has one.
    pub fn enlist(&mut self, session_handle: u32, fresh: N)
        ensures
            final(self).vep == old(self).vep,
            final(self).waiters@ == enlisted(old(self).waiters@, session_handle, fresh),
    {
        if !self.waiters.contains_key(&session_handle) {
            self.waiters.insert(session_handle, fresh);
        }
    }

    /// The notifier of a session that a task waits on.
    pub fn waiter(&self, session_handle: u32) -> (notifier: Option<&N>)
        ensures
            match notifier {
                Some(n) => self.waiters@.contains_key(session_handle) && *n
                    == self.waiters@[session_handle],
                None => !self.waiters@.contains_key(session_handle),
            },
    {
        self.waiters.get(&session_handle)
    }

    /// Takes a batch of events from the epoll set, without waiting.
    pub fn drain_call(&self) -> (call: VclCall)
        ensures
            call == (VclCall::EpollWait {
                vep: self.vep,
                max_events: EVENT_BATCH as u32,
                wait_ms: 0,
            }),
    {
        epoll_wait(self.vep, EVENT_BATCH as u32, 0)
    }

    /// What a batch of events leads to: `n` is what the call returned, `events` the
    /// buffer that it filled.
    pub fn drain_events(&self, n: i32, events: &[epoll_event]) -> (r: Drained)
        requires
            n <= events@.len(),
        ensures
            n <= 0 ==> r.notify@.len() == 0 && !r.again,
            n > 0 ==> r.notify@ == signalled(self.waiting(), events@.take(n as int)),
            n > 0 ==> (r.again <==> n == events@.len()),
    {
        let mut notify: Vec<u32> = Vec::new();
        if n <= 0 {
            return Drained { notify, again: false };
        }
        let count: usize = n as usize;
        let mut i: usize = 0;
        reveal(Seq::filter);
        while i < count
            invariant
                i <= count <= events@.len(),
                notify@ == signalled(self.waiting(), events@.take(i as int)),
            decreases count - i,
        {
            let session: u32 = (events[i].data % 0x1_0000_0000) as u32;
            proof {
                reveal(Seq::filter);
                let sessions = sessions_of(events@.take(i + 1));
                assert(sessions.drop_last() =~= sessions_of(events@.take(i as int)));
                assert(sessions.last() == session);
            }
            if self.waiters.contains_key(&session) {
                notify.push(session);
            }
            i = i + 1;
        }
        Drained { notify, again: count >= events.len() }
    }

    /// Every session that a task waits on, in no particular order: whom a tick
    /// signals.
    pub fn everyone(&self) -> (sessions: Vec<u32>)
        ensures
            sessions@.to_set() == self.waiting(),
            sessions@.no_duplicates(),
    {
        let mut sessions: Vec<u32> = Vec::new();
        let keys = self.waiters.keys();
        let ghost all = keys.remaining().unref();
        for key in it: keys
            invariant
                it.seq().unref() == all,
                sessions@ == all.take(it.index()),
        {
            sessions.push(*key);
            assert(sessions@ =~= all.take(it.index() + 1));
        }
        assert(sessions@ =~= all);
        sessions
    }
}

// ---- waiting for one session ----

/// Something to do for a task that waits.
#[derive(Debug, Clone, Copy, PartialEq, Eq)]
pub enum WaitOp {
    /// Wait until the message queue is readable, the session's notifier is
    /// signalled or the clock shows `deadline`. Answered by [`Wake::Queue`],
    /// [`Wake::Notified`] or [`Wake::Expired`].
    Select { deadline: u128 },
    /// Drain the epoll set, acknowledge the message queue and look, without
    /// waiting, whether the session's notifier is signalled. Answered by
    /// [`Wake::Checked`].
    DrainAndCheck,
}

/// What woke a task that waits.
#[derive(Debug, PartialEq, Eq)]
pub enum Wake<S = String> {
    Queue(std::result::Result<(), IoError<S>>),
    Notified,
    Expired,
    /// Whether the session's notifier was signalled.
    Checked(bool),
}

/// What a wait does next.
#[derive(Debug, PartialEq, Eq)]
pub enum WaitStep<S = String> {
    /// Perform this and hand back what came of it.
    Do(WaitOp),
    /// The wait is over.
    Done(std::result::Result<(), VclError<S>>),
    /// The event answers nothing that the wait asked for; its state is unchanged.
    Ignored,
}

impl View for Wake {
    type V = Wake<Seq<char>>;

    open spec fn view(&self) -> Wake<Seq<char>> {
        match *self {
            Wake::Queue(Ok(())) => Wake::Queue(Ok(())),
            Wake::Queue(Err(e)) => Wake::Queue(Err(e@)),
            Wake::Notified => Wake::Notified,
            Wake::Expired => Wake::Expired,
            Wake::Checked(signalled) => Wake::Checked(signalled),
        }
    }
}

impl View for WaitStep {
    type V = WaitStep<Seq<char>>;

    open spec fn view(&self) -> WaitStep<Seq<char>> {
        match *self {
            WaitStep::Do(op) => WaitStep::Do(op),
            WaitStep::Done(Ok(())) => WaitStep::Done(Ok(())),
            WaitStep::Done(Err(e)) => WaitStep::Done(Err(e@)),
            WaitStep::Ignored => WaitStep::Ignored,
        }
    }
}

/// Where a wait stands.
#[derive(Debug, Clone, Copy, PartialEq, Eq)]
pub enum WaitPhase {
    Selecting,
    Checking,
    Finished,
}

/// Waiting, up to a deadline, for a session to become ready.
#[derive(Debug, Clone, Copy)]
pub struct WaitEvent {
    pub deadline: u128,
    pub phase: WaitPhase,
}

/// The wait and its step after something woke it.
///
/// A readable message queue may be about other sessions: where the notifier of
/// this one was not signalled, the wait goes on.
pub open spec fn wait_next(s: WaitEvent, wake: Wake<Seq<char>>) -> (
    WaitEvent,
    WaitStep<Seq<char>>,
) {
    match (s.phase, wake) {
        (WaitPhase::Selecting, Wake::Queue(Ok(_))) => (
            WaitEvent { phase: WaitPhase::Checking, ..s },
            WaitStep::Do(WaitOp::DrainAndCheck),
        ),
        (WaitPhase::Selecting, Wake::Queue(Err(e))) => (
            WaitEvent { phase: WaitPhase::Finished, ..s },
            WaitStep::Done(Err(VclError::Io(e))),
        ),
        (WaitPhase::Selecting, Wake::Notified) => (
            WaitEvent { phase: WaitPhase::Finished, ..s },
            WaitStep::Done(Ok(())),
        ),
        (WaitPhase::Selecting, Wake::Expired) => (
            WaitEvent { phase: WaitPhase::Finished, ..s },
            WaitStep::Done(Err(VclError::Timeout)),
        ),
        (WaitPhase::Checking, Wake::Checked(signalled)) => if signalled {
            (WaitEvent { phase: WaitPhase::Finished, ..s }, WaitStep::Done(Ok(())))
        } else {
            (
                WaitEvent { phase: WaitPhase::Selecting, ..s },
                WaitStep::Do(WaitOp::Select { deadline: s.deadline }),
            )
        },
        _ => (s, WaitStep::Ignored),
    }
}

impl WaitEvent {
    /// Moves the wait on after something woke it.
    pub fn step(self, wake: Wake) -> (next: (WaitEvent, WaitStep))
        ensures
            (next.0, next.1@) == wait_next(self, wake@),
    {
        match (self.phase, wake) {
            (WaitPhase::Selecting, Wake::Queue(Ok(()))) => (
                WaitEvent { phase: WaitPhase::Checking, ..self },
                WaitStep::Do(WaitOp::DrainAndCheck),
            ),
            (WaitPhase::Selecting, Wake::Queue(Err(e))) => (
                WaitEvent { phase: WaitPhase::Finished, ..self },
                WaitStep::Done(Err(VclError::Io(e))),
            ),
            (WaitPhase::Selecting, Wake::Notified) => (
                WaitEvent { phase: WaitPhase::Finished, ..self },
                WaitStep::Done(Ok(())),
            ),
            (WaitPhase::Selecting, Wake::Expired) => (
                WaitEvent { phase: WaitPhase::Finished, ..self },
                WaitStep::Done(Err(VclError::Timeout)),
            ),
            (WaitPhase::Checking, Wake::Checked(signalled)) => if signalled {
                (WaitEvent { phase: WaitPhase::Finished, ..self }, WaitStep::Done(Ok(())))
            } else {
                (
                    WaitEvent { phase: WaitPhase::Selecting, ..self },
                    WaitStep::Do(WaitOp::Select { deadline: self.deadline }),
                )
            },
            _ => (self, WaitStep::Ignored),
        }
    }
}

/// A wait that has not begun.
pub open spec fn wait_start(now: u128, timeout: u128) -> WaitEvent {
    WaitEvent { deadline: deadline_after(now, timeout), phase: WaitPhase::Selecting }
}

impl<N> VclReactor<N> {
    fn wait_event(&mut self, session_handle: u32, fresh: N, now: u128, timeout: u128) -> (r: (
        WaitEvent,
        WaitStep,
    ))
        ensures
            final(self).vep == old(self).vep,
            final(self).waiters@ == enlisted(old(self).waiters@, session_handle, fresh),
            r.0 == wait_start(now, timeout),
            r.1@ == WaitStep::<Seq<char>>::Do(
                WaitOp::Select { deadline: deadline_after(now, timeout) },
            ),
    {
        self.enlist(session_handle, fresh);
        let deadline = deadline(now, timeout);
        (
            WaitEvent { deadline, phase: WaitPhase::Selecting },
            WaitStep::Do(WaitOp::Select { deadline }),
        )
    }

    /// Begins to wait, for at most `timeout` nanoseconds from `now`, until a
    /// session has data to read or a connection to accept. The session keeps the
    /// notifier it has, or gets `fresh`.
    pub fn wait_readable(&mut self, session_handle: u32, fresh: N, now: u128, timeout: u128) -> (r:
        (WaitEvent, WaitStep))
        ensures
            final(self).vep == old(self).vep,
            final(self).waiters@ == enlisted(old(self).waiters@, session_handle, fresh),
            r.0 == wait_start(now, timeout),
            r.1@ == WaitStep::<Seq<char>>::Do(
                WaitOp::Select { deadline: deadline_after(now, timeout) },
            ),
    {
        self.wait_event(session_handle, fresh, now, timeout)
    }

    /// Begins to wait, for at most `timeout` nanoseconds from `now`, until a
    /// session takes data or its connection is made. The session keeps the
    /// notifier it has, or gets `fresh`.
    pub fn wait_writable(&mut self, session_handle: u32, fresh: N, now: u128, timeout: u128) -> (r:
        (WaitEvent, WaitStep))
        ensures
            final(self).vep == old(self).vep,
            final(self).waiters@ == enlisted(old(self).waiters@, session_handle, fresh),
            r.0 == wait_start(now, timeout),
            r.1@ == WaitStep::<Seq<char>>::Do(
                WaitOp::Select { deadline: deadline_after(now, timeout) },
            ),
    {
        self.wait_event(session_handle, fresh, now, timeout)
    }
}

/// The notifiers once a session has one: its own, or `fresh`.
pub open spec fn enlisted<N>(waiters: Map<u32, N>, session: u32, fresh: N) -> Map<u32, N> {
    if waiters.contains_key(session) {
        waiters
    } else {
        waiters.insert(session, fresh)
    }
}

// ---- ticking ----

/// Where a ticker stands.
#[derive(Debug, Clone, Copy, PartialEq, Eq)]
pub enum TickPhase {
    Sleeping,
    Draining,
    Signalling,
    Stopped,
}

/// The ticker of a reactor, with the clock readings that it keeps: of the last
/// tick, and of the last time it told that it is alive.
#[derive(Debug, Clone, Copy)]
pub struct Ticker {
    pub prev_tick: u128,
    pub last_alive: u128,
    pub phase: TickPhase,
}

/// What came of a step of a ticker.
#[derive(Debug, Clone, Copy, PartialEq, Eq)]
pub enum TickEvent {
    /// The sleep is over at `now`.
    Woke { now: u128 },
    /// The epoll set is drained.
    Drained,
    /// The sessions are signalled; it is `now`.
    Signalled { now: u128 },
}

/// What a ticker does next. The sessions are listed in a `Vec` when the program
/// runs and are a set in contracts.
#[derive(Debug, PartialEq, Eq)]
pub enum TickStep<L = Vec<u32>> {
    /// Sleep for so many nanoseconds.
    Sleep { nanos: u128 },
    /// Drain the epoll set.
    Drain,
    /// Signal the notifiers of these sessions.
    Signal(L),
    /// The reactor is gone, and the ticker is over.
    Stop,
    /// The event answers nothing that the ticker asked for; its state is unchanged.
    Ignored,
}

/// What there is to tell of a tick.
#[derive(Debug, Clone, Copy, PartialEq, Eq)]
pub enum TickReport {
    Nothing,
    /// The thread was blocked for so many milliseconds before the tick.
    Stalled { ms: u64 },
    /// The ticker is alive.
    Alive,
}

impl View for TickStep {
    type V = TickStep<Set<u32>>;

    open spec fn view(&self) -> TickStep<Set<u32>> {
        match *self {
            TickStep::Sleep { nanos } => TickStep::Sleep { nanos },
            TickStep::Drain => TickStep::Drain,
            TickStep::Signal(sessions) => TickStep::Signal(sessions@.to_set()),
            TickStep::Stop => TickStep::Stop,
            TickStep::Ignored => TickStep::Ignored,
        }
    }
}

/// A step of a ticker in the terms of contracts.
pub type TickView = TickStep<Set<u32>>;

/// How long after `then` it is at `now`.
pub open spec fn since(now: u128, then: u128) -> int {
    if now < then {
        0
    } else {
        now - then
    }
}

fn elapsed(now: u128, then: u128) -> (d: u128)
    ensures
        d == since(now, then),
{
    if now < then {
        0
    } else {
        now - then
    }
}

/// What a tick at `now` tells of the time before it.
pub open spec fn stall_report(now: u128, prev_tick: u128) -> TickReport {
    if since(now, prev_tick) >= STALL_THRESHOLD {
        TickReport::Stalled {
            ms: (since(now, prev_tick) / 1_000_000 % 0x1_0000_0000_0000_0000) as u64,
        }
    } else {
        TickReport::Nothing
    }
}

/// The ticker, its step and its report after an event; `waiting` holds the sessions
/// that tasks wait on, while the reactor is there.
///
/// Each tick drains the epoll set and then signals every waiter. A tick that finds
/// the reactor gone is the last.
pub open spec fn tick_next(t: Ticker, event: TickEvent, waiting: Option<Set<u32>>) -> (
    Ticker,
    TickView,
    TickReport,
) {
    match (t.phase, event) {
        (TickPhase::Sleeping, TickEvent::Woke { now }) => {
            let report = stall_report(now, t.prev_tick);
            match waiting {
                Some(_) => (
                    Ticker { prev_tick: now, phase: TickPhase::Draining, ..t },
                    TickStep::Drain,
                    report,
                ),
                None => (
                    Ticker { prev_tick: now, phase: TickPhase::Stopped, ..t },
                    TickStep::Stop,
                    report,
                ),
            }
        },
        (TickPhase::Draining, TickEvent::Drained) => match waiting {
            Some(sessions) => (
                Ticker { phase: TickPhase::Signalling, ..t },
                TickStep::Signal(sessions),
                TickReport::Nothing,
            ),
            None => (
                Ticker { phase: TickPhase::Stopped, ..t },
                TickStep::Stop,
                TickReport::Nothing,
            ),
        },
        (TickPhase::Signalling, TickEvent::Signalled { now }) => if since(now, t.last_alive)
            >= ALIVE_INTERVAL {
            (
                Ticker { last_alive: now, phase: TickPhase::Sleeping, ..t },
                TickStep::Sleep { nanos: TICK },
                TickReport::Alive,
            )
        } else {
            (
                Ticker { phase: TickPhase::Sleeping, ..t },
                TickStep::Sleep { nanos: TICK },
                TickReport::Nothing,
            )
        },
        _ => (t, TickStep::Ignored, TickReport::Nothing),
    }
}

/// A ticker that starts at `now`.
pub open spec fn ticker_start(now: u128) -> Ticker {
    Ticker { prev_tick: now, last_alive: now, phase: TickPhase::Sleeping }
}

/// The first step of a ticker: it ticks without delay.
pub open spec fn first_tick_step() -> TickView {
    TickStep::Sleep { nanos: 0 }
}

/// The sessions that tasks wait on, while the reactor is there.
pub open spec fn waiting_of<N>(reactor: Option<&VclReactor<N>>) -> Option<Set<u32>> {
    match reactor {
        Some(reactor) => Some(reactor.waiting()),
        None => None,
    }
}

impl Ticker {
    /// A ticker that starts at `now`. It ticks at once the first time.
    pub fn new(now: u128) -> (r: (Ticker, TickStep))
        ensures
            r.0 == ticker_start(now),
            r.1@ == first_tick_step(),
    {
        (
            Ticker { prev_tick: now, last_alive: now, phase: TickPhase::Sleeping },
            TickStep::Sleep { nanos: 0 },
        )
    }

    /// Moves the ticker on by one event; `reactor` is the reactor, while it is
    /// there. Sessions to be signalled are listed once each.
    pub fn step<N>(self, event: TickEvent, reactor: Option<&VclReactor<N>>) -> (r: (
        Ticker,
        TickStep,
        TickReport,
    ))
        ensures
            (r.0, r.1@, r.2) == tick_next(self, event, waiting_of(reactor)),
            r.1 matches TickStep::Signal(sessions) ==> sessions@.no_duplicates(),
    {
        match (self.phase, event) {
            (TickPhase::Sleeping, TickEvent::Woke { now }) => {
                let gap: u128 = elapsed(now, self.prev_tick);
                let report = if gap >= STALL_THRESHOLD {
                    TickReport::Stalled {
                        ms: (gap / 1_000_000 % 0x1_0000_0000_0000_0000) as u64,
                    }
                } else {
                    TickReport::Nothing
                };
                match reactor {
                    Some(_) => (
                        Ticker { prev_tick: now, phase: TickPhase::Draining, ..self },
                        TickStep::Drain,
                        report,
                    ),
                    None => (
                        Ticker { prev_tick: now, phase: TickPhase::Stopped, ..self },
                        TickStep::Stop,
                        report,
                    ),
                }
            },
            (TickPhase::Draining, TickEvent::Drained) => match reactor {
                Some(reactor) => (
                    Ticker { phase: TickPhase::Signalling, ..self },
                    TickStep::Signal(reactor.everyone()),
                    TickReport::Nothing,
                ),
                None => (
                    Ticker { phase: TickPhase::Stopped, ..self },
                    TickStep::Stop,
                    TickReport::Nothing,
                ),
            },
            (TickPhase::Signalling, TickEvent::Signalled { now }) => {
                if elapsed(now, self.last_alive) >= ALIVE_INTERVAL {
                    (
                        Ticker { last_alive: now, phase: TickPhase::Sleeping, ..self },
                        TickStep::Sleep { nanos: TICK },
                        TickReport::Alive,
                    )
                } else {
                    (
                        Ticker { phase: TickPhase::Sleeping, ..self },
                        TickStep::Sleep { nanos: TICK },
                        TickReport::Nothing,
                    )
                }
            },
            _ => (self, TickStep::Ignored, TickReport::Nothing),
        }
    }
}

// ---- laws ----

/// An event of a registered session tells of that session and of no other.
pub proof fn events_name_their_session(session: u32, other: u32, flags: u32)
    ensures
        session_of(epoll_event { events: flags, data: session as u64 }) == session,
        session != other ==> session_of(epoll_event { events: flags, data: session as u64 })
            != other,
{
}

/// A batch signals a session exactly where a task waits on it and an event tells
/// of it.
pub proof fn events_wake_their_waiters(
    waiting: Set<u32>,
    events: Seq<epoll_event>,
    session: u32,
)
    ensures
        signalled(waiting, events).contains(session) <==> waiting.contains(session) && exists|
            i: int,
        |
            0 <= i < events.len() && session_of(#[trigger] events[i]) == session,
        signalled(waiting, events).len() <= events.len(),
{
    let all = sessions_of(events);
    let p = |s: u32| waiting.contains(s);
    all.lemma_filter_len(p);
    if signalled(waiting, events).contains(session) {
        let k = choose|k: int|
            0 <= k < signalled(waiting, events).len() && signalled(waiting, events)[k] == session;
        all.lemma_filter_pred(p, k);
        all.lemma_filter_contains_rev(p, session);
        let i = choose|i: int| 0 <= i < all.len() && all[i] == session;
        assert(session_of(events[i]) == session);
    }
    if waiting.contains(session) {
        assert forall|i: int|
            0 <= i < events.len() && session_of(#[trigger] events[i]) == session implies signalled(
            waiting,
            events,
        ).contains(session) by {
            assert(all[i] == session);
            all.lemma_filter_contains(p, i);
        }
    }
}

/// A session that is deregistered is signalled no more.
pub proof fn deregistered_session_is_quiet<N>(
    waiters: Map<u32, N>,
    events: Seq<epoll_event>,
    session: u32,
)
    ensures
        !signalled(waiters.remove(session).dom(), events).contains(session),
{
    events_wake_their_waiters(waiters.remove(session).dom(), events, session);
}

/// A wait succeeds only because its session's notifier was signalled, and times
/// out only because its deadline has passed; a readable message queue alone ends
/// no wait.
pub proof fn wait_ends_for_its_own_session(s: WaitEvent, wake: Wake<Seq<char>>)
    ensures
        wait_next(s, wake).1 matches WaitStep::Done(Ok(_)) ==> wake is Notified || wake
            == Wake::<Seq<char>>::Checked(true),
        wait_next(s, wake).1 == WaitStep::<Seq<char>>::Done(Err(VclError::Timeout)) ==> wake
            is Expired,
        s.phase is Selecting && wake is Notified ==> wait_next(s, wake).1 matches WaitStep::Done(
            Ok(_),
        ),
        s.phase is Selecting && wake is Expired ==> wait_next(s, wake).1 == WaitStep::<
            Seq<char>,
        >::Done(Err(VclError::Timeout)),
        s.phase is Checking && wake == Wake::<Seq<char>>::Checked(false) ==> wait_next(s, wake).1
            == WaitStep::<Seq<char>>::Do(WaitOp::Select { deadline: s.deadline }),
        wait_next(s, wake).0.deadline == s.deadline,
{
}

/// What happens to a ticker: an event, and the sessions that tasks wait on then, while
/// the reactor is there.
pub type Happening = (TickEvent, Option<Set<u32>>);

/// The ticker after a sequence of happenings.
pub open spec fn tick_run(t: Ticker, happenings: Seq<Happening>) -> Ticker
    decreases happenings.len(),
{
    if happenings.len() == 0 {
        t
    } else {
        let before = tick_run(t, happenings.drop_last());
        tick_next(before, happenings.last().0, happenings.last().1).0
    }
}

/// The steps of a ticker through a sequence of happenings, its first step at the
/// start; what was ignored left no step.
pub open spec fn tick_trace(t: Ticker, happenings: Seq<Happening>) -> Seq<TickView>
    decreases happenings.len(),
{
    if happenings.len() == 0 {
        seq![first_tick_step()]
    } else {
        let before = tick_run(t, happenings.drop_last());
        let done = tick_trace(t, happenings.drop_last());
        let step = tick_next(before, happenings.last().0, happenings.last().1).1;
        if step is Ignored {
            done
        } else {
            done.push(step)
        }
    }
}

/// The ticker of a new reactor repeats, until it stops, a sleep, a draining and a
/// signalling, in this order: between any two sleeps the epoll set is drained and
/// then the waiters are signalled. The first sleep takes no time, each other one a
/// tick, which is no longer than fifty milliseconds. A stop is the last step.
pub proof fn each_tick_drains_and_then_signals(now: u128, happenings: Seq<Happening>)
    ensures
        ({
            let t = ticker_start(now);
            let trace = tick_trace(t, happenings);
            let phase = tick_run(t, happenings).phase;
            &&& forall|i: int|
                0 <= i < trace.len() ==> (match #[trigger] trace[i] {
                    TickStep::Sleep { nanos } => i % 3 == 0 && nanos == (if i == 0 {
                        0
                    } else {
                        TICK
                    }),
                    TickStep::Drain => i % 3 == 1,
                    TickStep::Signal(_) => i % 3 == 2,
                    TickStep::Stop => i == trace.len() - 1 && phase is Stopped,
                    TickStep::Ignored => false,
                })
            &&& trace.len() > 0
            &&& match phase {
                TickPhase::Sleeping => trace.len() % 3 == 1,
                TickPhase::Draining => trace.len() % 3 == 2,
                TickPhase::Signalling => trace.len() % 3 == 0,
                TickPhase::Stopped => trace.last() is Stop,
            }
        }),
        TICK <= 50_000_000,
    decreases happenings.len(),
{
    if happenings.len() > 0 {
        each_tick_drains_and_then_signals(now, happenings.drop_last());
    }
}

/// A tick signals everyone: each session that a task waits on when the draining is
/// over, whether or not it had an event, and no other.
pub proof fn a_tick_signals_everyone(
    t: Ticker,
    event: TickEvent,
    waiting: Set<u32>,
    signalled: Set<u32>,
)
    ensures
        t.phase is Draining && event is Drained ==> tick_next(t, event, Some(waiting)).1
            == TickView::Signal(waiting),
        tick_next(t, event, Some(waiting)).1 == TickView::Signal(signalled) ==> signalled
            == waiting,
{
}

/// While the reactor is there the ticker does not stop: every answer to what it asked
/// for leads to another step, so that it ticks again and again.
pub proof fn a_ticker_goes_on_with_its_reactor(t: Ticker, event: TickEvent, waiting: Set<u32>)
    ensures
        !(tick_next(t, event, Some(waiting)).1 is Stop),
        !(t.phase is Stopped) ==> !(tick_next(t, event, Some(waiting)).0.phase is Stopped),
        t.phase is Sleeping && event is Woke ==> tick_next(t, event, Some(waiting)).1
            == TickView::Drain,
        t.phase is Draining && event is Drained ==> tick_next(t, event, Some(waiting)).1
            == TickView::Signal(waiting),
        t.phase is Signalling && event is Signalled ==> tick_next(t, event, Some(waiting)).1
            == (TickView::Sleep { nanos: TICK }),
{
}

/// Once the reactor is gone the ticker ends at its next tick, and nothing follows.
pub proof fn a_ticker_ends_with_its_reactor(t: Ticker, event: TickEvent, waiting: Option<Set<u32>>)
    ensures
        t.phase is Sleeping && event is Woke ==> (tick_next(t, event, waiting).1 == TickView::Stop
            <==> waiting is None),
        t.phase is Stopped ==> tick_next(t, event, waiting).1 == TickView::Ignored && tick_next(
            t,
            event,
            waiting,
        ).0 == t,
{
}

/// A batch is taken event by event and in order: what two batches signal together is what
/// each signals, one after the other, and a single event signals its session exactly where
/// a task waits on it, once.
pub proof fn events_are_taken_in_order(
    waiting: Set<u32>,
    first: Seq<epoll_event>,
    second: Seq<epoll_event>,
    event: epoll_event,
)
    ensures
        signalled(waiting, first + second) == signalled(waiting, first) + signalled(
            waiting,
            second,
        ),
        signalled(waiting, Seq::empty()).len() == 0,
        waiting.contains(session_of(event)) ==> signalled(waiting, seq![event]) == seq![
            session_of(event),
        ],
        !waiting.contains(session_of(event)) ==> signalled(waiting, seq![event]).len() == 0,
{
    reveal(Seq::filter);
    let p = |s: u32| waiting.contains(s);
    assert(sessions_of(first + second) =~= sessions_of(first) + sessions_of(second));
    Seq::filter_distributes_over_add(sessions_of(first), sessions_of(second), p);
    let one = sessions_of(seq![event]);
    assert(one.drop_last() =~= Seq::<u32>::empty());
    assert(one.last() == session_of(event));
    assert(one.drop_last().filter(p) =~= Seq::<u32>::empty());
    assert(seq![session_of(event)] =~= Seq::<u32>::empty().push(session_of(event)));
}

/// The session of an event is the low word of its data, whatever the high word holds.
pub proof fn session_is_the_low_word(flags: u32, high: u32, low: u32, data: u64)
    requires
        data == high * 0x1_0000_0000 + low,
    ensures
        session_of(epoll_event { events: flags, data }) == low,
{
    assert((high * 0x1_0000_0000 + low) % 0x1_0000_0000 == low) by (nonlinear_arith)
        requires
            0 <= low < 0x1_0000_0000,
            high >= 0,
    ;
}

/// A session that a task waits on keeps its notifier, one that none waits on gets the new
/// one, and no other session is touched; so a second task shares the notifier of the
/// first.
pub proof fn sessions_keep_their_notifiers<N>(
    waiters: Map<u32, N>,
    session: u32,
    fresh: N,
    second: N,
    other: u32,
)
    ensures
        ({
            let after = enlisted(waiters, session, fresh);
            &&& after.contains_key(session)
            &&& waiters.contains_key(session) ==> after[session] == waiters[session]
            &&& !waiters.contains_key(session) ==> after[session] == fresh
            &&& other != session ==> (after.contains_key(other) <==> waiters.contains_key(other))
            &&& other != session && waiters.contains_key(other) ==> after[other] == waiters[other]
            &&& enlisted(after, session, second) == after
        }),
{
}

/// A readable message queue is drained and the session's notifier looked at: where it was
/// signalled the wait is over with success, and otherwise the wait is back where it was,
/// with the same deadline.
pub proof fn readable_queue_is_drained(s: WaitEvent, hit: bool)
    requires
        s.phase is Selecting,
    ensures
        ({
            let (checking, drain) = wait_next(s, Wake::Queue(Ok(())));
            let (after, step) = wait_next(checking, Wake::Checked(hit));
            &&& drain == WaitStep::<Seq<char>>::Do(WaitOp::DrainAndCheck)
            &&& hit ==> (step matches WaitStep::Done(Ok(_)))
            &&& !hit ==> after == s && step == WaitStep::<Seq<char>>::Do(
                WaitOp::Select { deadline: s.deadline },
            )
        }),
{
}

/// A wait fails exactly where its queue fails, with that failure, or where its deadline
/// has passed. What answers nothing that it asked for changes nothing.
pub proof fn wait_fails_only_for_a_reason(
    s: WaitEvent,
    wake: Wake<Seq<char>>,
    e: VclError<Seq<char>>,
)
    ensures
        wait_next(s, wake).1 == WaitStep::<Seq<char>>::Done(Err(e)) <==> s.phase is Selecting
            && match wake {
            Wake::Queue(Err(why)) => e == VclError::<Seq<char>>::Io(why),
            Wake::Expired => e is Timeout,
            _ => false,
        },
        (wait_next(s, wake).1 matches WaitStep::Done(Ok(_))) <==> (s.phase is Selecting && wake
            is Notified) || (s.phase is Checking && wake == Wake::<Seq<char>>::Checked(true)),
        wait_next(s, wake).1 is Ignored ==> wait_next(s, wake).0 == s,
        wait_next(s, wake).1 is Ignored <==> match s.phase {
            WaitPhase::Selecting => wake is Checked,
            WaitPhase::Checking => !(wake is Checked),
            WaitPhase::Finished => true,
        },
{
}

/// A wait begins with its deadline set to the timeout from now, and none is later.
pub proof fn wait_begins_with_its_deadline(now: u128, timeout: u128)
    ensures
        wait_start(now, timeout).phase is Selecting,
        now + timeout <= u128::MAX ==> wait_start(now, timeout).deadline == now + timeout,
        now + timeout > u128::MAX ==> wait_start(now, timeout).deadline == u128::MAX,
{
}

/// A tick tells of a stall exactly where it comes half a second or more after the one
/// before it, and then of all the whole milliseconds between the two; it is then the tick
/// that the next one is held against.
pub proof fn stalls_are_told(t: Ticker, now: u128, waiting: Option<Set<u32>>)
    requires
        t.phase is Sleeping,
        t.prev_tick <= now,
        (now - t.prev_tick) / 1_000_000 <= u64::MAX,
    ensures
        ({
            let (next, _, report) = tick_next(t, TickEvent::Woke { now }, waiting);
            &&& now - t.prev_tick < 500_000_000 ==> report is Nothing
            &&& now - t.prev_tick >= 500_000_000 ==> (report matches TickReport::Stalled { ms }
                && ms * 1_000_000 <= now - t.prev_tick < (ms + 1) * 1_000_000)
            &&& next.prev_tick == now && next.last_alive == t.last_alive
        }),
{
    let gap = now - t.prev_tick;
    assert(gap / 1_000_000 * 1_000_000 <= gap < (gap / 1_000_000 + 1) * 1_000_000)
        by (nonlinear_arith)
        requires
            gap >= 0,
    ;
}

/// The ticker tells that it is alive exactly where a minute or more has passed since it
/// last did, and then counts from now; so two such reports are a minute apart at least.
pub proof fn life_is_told_each_minute(
    t: Ticker,
    now: u128,
    waiting: Option<Set<u32>>,
    later: u128,
)
    requires
        t.phase is Signalling,
        t.last_alive <= now <= later,
    ensures
        ({
            let (next, step, report) = tick_next(t, TickEvent::Signalled { now }, waiting);
            let again = tick_next(
                Ticker { phase: TickPhase::Signalling, ..next },
                TickEvent::Signalled { now: later },
                waiting,
            ).2;
            &&& step == (TickView::Sleep { nanos: 10_000_000 })
            &&& next.phase is Sleeping && next.prev_tick == t.prev_tick
            &&& report is Alive <==> now - t.last_alive >= 60_000_000_000
            &&& report is Alive ==> next.last_alive == now
            &&& !(report is Alive) ==> report is Nothing && next.last_alive == t.last_alive
            &&& report is Alive && again is Alive ==> later - now >= 60_000_000_000
        }),
{
}

/// A clock that went back, or stood still, tells of no stall and of no life.
pub proof fn standing_clock_tells_nothing(t: Ticker, event: TickEvent, waiting: Option<Set<u32>>)
    requires
        match event {
            TickEvent::Woke { now } => now <= t.prev_tick,
            TickEvent::Drained => true,
            TickEvent::Signalled { now } => now <= t.last_alive,
        },
    ensures
        tick_next(t, event, waiting).2 is Nothing,
{
}

/// A tick goes on, while the reactor is there, from its sleep to the draining, to the
/// signalling of everyone and back to a sleep of ten milliseconds, with the clock readings
/// that it took; once the reactor is gone it stops at the next of these steps but the
/// last. What answers nothing that it asked for changes nothing.
pub proof fn a_tick_goes_round(
    t: Ticker,
    now: u128,
    waiting: Set<u32>,
    event: TickEvent,
    there: Option<Set<u32>>,
)
    ensures
        t.phase is Sleeping ==> {
            let (draining, drain, _) = tick_next(t, TickEvent::Woke { now }, Some(waiting));
            let (signalling, signal, _) = tick_next(draining, TickEvent::Drained, Some(waiting));
            let (sleeping, sleep, _) = tick_next(
                signalling,
                TickEvent::Signalled { now },
                Some(waiting),
            );
            &&& drain == TickView::Drain
            &&& signal == TickView::Signal(waiting)
            &&& sleep == (TickView::Sleep { nanos: 10_000_000 })
            &&& sleeping.phase is Sleeping && sleeping.prev_tick == now
        },
        t.phase is Draining ==> {
            let (last, stop, report) = tick_next(t, TickEvent::Drained, None);
            stop is Stop && last.phase is Stopped && report is Nothing
        },
        tick_next(t, event, there).1 is Ignored ==> tick_next(t, event, there).0 == t && tick_next(
            t,
            event,
            there,
        ).2 is Nothing,
        tick_next(t, event, there).1 is Ignored <==> match t.phase {
            TickPhase::Sleeping => !(event is Woke),
            TickPhase::Draining => !(event is Drained),
            TickPhase::Signalling => !(event is Signalled),
            TickPhase::Stopped => true,
        },
        ticker_start(now).prev_tick == now && ticker_start(now).last_alive == now && ticker_start(
            now,
        ).phase is Sleeping,
        first_tick_step() == (TickView::Sleep { nanos: 0 }),
{
}

/// In a contract what woke a wait, and what a wait or a ticker does next, stand as they
/// are, with each error by its view and a list of sessions by what it holds.
pub proof fn wakes_and_steps_are_seen_as_they_are(
    wake: Wake,
    wait: WaitStep,
    tick: TickStep,
    session: u32,
)
    ensures
        match wake {
            Wake::Queue(Ok(_)) => wake@ matches Wake::Queue(Ok(_)),
            Wake::Queue(Err(e)) => wake@ == Wake::<Seq<char>>::Queue(Err(e@)),
            Wake::Notified => wake@ is Notified,
            Wake::Expired => wake@ is Expired,
            Wake::Checked(hit) => wake@ == Wake::<Seq<char>>::Checked(hit),
        },
        match wait {
            WaitStep::Do(op) => wait@ == WaitStep::<Seq<char>>::Do(op),
            WaitStep::Done(Ok(_)) => wait@ matches WaitStep::Done(Ok(_)),
            WaitStep::Done(Err(e)) => wait@ == WaitStep::<Seq<char>>::Done(Err(e@)),
            WaitStep::Ignored => wait@ is Ignored,
        },
        match tick {
            TickStep::Sleep { nanos } => tick@ == (TickView::Sleep { nanos }),
            TickStep::Drain => tick@ is Drain,
            TickStep::Signal(sessions) => tick@ matches TickStep::Signal(all) && (all.contains(
                session,
            ) <==> sessions@.contains(session)),
            TickStep::Stop => tick@ is Stop,
            TickStep::Ignored => tick@ is Ignored,
        },
{
}

/// A reactor that is gone has no sessions, and one that is there has those that have a
/// notifier.
pub proof fn sessions_wait_while_the_reactor_is_there<N>(reactor: VclReactor<N>, session: u32)
    ensures
        waiting_of::<N>(None) is None,
        waiting_of(Some(&reactor)) matches Some(all) && (all.contains(session)
            <==> reactor.waiters@.contains_key(session)),
{
}

/// A creation that failed is over, with that failure and no reactor; one that ignored what
/// it was handed is where it was.
pub proof fn failed_setup_has_no_reactor<N>(
    s: ReactorSetup,
    r: (ReactorSetup, SetupStep<N>),
    e: VclError<Seq<char>>,
)
    ensures
        setup_failed(r, e) ==> r.0.phase is Finished && (r.1 matches SetupStep::Done(Err(f)) && f@
            == e),
        setup_ignored(s, r) ==> r.0 == s && r.1 is Ignored,
        !(setup_failed(r, e) && setup_ignored(s, r)),
{
}

/// A batch is 64 events, a tick ten milliseconds.
pub proof fn batches_and_ticks_are_small()
    ensures
        EVENT_BATCH == 64,
        TICK == 10_000_000,
        STALL_THRESHOLD == 500_000_000,
        ALIVE_INTERVAL == 60_000_000_000,
{
}

/// The time between two readings of the clock is what has to be added to the first to get
/// the second; where the clock went back, no time has passed.
pub proof fn passed_time_adds_up(then: u128, now: u128)
    ensures
        then <= now ==> then + since(now, then) == now,
        now <= then ==> since(now, then) == 0,
{
}

/// A stall is told by the low 64 bits of its milliseconds, however long it was: the number
/// told and the whole milliseconds of the stall differ by a multiple of the first number
/// that 64 bits cannot hold.
pub proof fn long_stalls_are_told_by_their_low_word(prev_tick: u128, now: u128)
    requires
        prev_tick + 500_000_000 <= now,
    ensures
        stall_report(now, prev_tick) matches TickReport::Stalled { ms } && ((now - prev_tick)
            / 1_000_000 - ms) % 0x1_0000_0000_0000_0000 == 0,
{
    let whole = (now - prev_tick) / 1_000_000;
    let low = whole % 0x1_0000_0000_0000_0000;
    assert((whole - low) % 0x1_0000_0000_0000_0000 == 0) by (nonlinear_arith)
        requires
            low == whole % 0x1_0000_0000_0000_0000,
    ;
}

} // verus!
