//! TCP listeners: bind, listen, accept.

use vstd::prelude::*;

use crate::addr::SocketAddr;
use crate::bind::ServerBind;
#[allow(unused_imports)]
use crate::bind::{server_binds_what_was_asked_for, server_next, server_run, server_start};
use crate::dgram::RECEIVE_WAIT;
use crate::error::VclError;
use crate::ops::{Close, Event, Op, Step, Target};
#[allow(unused_imports)]
use crate::ops::{plain_step, result_of, succeeded, AcceptStep, EventView, UnitStep};
use crate::session::SessionHandle;

verus! {

/// How many connections may wait to be accepted.
pub const BACKLOG: u32 = 128;

/// A bound TCP session that listens.
#[derive(Debug)]
pub struct VclListener {
    pub handle: SessionHandle,
}

/// How far accepting a connection has come.
#[derive(Debug, Clone, Copy)]
pub enum AcceptPhase {
    Calling,
    Waiting,
    SettingNonblocking { session: SessionHandle, peer: SocketAddr },
    Registering { session: SessionHandle, peer: SocketAddr },
    SettingNodelay { session: SessionHandle, peer: SocketAddr },
    Finished,
}

/// Accepting one connection.
#[derive(Debug, Clone, Copy)]
pub struct Accept {
    pub phase: AcceptPhase,
}

/// A session that was accepted could not be made ready, and is closed.
pub open spec fn accept_failed(session: SessionHandle, e: VclError<Seq<char>>) -> (
    Accept,
    AcceptStep,
) {
    (
        Accept { phase: AcceptPhase::Finished },
        Step::Close(Close::Session(Target::Accepted(session)), Err(e)),
    )
}

/// The acceptor and its step after an event.
///
/// While no connection is there it waits, and a wait that runs out is begun
/// again. A new session, and not the listening one, is put into non-blocking mode
/// and registered; whether its small segments are delayed is of no consequence.
pub open spec fn accept_next(s: Accept, event: EventView) -> (Accept, AcceptStep) {
    match (s.phase, event) {
        (AcceptPhase::Calling, Event::Accepted(Ok((session, peer)))) => (
            Accept { phase: AcceptPhase::SettingNonblocking { session, peer } },
            Step::Do(Op::SetNonblocking(Target::Accepted(session))),
        ),
        (AcceptPhase::Calling, Event::Accepted(Err(e))) => if e is WouldBlock {
            (
                Accept { phase: AcceptPhase::Waiting },
                Step::Do(Op::WaitReadable { timeout: RECEIVE_WAIT }),
            )
        } else {
            (Accept { phase: AcceptPhase::Finished }, Step::Done(Err(e)))
        },
        (AcceptPhase::Waiting, Event::Unit(r)) => if r matches Err(e) && !(e is Timeout) {
            (Accept { phase: AcceptPhase::Finished }, Step::Done(Err(r->Err_0)))
        } else {
            (Accept { phase: AcceptPhase::Calling }, Step::Do(Op::Accept))
        },
        (AcceptPhase::SettingNonblocking { session, peer }, Event::Unit(r)) => match r {
            Ok(_) => (
                Accept { phase: AcceptPhase::Registering { session, peer } },
                Step::Do(Op::Register(Target::Accepted(session))),
            ),
            Err(e) => accept_failed(session, e),
        },
        (AcceptPhase::Registering { session, peer }, Event::Unit(r)) => match r {
            Ok(_) => (
                Accept { phase: AcceptPhase::SettingNodelay { session, peer } },
                Step::Do(Op::SetNodelay(Target::Accepted(session))),
            ),
            Err(e) => accept_failed(session, e),
        },
        (AcceptPhase::SettingNodelay { session, peer }, Event::Elapsed) => (
            Accept { phase: AcceptPhase::Finished },
            Step::Done(Ok((session, peer))),
        ),
        _ => (s, Step::Ignored),
    }
}

impl Accept {
    fn finish(r: Result<(SessionHandle, SocketAddr), VclError>) -> (next: (
        Accept,
        Step<(SessionHandle, SocketAddr)>,
    ))
        ensures
            next.0 == (Accept { phase: AcceptPhase::Finished }),
            next.1 == Step::<(SessionHandle, SocketAddr)>::Done(r),
    {
        (Accept { phase: AcceptPhase::Finished }, Step::Done(r))
    }

    fn fail(session: SessionHandle, e: VclError) -> (next: (
        Accept,
        Step<(SessionHandle, SocketAddr)>,
    ))
        ensures
            (next.0, plain_step(next.1)) == accept_failed(session, e@),
    {
        (
            Accept { phase: AcceptPhase::Finished },
            Step::Close(Close::Session(Target::Accepted(session)), Err(e)),
        )
    }

    fn enter(phase: AcceptPhase, op: Op) -> (next: (Accept, Step<(SessionHandle, SocketAddr)>))
        ensures
            next.0 == (Accept { phase }),
            next.1 == Step::<(SessionHandle, SocketAddr)>::Do(op),
    {
        (Accept { phase }, Step::Do(op))
    }

    /// Moves the acceptor on by one event.
    pub fn step(self, event: Event) -> (next: (Accept, Step<(SessionHandle, SocketAddr)>))
        ensures
            (next.0, plain_step(next.1)) == accept_next(self, event@),
    {
        match (self.phase, event) {
            (AcceptPhase::Calling, Event::Accepted(Ok((session, peer)))) => Accept::enter(
                AcceptPhase::SettingNonblocking { session, peer },
                Op::SetNonblocking(Target::Accepted(session)),
            ),
            (AcceptPhase::Calling, Event::Accepted(Err(e))) => match e {
                VclError::WouldBlock => Accept::enter(
                    AcceptPhase::Waiting,
                    Op::WaitReadable { timeout: RECEIVE_WAIT },
                ),
                other => Accept::finish(Err(other)),
            },
            (AcceptPhase::Waiting, Event::Unit(Ok(()))) => Accept::enter(
                AcceptPhase::Calling,
                Op::Accept,
            ),
            (AcceptPhase::Waiting, Event::Unit(Err(e))) => match e {
                VclError::Timeout => Accept::enter(AcceptPhase::Calling, Op::Accept),
                other => Accept::finish(Err(other)),
            },
            (AcceptPhase::SettingNonblocking { session, peer }, Event::Unit(Ok(()))) => {
                Accept::enter(
                    AcceptPhase::Registering { session, peer },
                    Op::Register(Target::Accepted(session)),
                )
            },
            (AcceptPhase::SettingNonblocking { session, .. }, Event::Unit(Err(e))) => {
                Accept::fail(session, e)
            },
            (AcceptPhase::Registering { session, peer }, Event::Unit(Ok(()))) => Accept::enter(
                AcceptPhase::SettingNodelay { session, peer },
                Op::SetNodelay(Target::Accepted(session)),
            ),
            (AcceptPhase::Registering { session, .. }, Event::Unit(Err(e))) => Accept::fail(
                session,
                e,
            ),
            (AcceptPhase::SettingNodelay { session, peer }, Event::Elapsed) => Accept::finish(
                Ok((session, peer)),
            ),
            _ => (self, Step::Ignored),
        }
    }
}

impl VclListener {
    /// Begins binding to `addr` and listening there. The text is how the address
    /// is written in a message.
    pub fn bind(addr: SocketAddr, addr_text: &str) -> (r: (ServerBind, Step<()>))
        ensures
            r.0@ == server_start(BACKLOG, addr, addr_text@),
            plain_step(r.1) == UnitStep::Do(Op::Create { udp: false, nonblocking: true }),
    {
        ServerBind::start(false, BACKLOG, addr, addr_text)
    }

    /// Begins accepting the next connection. The result is its session, in
    /// non-blocking mode and registered, and its peer.
    pub fn accept() -> (r: (Accept, Step<(SessionHandle, SocketAddr)>))
        ensures
            r.0 == (Accept { phase: AcceptPhase::Calling }),
            plain_step(r.1) == AcceptStep::Do(Op::Accept),
    {
        Accept::enter(AcceptPhase::Calling, Op::Accept)
    }

    /// The local address, where the session gave one.
    pub fn local_addr(answer: Result<SocketAddr, VclError>) -> (addr: Option<SocketAddr>)
        ensures
            addr == answer.ok(),
    {
        answer.ok()
    }
}

/// An idle listener never surfaces a timeout: a wait that runs out is followed by
/// another look.
pub proof fn idle_listener_keeps_waiting(s: Accept, event: EventView)
    ensures
        s.phase is Waiting && event == EventView::Unit(Err(VclError::Timeout)) ==> accept_next(
            s,
            event,
        ).1 == AcceptStep::Do(Op::Accept),
        result_of(accept_next(s, event).1) matches Some(Err(e)) ==> !(e is WouldBlock && s.phase
            is Calling) && !(e is Timeout && s.phase is Waiting),
{
}

/// The phase carries this session and peer.
pub open spec fn carries(phase: AcceptPhase, session: SessionHandle, peer: SocketAddr) -> bool {
    match phase {
        AcceptPhase::SettingNonblocking { session: s, peer: p } => s == session && p == peer,
        AcceptPhase::Registering { session: s, peer: p } => s == session && p == peer,
        AcceptPhase::SettingNodelay { session: s, peer: p } => s == session && p == peer,
        _ => false,
    }
}

/// The session that is handed out is the one that was accepted, and it was put
/// into non-blocking mode before it was registered and registered before it was
/// handed out. Each of these steps names that session.
pub proof fn accepted_session_is_made_ready(
    s: Accept,
    event: EventView,
    session: SessionHandle,
    peer: SocketAddr,
)
    ensures
        accept_next(s, event).1 == AcceptStep::Done(Ok((session, peer))) ==> s.phase
            is SettingNodelay && carries(s.phase, session, peer),
        accept_next(s, event).0.phase is SettingNodelay && carries(
            accept_next(s, event).0.phase,
            session,
            peer,
        ) ==> carries(s.phase, session, peer) && (s.phase is SettingNodelay || s.phase
            is Registering && succeeded(event)),
        accept_next(s, event).0.phase is Registering && carries(
            accept_next(s, event).0.phase,
            session,
            peer,
        ) ==> carries(s.phase, session, peer) && (s.phase is Registering || s.phase
            is SettingNonblocking && succeeded(event)),
        accept_next(s, event).0.phase is SettingNonblocking && carries(
            accept_next(s, event).0.phase,
            session,
            peer,
        ) ==> carries(s.phase, session, peer) || event == EventView::Accepted(
            Ok((session, peer)),
        ),
        carries(accept_next(s, event).0.phase, session, peer) && !(accept_next(s, event).1
            is Ignored) ==> match accept_next(s, event).1 {
            Step::Do(Op::SetNonblocking(target)) => target == Target::Accepted(session),
            Step::Do(Op::Register(target)) => target == Target::Accepted(session),
            Step::Do(Op::SetNodelay(target)) => target == Target::Accepted(session),
            _ => false,
        },
{
}

/// A session that was accepted is handed out or closed: accepting ends with nothing
/// to close where it hands the session out, or where it has accepted none, and
/// otherwise closes the session that it accepted and reports why.
pub proof fn accepted_session_is_handed_out_or_closed(
    s: Accept,
    event: EventView,
    session: SessionHandle,
    peer: SocketAddr,
)
    ensures
        carries(s.phase, session, peer) && result_of(accept_next(s, event).1) is Some ==> match (
            accept_next(s, event).1
        ) {
            Step::Done(r) => r == Ok::<(SessionHandle, SocketAddr), VclError<Seq<char>>>(
                (session, peer),
            ),
            Step::Close(close, r) => {
                &&& close == Close::Session(Target::Accepted(session))
                &&& r matches Err(e) && event == EventView::Unit(Err(e))
            },
            _ => false,
        },
        carries(s.phase, session, peer) && result_of(accept_next(s, event).1) is None ==> carries(
            accept_next(s, event).0.phase,
            session,
            peer,
        ),
        accept_next(s, event).1 is Close ==> s.phase is SettingNonblocking || s.phase
            is Registering,
        s.phase is Registering && (event matches Event::Unit(Err(_))) ==> accept_next(s, event).1
            is Close,
{
}

/// A connection that is not there yet is waited for, for up to 300 seconds, and a wait
/// that is over, whether something came or its time ran out, leads back to the very same
/// look: waiting never ends an accept, however often it is repeated.
pub proof fn absent_connection_is_waited_for(s: Accept, waited: EventView)
    requires
        s.phase is Calling,
        succeeded(waited) || waited == EventView::Unit(Err(VclError::Timeout)),
    ensures
        ({
            let (waiting, wait) = accept_next(s, Event::Accepted(Err(VclError::WouldBlock)));
            let (again, look) = accept_next(waiting, waited);
            &&& wait == AcceptStep::Do(Op::WaitReadable { timeout: 300_000_000_000 })
            &&& result_of(look) is None
            &&& look == AcceptStep::Do(Op::Accept)
            &&& again == s
        }),
{
}

/// A connection that came is made ready and handed out with its peer, whether or not it
/// was waited for: the session is put into non-blocking mode, registered, told not to
/// delay small segments, and is the result.
pub proof fn connection_is_accepted(s: Accept, session: SessionHandle, peer: SocketAddr)
    requires
        s.phase is Calling,
    ensures
        ({
            let (nonblocking, first) = accept_next(s, Event::Accepted(Ok((session, peer))));
            let (registering, second) = accept_next(nonblocking, Event::Unit(Ok(())));
            let (nodelay, third) = accept_next(registering, Event::Unit(Ok(())));
            let (_, end) = accept_next(nodelay, Event::Elapsed);
            &&& first == AcceptStep::Do(Op::SetNonblocking(Target::Accepted(session)))
            &&& second == AcceptStep::Do(Op::Register(Target::Accepted(session)))
            &&& third == AcceptStep::Do(Op::SetNodelay(Target::Accepted(session)))
            &&& end == AcceptStep::Done(Ok((session, peer)))
        }),
{
}

/// Accepting fails only for a reason: with the failure of the call, other than that no
/// connection is there; with the failure of the wait, other than that its time ran out; or
/// with the failure to make the accepted session ready.
pub proof fn accept_fails_only_for_a_reason(s: Accept, event: EventView, e: VclError<Seq<char>>)
    ensures
        result_of(accept_next(s, event).1) == Some(
            Err::<(SessionHandle, SocketAddr), VclError<Seq<char>>>(e),
        ) <==> match s.phase {
            AcceptPhase::Calling => event == EventView::Accepted(Err(e)) && !(e is WouldBlock),
            AcceptPhase::Waiting => event == EventView::Unit(Err(e)) && !(e is Timeout),
            AcceptPhase::SettingNonblocking { .. } => event == EventView::Unit(Err(e)),
            AcceptPhase::Registering { .. } => event == EventView::Unit(Err(e)),
            AcceptPhase::SettingNodelay { .. } => false,
            AcceptPhase::Finished => false,
        },
{
}

/// What answers nothing that the acceptor asked for changes nothing, and that is so of
/// just those events: a call is answered by an accepted session or its failure, every
/// other step but the last by how it ended.
pub proof fn accept_ignores_other_events(s: Accept, event: EventView)
    ensures
        accept_next(s, event).1 is Ignored ==> accept_next(s, event).0 == s,
        accept_next(s, event).1 is Ignored <==> match s.phase {
            AcceptPhase::Calling => !(event is Accepted),
            AcceptPhase::SettingNodelay { .. } => !(event is Elapsed),
            AcceptPhase::Finished => true,
            _ => !(event is Unit),
        },
{
}

/// The acceptor after a sequence of events.
pub open spec fn accept_run(s: Accept, events: Seq<EventView>) -> Accept
    decreases events.len(),
{
    if events.len() == 0 {
        s
    } else {
        accept_next(accept_run(s, events.drop_last()), events.last()).0
    }
}

/// Whatever happens, an accept that hands out a session hands out one that an accepting
/// call returned, with the peer that came with it.
pub proof fn handed_out_session_was_accepted(
    events: Seq<EventView>,
    last: EventView,
    session: SessionHandle,
    peer: SocketAddr,
)
    requires
        accept_next(accept_run(Accept { phase: AcceptPhase::Calling }, events), last).1
            == AcceptStep::Done(Ok((session, peer))),
    ensures
        events.contains(EventView::Accepted(Ok((session, peer)))),
{
    carried_session_was_accepted(events, session, peer);
}

proof fn carried_session_was_accepted(
    events: Seq<EventView>,
    session: SessionHandle,
    peer: SocketAddr,
)
    ensures
        carries(
            accept_run(Accept { phase: AcceptPhase::Calling }, events).phase,
            session,
            peer,
        ) ==> events.contains(EventView::Accepted(Ok((session, peer)))),
    decreases events.len(),
{
    if events.len() > 0 {
        let before = events.drop_last();
        carried_session_was_accepted(before, session, peer);
        assert(events.last() == events[events.len() - 1]);
        if before.contains(EventView::Accepted(Ok((session, peer)))) {
            let i = choose|i: int|
                0 <= i < before.len() && before[i] == EventView::Accepted(Ok((session, peer)));
            assert(events[i] == before[i]);
        }
    }
}

/// A listener is opened for up to 128 connections that wait to be accepted.
pub proof fn listener_queues_connections(
    addr: SocketAddr,
    addr_text: Seq<char>,
    events: Seq<EventView>,
    last: EventView,
)
    ensures
        ({
            let s = server_run(server_start(BACKLOG, addr, addr_text), events);
            server_next(s, last).1 matches Step::Do(Op::Listen { backlog }) ==> backlog == 128
        }),
{
    server_binds_what_was_asked_for(BACKLOG, addr, addr_text, events, last);
}

} // verus!
