//! Datagram sockets that other hosts send to.
//!
//! A UDP session is bound and listens; every incoming datagram is then
//! delivered to it, one at a time, with its sender.

use vstd::prelude::*;

#[allow(unused_imports)]
use crate::addr::wildcard;
use crate::addr::{IpAddr, SocketAddr};
#[allow(unused_imports)]
use crate::bind::server_start;
use crate::bind::ServerBind;
use crate::ephemeral::{ephemeral_port, BIND_ATTEMPTS};
#[allow(unused_imports)]
use crate::ephemeral::is_ephemeral;
use crate::error::VclError;
use crate::ops::{Event, Op, Step};
#[allow(unused_imports)]
use crate::ops::{plain_step, succeeded, ArrivalStep, CountStep, EventView, UnitStep};
use crate::session::SessionHandle;

verus! {

/// For how many nanoseconds a receiver waits before it looks again: five
/// minutes.
pub const RECEIVE_WAIT: u128 = 300_000_000_000;

/// For how many nanoseconds a sender waits for space: half a minute.
pub const SEND_WAIT: u128 = 30_000_000_000;

/// A bound datagram session.
#[derive(Debug)]
pub struct VclDgramSocket {
    pub handle: SessionHandle,
}

// ---- binding to an ephemeral port ----

/// How far binding to an ephemeral port has come. `left` counts the ports that
/// may still be tried.
#[derive(Debug, Clone, Copy)]
pub enum EphemeralPhase {
    Picking { left: u8 },
    Binding { left: u8 },
    Finished,
}

/// Binding a datagram socket to a random port of the wildcard of a family.
#[derive(Debug, Clone, Copy)]
pub struct EphemeralBind {
    pub v6: bool,
    pub phase: EphemeralPhase,
}

impl EphemeralBind {
    /// Some port may still be tried where one is being picked.
    pub open spec fn wf(self) -> bool {
        match self.phase {
            EphemeralPhase::Picking { left } => 1 <= left <= BIND_ATTEMPTS,
            EphemeralPhase::Binding { left } => left < BIND_ATTEMPTS,
            EphemeralPhase::Finished => true,
        }
    }
}

/// The bind and its step after an event. A refused bind is followed by another
/// port while any is left, and the last refusal is the result.
pub open spec fn ephemeral_next(s: EphemeralBind, event: EventView) -> (EphemeralBind, UnitStep) {
    match (s.phase, event) {
        (EphemeralPhase::Picking { left }, Event::Port(port)) => (
            EphemeralBind { phase: EphemeralPhase::Binding { left: (left - 1) as u8 }, ..s },
            Step::Do(Op::BindDgram(SocketAddr { ip: wildcard(s.v6), port })),
        ),
        (EphemeralPhase::Binding { left }, Event::Unit(r)) => if r is Ok || left == 0 {
            (EphemeralBind { phase: EphemeralPhase::Finished, ..s }, Step::Done(r))
        } else {
            (
                EphemeralBind { phase: EphemeralPhase::Picking { left }, ..s },
                Step::Do(Op::PickPort),
            )
        },
        _ => (s, Step::Ignored),
    }
}

/// What one event leads to when ports are drawn as they are needed.
pub open spec fn ephemeral_advanced(
    s: EphemeralBind,
    event: EventView,
    r: (EphemeralBind, UnitStep),
) -> bool {
    let (q, step) = ephemeral_next(s, event);
    if step == UnitStep::Do(Op::PickPort) {
        exists|port: u16|
            #[trigger] is_ephemeral(port) && r == ephemeral_next(q, Event::Port(port))
    } else {
        r == (q, step)
    }
}

/// A bind to an ephemeral port that has not begun.
pub open spec fn ephemeral_start(v6: bool) -> EphemeralBind {
    EphemeralBind { v6, phase: EphemeralPhase::Picking { left: BIND_ATTEMPTS } }
}

/// How a bind to an ephemeral port begins when its first port is drawn at once:
/// with the bind of that port of the wildcard.
pub open spec fn ephemeral_started(v6: bool, r: (EphemeralBind, UnitStep)) -> bool {
    exists|port: u16|
        #[trigger] is_ephemeral(port) && r == (
            EphemeralBind {
                v6,
                phase: EphemeralPhase::Binding { left: (BIND_ATTEMPTS - 1) as u8 },
            },
            UnitStep::Do(Op::BindDgram(SocketAddr { ip: wildcard(v6), port })),
        )
}

impl EphemeralBind {
    /// Begins binding to a port of the wildcard of a family.
    pub fn start(v6: bool) -> (r: (EphemeralBind, Step<()>))
        ensures
            r.0 == ephemeral_start(v6),
            r.0.wf(),
            plain_step(r.1) == UnitStep::Do(Op::PickPort),
    {
        (
            EphemeralBind { v6, phase: EphemeralPhase::Picking { left: BIND_ATTEMPTS } },
            Step::Do(Op::PickPort),
        )
    }

    fn start_drawn(v6: bool) -> (r: (EphemeralBind, Step<()>))
        ensures
            ephemeral_started(v6, (r.0, plain_step(r.1))),
            r.0.wf(),
    {
        let (s, _) = EphemeralBind::start(v6);
        let port = ephemeral_port();
        assert(is_ephemeral(port));
        s.step(Event::Port(port))
    }

    /// Moves the bind on by one event.
    pub fn step(self, event: Event) -> (next: (EphemeralBind, Step<()>))
        requires
            self.wf(),
        ensures
            (next.0, plain_step(next.1)) == ephemeral_next(self, event@),
            next.0.wf(),
    {
        match (self.phase, event) {
            (EphemeralPhase::Picking { left }, Event::Port(port)) => (
                EphemeralBind { phase: EphemeralPhase::Binding { left: left - 1 }, ..self },
                Step::Do(Op::BindDgram(SocketAddr::new(IpAddr::wildcard(self.v6), port))),
            ),
            (EphemeralPhase::Binding { .. }, Event::Unit(Ok(()))) => (
                EphemeralBind { phase: EphemeralPhase::Finished, ..self },
                Step::Done(Ok(())),
            ),
            (EphemeralPhase::Binding { left }, Event::Unit(Err(e))) => if left == 0 {
                (EphemeralBind { phase: EphemeralPhase::Finished, ..self }, Step::Done(Err(e)))
            } else {
                (
                    EphemeralBind { phase: EphemeralPhase::Picking { left }, ..self },
                    Step::Do(Op::PickPort),
                )
            },
            _ => (self, Step::Ignored),
        }
    }

    /// Moves the bind on by one event, and draws the port where one is needed:
    /// every bind that this asks for is to a port of the ephemeral range.
    pub fn advance(self, event: Event) -> (next: (EphemeralBind, Step<()>))
        requires
            self.wf(),
        ensures
            ephemeral_advanced(self, event@, (next.0, plain_step(next.1))),
            next.0.wf(),
    {
        let (q, step) = self.step(event);
        match step {
            Step::Do(Op::PickPort) => {
                let port = ephemeral_port();
                assert(is_ephemeral(port));
                q.step(Event::Port(port))
            },
            other => (q, other),
        }
    }
}

/// Where ports are drawn as they are needed, every bind is to the wildcard of the
/// family and to a port of the ephemeral range; and the first bind that succeeds
/// ends the operation with success.
pub proof fn dgram_binds_are_ephemeral(
    s: EphemeralBind,
    event: EventView,
    r: (EphemeralBind, UnitStep),
)
    requires
        !(event is Port),
        ephemeral_advanced(s, event, r),
    ensures
        r.1 matches Step::Do(op) ==> (op matches Op::BindDgram(addr) && addr.ip == wildcard(s.v6)
            && is_ephemeral(addr.port)),
        r.0.v6 == s.v6,
        s.phase is Binding && succeeded(event) ==> r.1 matches Step::Done(Ok(_)),
{
}

/// How many ports may still be tried.
pub open spec fn tries_left(s: EphemeralBind) -> nat {
    match s.phase {
        EphemeralPhase::Picking { left } => left as nat,
        EphemeralPhase::Binding { left } => left as nat,
        EphemeralPhase::Finished => 0,
    }
}

/// The number of sockets that a sequence of events leads to binding.
pub open spec fn dgram_binds(s: EphemeralBind, events: Seq<EventView>) -> nat
    decreases events.len(),
{
    if events.len() == 0 {
        0
    } else {
        let (next, step) = ephemeral_next(s, events[0]);
        (if step matches Step::Do(Op::BindDgram(_)) {
            1nat
        } else {
            0nat
        }) + dgram_binds(next, events.skip(1))
    }
}

/// Binding to an ephemeral port tries a bounded number of ports, whatever the
/// binds return: never more than eight.
pub proof fn dgram_binds_are_bounded(s: EphemeralBind, events: Seq<EventView>)
    requires
        s.wf(),
    ensures
        dgram_binds(s, events) <= tries_left(s),
        dgram_binds(s, events) <= 8,
    decreases events.len(),
{
    if events.len() > 0 {
        dgram_binds_are_bounded(ephemeral_next(s, events[0]).0, events.skip(1));
    }
}

// ---- receiving and sending ----

/// Where a loop around one call stands: at the call, or at the wait for the
/// session to become ready for it.
#[derive(Debug, Clone, Copy)]
pub enum LoopPhase {
    Calling,
    Waiting,
    Finished,
}

/// Receiving one datagram.
#[derive(Debug, Clone, Copy)]
pub struct RecvFrom {
    pub phase: LoopPhase,
}

/// The receiver and its step after an event. While no datagram is there it
/// waits, and a wait that runs out is begun again.
pub open spec fn recv_from_next(s: RecvFrom, event: EventView) -> (RecvFrom, ArrivalStep) {
    match (s.phase, event) {
        (LoopPhase::Calling, Event::Arrived(r)) => if r matches Err(e) && e is WouldBlock {
            (
                RecvFrom { phase: LoopPhase::Waiting },
                Step::Do(Op::WaitReadable { timeout: RECEIVE_WAIT }),
            )
        } else {
            (RecvFrom { phase: LoopPhase::Finished }, Step::Done(r))
        },
        (LoopPhase::Waiting, Event::Unit(r)) => if r matches Err(e) && !(e is Timeout) {
            (RecvFrom { phase: LoopPhase::Finished }, Step::Done(Err(r->Err_0)))
        } else {
            (RecvFrom { phase: LoopPhase::Calling }, Step::Do(Op::ReceiveInto))
        },
        _ => (s, Step::Ignored),
    }
}

impl RecvFrom {
    /// Moves the receiver on by one event.
    pub fn step(self, event: Event) -> (next: (RecvFrom, Step<(usize, SocketAddr)>))
        ensures
            (next.0, plain_step(next.1)) == recv_from_next(self, event@),
    {
        match (self.phase, event) {
            (LoopPhase::Calling, Event::Arrived(Ok(arrival))) => (
                RecvFrom { phase: LoopPhase::Finished },
                Step::Done(Ok(arrival)),
            ),
            (LoopPhase::Calling, Event::Arrived(Err(e))) => match e {
                VclError::WouldBlock => (
                    RecvFrom { phase: LoopPhase::Waiting },
                    Step::Do(Op::WaitReadable { timeout: RECEIVE_WAIT }),
                ),
                other => (RecvFrom { phase: LoopPhase::Finished }, Step::Done(Err(other))),
            },
            (LoopPhase::Waiting, Event::Unit(Ok(()))) => (
                RecvFrom { phase: LoopPhase::Calling },
                Step::Do(Op::ReceiveInto),
            ),
            (LoopPhase::Waiting, Event::Unit(Err(e))) => match e {
                VclError::Timeout => (
                    RecvFrom { phase: LoopPhase::Calling },
                    Step::Do(Op::ReceiveInto),
                ),
                other => (RecvFrom { phase: LoopPhase::Finished }, Step::Done(Err(other))),
            },
            _ => (self, Step::Ignored),
        }
    }
}

/// A quiet listener never surfaces a timeout, nor that it would block: a wait
/// that runs out is followed by another look, and a receiver ends only with a
/// datagram or with a failure of the call or the wait.
pub proof fn quiet_receiver_keeps_waiting(s: RecvFrom, event: EventView)
    ensures
        s.phase is Waiting && event == EventView::Unit(Err(VclError::Timeout)) ==> recv_from_next(
            s,
            event,
        ).1 == ArrivalStep::Do(Op::ReceiveInto),
        recv_from_next(s, event).1 matches Step::Done(Err(e)) ==> !(e is WouldBlock && s.phase
            is Calling) && !(e is Timeout && s.phase is Waiting),
        recv_from_next(s, event).1 matches Step::Done(Ok(arrival)) ==> event == EventView::Arrived(
            Ok(arrival),
        ),
{
}

/// Sending one datagram.
#[derive(Debug, Clone, Copy)]
pub struct SendTo {
    pub dst: SocketAddr,
    pub phase: LoopPhase,
}

/// The sender and its step after an event. While there is no space it waits.
pub open spec fn send_to_next(s: SendTo, event: EventView) -> (SendTo, CountStep) {
    match (s.phase, event) {
        (LoopPhase::Calling, Event::Count(r)) => if r matches Err(e) && e is WouldBlock {
            (
                SendTo { phase: LoopPhase::Waiting, ..s },
                Step::Do(Op::WaitWritable { timeout: SEND_WAIT }),
            )
        } else {
            (SendTo { phase: LoopPhase::Finished, ..s }, Step::Done(r))
        },
        (LoopPhase::Waiting, Event::Unit(Ok(()))) => (
            SendTo { phase: LoopPhase::Calling, ..s },
            Step::Do(Op::SendBuffer(s.dst)),
        ),
        (LoopPhase::Waiting, Event::Unit(Err(e))) => (
            SendTo { phase: LoopPhase::Finished, ..s },
            Step::Done(Err(e)),
        ),
        _ => (s, Step::Ignored),
    }
}

impl SendTo {
    /// Moves the sender on by one event.
    pub fn step(self, event: Event) -> (next: (SendTo, Step<usize>))
        ensures
            (next.0, plain_step(next.1)) == send_to_next(self, event@),
    {
        match (self.phase, event) {
            (LoopPhase::Calling, Event::Count(Ok(n))) => (
                SendTo { phase: LoopPhase::Finished, ..self },
                Step::Done(Ok(n)),
            ),
            (LoopPhase::Calling, Event::Count(Err(e))) => match e {
                VclError::WouldBlock => (
                    SendTo { phase: LoopPhase::Waiting, ..self },
                    Step::Do(Op::WaitWritable { timeout: SEND_WAIT }),
                ),
                other => (
                    SendTo { phase: LoopPhase::Finished, ..self },
                    Step::Done(Err(other)),
                ),
            },
            (LoopPhase::Waiting, Event::Unit(Ok(()))) => (
                SendTo { phase: LoopPhase::Calling, ..self },
                Step::Do(Op::SendBuffer(self.dst)),
            ),
            (LoopPhase::Waiting, Event::Unit(Err(e))) => (
                SendTo { phase: LoopPhase::Finished, ..self },
                Step::Done(Err(e)),
            ),
            _ => (self, Step::Ignored),
        }
    }
}

impl VclDgramSocket {
    /// Begins binding a datagram socket to `addr`. The text is how the address is
    /// written in a message.
    ///
    /// Receiving requires that the session listens; the backlog means nothing
    /// for datagrams.
    pub fn bind(addr: SocketAddr, addr_text: &str) -> (r: (ServerBind, Step<()>))
        ensures
            r.0@ == server_start(0, addr, addr_text@),
            plain_step(r.1) == UnitStep::Do(Op::Create { udp: true, nonblocking: true }),
    {
        ServerBind::start(true, 0, addr, addr_text)
    }

    /// Begins binding to a random ephemeral port of any IPv4 address, with the
    /// first port drawn.
    ///
    /// This is for clients that need only a source port of their own and do not
    /// care about the local address.
    pub fn bind_ephemeral_v4() -> (r: (EphemeralBind, Step<()>))
        ensures
            ephemeral_started(false, (r.0, plain_step(r.1))),
            r.0.wf(),
    {
        EphemeralBind::start_drawn(false)
    }

    /// Begins binding to a random ephemeral port of any IPv6 address, with the
    /// first port drawn.
    pub fn bind_ephemeral_v6() -> (r: (EphemeralBind, Step<()>))
        ensures
            ephemeral_started(true, (r.0, plain_step(r.1))),
            r.0.wf(),
    {
        EphemeralBind::start_drawn(true)
    }

    /// Begins receiving one datagram. The result is its length and its sender.
    pub fn recv_from() -> (r: (RecvFrom, Step<(usize, SocketAddr)>))
        ensures
            r.0 == (RecvFrom { phase: LoopPhase::Calling }),
            plain_step(r.1) == ArrivalStep::Do(Op::ReceiveInto),
    {
        (RecvFrom { phase: LoopPhase::Calling }, Step::Do(Op::ReceiveInto))
    }

    /// Begins sending one datagram to `dst`. The result is the number of bytes
    /// that were taken.
    pub fn send_to(dst: SocketAddr) -> (r: (SendTo, Step<usize>))
        ensures
            r.0 == (SendTo { dst, phase: LoopPhase::Calling }),
            plain_step(r.1) == CountStep::Do(Op::SendBuffer(dst)),
    {
        (SendTo { dst, phase: LoopPhase::Calling }, Step::Do(Op::SendBuffer(dst)))
    }

    /// The local address, where the session gave one.
    pub fn local_addr(answer: Result<SocketAddr, VclError>) -> (addr: Option<SocketAddr>)
        ensures
            addr == answer.ok(),
    {
        answer.ok()
    }
}

// ---- what a datagram socket is for ----

/// A refused port is replaced by another while fewer than eight were tried: the refusal
/// leads to a new port, and that to the bind of it at the wildcard of the same family,
/// with one port less to try. The refusal of the last port is the result, as it is.
pub proof fn refused_dgram_port_is_replaced(
    s: EphemeralBind,
    left: u8,
    why: VclError<Seq<char>>,
    port: u16,
)
    requires
        s.phase == (EphemeralPhase::Binding { left }),
    ensures
        ({
            let (picking, pick) = ephemeral_next(s, Event::Unit(Err(why)));
            let (binding, bind) = ephemeral_next(picking, Event::Port(port));
            &&& left == 0 ==> pick == UnitStep::Done(Err(why))
            &&& left > 0 ==> pick == UnitStep::Do(Op::PickPort)
            &&& left > 0 ==> bind == UnitStep::Do(
                Op::BindDgram(SocketAddr { ip: wildcard(s.v6), port }),
            )
            &&& left > 0 ==> binding.v6 == s.v6 && binding.phase == (EphemeralPhase::Binding {
                left: (left - 1) as u8,
            })
        }),
{
}

/// A bind to an ephemeral port begins with its first port, and may try seven more; the
/// family is the one asked for.
pub proof fn ephemeral_bind_begins(v6: bool, port: u16, r: (EphemeralBind, UnitStep))
    ensures
        ({
            let (binding, bind) = ephemeral_next(ephemeral_start(v6), Event::Port(port));
            &&& binding.phase == (EphemeralPhase::Binding { left: 7 }) && binding.v6 == v6
            &&& bind == UnitStep::Do(Op::BindDgram(SocketAddr { ip: wildcard(v6), port }))
        }),
        ephemeral_started(v6, r) ==> {
            &&& r.0.v6 == v6 && r.0.phase == (EphemeralPhase::Binding { left: 7 })
            &&& r.1 matches Step::Do(Op::BindDgram(addr)) && addr.ip == wildcard(v6) && 32768
                <= addr.port <= 60999
        },
{
}

/// A bind to an ephemeral port ends only with what a bind returned: with success where one
/// succeeded, and with a refusal where that of the last port was this one. What answers
/// nothing that it asked for changes nothing.
pub proof fn ephemeral_bind_ends_only_for_a_reason(s: EphemeralBind, event: EventView)
    ensures
        (ephemeral_next(s, event).1 matches Step::Done(Ok(_))) <==> s.phase is Binding
            && succeeded(event),
        ephemeral_next(s, event).1 matches Step::Done(Err(e)) ==> event == EventView::Unit(Err(e))
            && s.phase == (EphemeralPhase::Binding { left: 0 }),
        !(ephemeral_next(s, event).1 is Close),
        ephemeral_next(s, event).1 is Ignored ==> ephemeral_next(s, event).0 == s,
        ephemeral_next(s, event).1 is Ignored <==> match s.phase {
            EphemeralPhase::Picking { .. } => !(event is Port),
            EphemeralPhase::Binding { .. } => !(event is Unit),
            EphemeralPhase::Finished => true,
        },
        ephemeral_next(s, event).0.v6 == s.v6,
{
}

/// Where ports are drawn as they are needed, a refusal is followed by the bind of another
/// ephemeral port while one may be tried, and everything else is as without the draws.
pub proof fn drawing_a_dgram_port_adds_only_the_port(
    s: EphemeralBind,
    event: EventView,
    r: (EphemeralBind, UnitStep),
)
    requires
        ephemeral_advanced(s, event, r),
    ensures
        ephemeral_next(s, event).1 != UnitStep::Do(Op::PickPort) ==> r == ephemeral_next(s, event),
        (s.phase matches EphemeralPhase::Binding { left } && left > 0 && event matches Event::Unit(
            Err(_),
        )) ==> {
            &&& r.1 matches Step::Do(Op::BindDgram(addr)) && addr.ip == wildcard(s.v6) && 32768
                <= addr.port <= 60999
            &&& r.0.v6 == s.v6 && r.0.phase == (EphemeralPhase::Binding {
                left: (s.phase->Binding_left - 1) as u8,
            })
        },
{
}

/// A datagram that is not there yet is waited for, for up to 300 seconds, and a wait that
/// is over, whether something came or its time ran out, leads back to the very same call.
pub proof fn absent_datagram_is_waited_for(s: RecvFrom, waited: EventView)
    requires
        s.phase is Calling,
        succeeded(waited) || waited == EventView::Unit(Err(VclError::Timeout)),
    ensures
        ({
            let (waiting, wait) = recv_from_next(s, Event::Arrived(Err(VclError::WouldBlock)));
            let (again, call) = recv_from_next(waiting, waited);
            &&& wait == ArrivalStep::Do(Op::WaitReadable { timeout: 300_000_000_000 })
            &&& call == ArrivalStep::Do(Op::ReceiveInto)
            &&& again == s
        }),
{
}

/// Receiving ends exactly with a datagram that arrived, as it arrived, or with the failure
/// of the call, other than that nothing was there, or of the wait, other than that its
/// time ran out. What answers nothing that it asked for changes nothing.
pub proof fn receiving_ends_only_for_a_reason(
    s: RecvFrom,
    event: EventView,
    arrival: (usize, SocketAddr),
    e: VclError<Seq<char>>,
)
    ensures
        recv_from_next(s, event).1 == ArrivalStep::Done(Ok(arrival)) <==> s.phase is Calling
            && event == EventView::Arrived(Ok(arrival)),
        recv_from_next(s, event).1 == ArrivalStep::Done(Err(e)) <==> match s.phase {
            LoopPhase::Calling => event == EventView::Arrived(Err(e)) && !(e is WouldBlock),
            LoopPhase::Waiting => event == EventView::Unit(Err(e)) && !(e is Timeout),
            LoopPhase::Finished => false,
        },
        !(recv_from_next(s, event).1 is Close),
        recv_from_next(s, event).1 is Ignored ==> recv_from_next(s, event).0 == s,
        recv_from_next(s, event).1 is Ignored <==> match s.phase {
            LoopPhase::Calling => !(event is Arrived),
            LoopPhase::Waiting => !(event is Unit),
            LoopPhase::Finished => true,
        },
{
}

/// Space that is not there yet is waited for, for up to 30 seconds, and a wait that
/// succeeded leads back to the very same call, to the same destination.
pub proof fn absent_space_is_waited_for(s: SendTo)
    requires
        s.phase is Calling,
    ensures
        ({
            let (waiting, wait) = send_to_next(s, Event::Count(Err(VclError::WouldBlock)));
            let (again, call) = send_to_next(waiting, Event::Unit(Ok(())));
            &&& wait == CountStep::Do(Op::WaitWritable { timeout: 30_000_000_000 })
            &&& call == CountStep::Do(Op::SendBuffer(s.dst))
            &&& again == s
        }),
{
}

/// Sending ends exactly with the count that the call returned, or with the failure of the
/// call, other than that there was no space, or of the wait. Whatever it sends goes to its
/// destination, and what answers nothing that it asked for changes nothing.
pub proof fn sending_ends_only_for_a_reason(
    s: SendTo,
    event: EventView,
    n: usize,
    e: VclError<Seq<char>>,
)
    ensures
        send_to_next(s, event).1 == CountStep::Done(Ok(n)) <==> s.phase is Calling && event
            == EventView::Count(Ok(n)),
        send_to_next(s, event).1 == CountStep::Done(Err(e)) <==> match s.phase {
            LoopPhase::Calling => event == EventView::Count(Err(e)) && !(e is WouldBlock),
            LoopPhase::Waiting => event == EventView::Unit(Err(e)),
            LoopPhase::Finished => false,
        },
        !(send_to_next(s, event).1 is Close),
        send_to_next(s, event).0.dst == s.dst,
        send_to_next(s, event).1 is Ignored ==> send_to_next(s, event).0 == s,
        send_to_next(s, event).1 is Ignored <==> match s.phase {
            LoopPhase::Calling => !(event is Count),
            LoopPhase::Waiting => !(event is Unit),
            LoopPhase::Finished => true,
        },
{
}

} // verus!
