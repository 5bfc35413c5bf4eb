//! Synchronous datagram exchanges: one-shot queries, the probe for the local
//! source address, and the long-lived socket of a query worker.

use vstd::prelude::*;
use vstd::slice::slice_to_vec;

use crate::addr::{IpAddr, SocketAddr};
#[allow(unused_imports)]
use crate::addr::wildcard;
use crate::ephemeral::{ephemeral_port, open_step, BindPlan, OpenStage, Opening};
#[allow(unused_imports)]
use crate::ephemeral::{is_ephemeral, labelled, open_next, opening_keeps_its_address, serves};
use crate::error::VclError;
#[allow(unused_imports)]
use crate::error::failure;
use crate::ffi::VclCall;
#[allow(unused_imports)]
use crate::ffi::{empty_endpoint, AttrBuffer, VPPCOM_ATTR_GET_LCL_ADDR};
use crate::ops::{deadline, Close, Event, Op, Step, Target};
#[allow(unused_imports)]
use crate::ops::{
    datagram_step, deadline_after, plain_step, result_of, succeeded, AddrStep, DatagramStep,
    EventView, UnitStep,
};
use crate::session::SessionHandle;

verus! {

/// The longest datagram that is received.
pub const DATAGRAM_LEN: usize = 4096;

/// How long an exchange sleeps before it looks for a datagram again.
pub const POLL_MS: u32 = 5;

/// How far an exchange has come.
#[derive(Debug, Clone, Copy)]
pub enum ExchangePhase {
    Sending,
    /// The query is on its way; the deadline starts now.
    Stamping,
    Receiving { deadline: u128 },
    /// Nothing of use came, which the clock is read for: nothing at all, or a
    /// stray datagram.
    Checking { deadline: u128, stray: bool },
    Sleeping { deadline: u128 },
    Finished,
}

/// Sending one datagram and waiting for the response.
#[derive(Debug)]
pub struct UdpExchange<B = Vec<u8>> {
    pub peer: SocketAddr,
    /// Whether only a datagram from the peer's address is a response.
    pub peer_only: bool,
    pub timeout: u128,
    pub query: B,
    pub phase: ExchangePhase,
}

/// An exchange in the terms of contracts.
pub type ExchangeView = UdpExchange<Seq<u8>>;

impl View for UdpExchange {
    type V = ExchangeView;

    open spec fn view(&self) -> ExchangeView {
        UdpExchange {
            peer: self.peer,
            peer_only: self.peer_only,
            timeout: self.timeout,
            query: self.query@,
            phase: self.phase,
        }
    }
}

impl UdpExchange<Seq<u8>> {
    /// The same exchange in another phase, with what it does there.
    pub open spec fn doing(self, phase: ExchangePhase, op: Op) -> (ExchangeView, DatagramStep) {
        (UdpExchange { phase, ..self }, Step::Do(op))
    }

    /// The exchange is over with this result.
    pub open spec fn over(
        self,
        r: Result<(Seq<u8>, SocketAddr), VclError<Seq<char>>>,
    ) -> (ExchangeView, DatagramStep) {
        (UdpExchange { phase: ExchangePhase::Finished, ..self }, Step::Done(r))
    }

    /// Whether a datagram from `from` is a response.
    pub open spec fn awaits(self, from: SocketAddr) -> bool {
        self.peer_only ==> from.ip == self.peer.ip
    }
}

/// The exchange and its step after an event.
pub open spec fn exchange_next(s: ExchangeView, event: EventView) -> (ExchangeView, DatagramStep) {
    match (s.phase, event) {
        (ExchangePhase::Sending, Event::Count(Ok(_))) => s.doing(
            ExchangePhase::Stamping,
            Op::ReadClock,
        ),
        (ExchangePhase::Sending, Event::Count(Err(e))) => s.over(Err(e)),
        (ExchangePhase::Stamping, Event::Clock(now)) => s.doing(
            ExchangePhase::Receiving { deadline: deadline_after(now, s.timeout) },
            Op::Receive { max: DATAGRAM_LEN },
        ),
        (ExchangePhase::Receiving { deadline }, Event::Datagram(Ok((bytes, from)))) => if s.awaits(
            from,
        ) {
            s.over(Ok((bytes, from)))
        } else {
            s.doing(ExchangePhase::Checking { deadline, stray: true }, Op::ReadClock)
        },
        (ExchangePhase::Receiving { deadline }, Event::Datagram(Err(e))) => if e is WouldBlock {
            s.doing(ExchangePhase::Checking { deadline, stray: false }, Op::ReadClock)
        } else {
            s.over(Err(e))
        },
        (ExchangePhase::Checking { deadline, stray }, Event::Clock(now)) => if now >= deadline {
            s.over(Err(VclError::Timeout))
        } else if stray {
            s.doing(ExchangePhase::Receiving { deadline }, Op::Receive { max: DATAGRAM_LEN })
        } else {
            s.doing(ExchangePhase::Sleeping { deadline }, Op::Sleep { ms: POLL_MS })
        },
        (ExchangePhase::Sleeping { deadline }, Event::Elapsed) => s.doing(
            ExchangePhase::Receiving { deadline },
            Op::Receive { max: DATAGRAM_LEN },
        ),
        _ => (s, Step::Ignored),
    }
}

impl UdpExchange {
    fn enter(self, phase: ExchangePhase, op: Op) -> (next: (
        UdpExchange,
        Step<(Vec<u8>, SocketAddr)>,
    ))
        ensures
            (next.0@, datagram_step(next.1)) == self@.doing(phase, op),
    {
        (UdpExchange { phase, ..self }, Step::Do(op))
    }

    fn finish(self, r: Result<(Vec<u8>, SocketAddr), VclError>) -> (next: (
        UdpExchange,
        Step<(Vec<u8>, SocketAddr)>,
    ))
        ensures
            (next.0@, datagram_step(next.1)) == self@.over(
                match r {
                    Ok((bytes, from)) => Ok((bytes@, from)),
                    Err(e) => Err(e@),
                },
            ),
    {
        (UdpExchange { phase: ExchangePhase::Finished, ..self }, Step::Done(r))
    }

    /// The bytes that are sent.
    pub fn outgoing(&self) -> (bytes: &[u8])
        ensures
            bytes@ == self@.query,
    {
        self.query.as_slice()
    }

    /// Moves the exchange on by one event.
    pub fn step(self, event: Event) -> (next: (UdpExchange, Step<(Vec<u8>, SocketAddr)>))
        ensures
            (next.0@, datagram_step(next.1)) == exchange_next(self@, event@),
    {
        match (self.phase, event) {
            (ExchangePhase::Sending, Event::Count(Ok(_))) => self.enter(
                ExchangePhase::Stamping,
                Op::ReadClock,
            ),
            (ExchangePhase::Sending, Event::Count(Err(e))) => self.finish(Err(e)),
            (ExchangePhase::Stamping, Event::Clock(now)) => {
                let at = deadline(now, self.timeout);
                self.enter(
                    ExchangePhase::Receiving { deadline: at },
                    Op::Receive { max: DATAGRAM_LEN },
                )
            },
            (ExchangePhase::Receiving { deadline }, Event::Datagram(Ok((bytes, from)))) => {
                if !self.peer_only || from.ip.same(&self.peer.ip) {
                    self.finish(Ok((bytes, from)))
                } else {
                    self.enter(ExchangePhase::Checking { deadline, stray: true }, Op::ReadClock)
                }
            },
            (ExchangePhase::Receiving { deadline }, Event::Datagram(Err(e))) => match e {
                VclError::WouldBlock => self.enter(
                    ExchangePhase::Checking { deadline, stray: false },
                    Op::ReadClock,
                ),
                other => self.finish(Err(other)),
            },
            (ExchangePhase::Checking { deadline, stray }, Event::Clock(now)) => {
                if now >= deadline {
                    self.finish(Err(VclError::Timeout))
                } else if stray {
                    self.enter(
                        ExchangePhase::Receiving { deadline },
                        Op::Receive { max: DATAGRAM_LEN },
                    )
                } else {
                    self.enter(ExchangePhase::Sleeping { deadline }, Op::Sleep { ms: POLL_MS })
                }
            },
            (ExchangePhase::Sleeping { deadline }, Event::Elapsed) => self.enter(
                ExchangePhase::Receiving { deadline },
                Op::Receive { max: DATAGRAM_LEN },
            ),
            _ => (self, Step::Ignored),
        }
    }
}

/// What an exchange returns is a datagram it has just received; with `peer_only`
/// it came from the peer's address. Any other datagram is discarded and the
/// exchange goes on unless its time is over.
pub proof fn exchange_answers_with_a_response(s: ExchangeView, event: EventView)
    ensures
        exchange_next(s, event).1 matches Step::Done(Ok((bytes, from))) ==> {
            &&& event == EventView::Datagram(Ok((bytes, from)))
            &&& s.peer_only ==> from.ip == s.peer.ip
        },
        (s.phase matches ExchangePhase::Receiving { deadline } && event matches Event::Datagram(
            Ok((bytes, from)),
        ) && !s.awaits(from)) ==> exchange_next(s, event).1 == DatagramStep::Do(Op::ReadClock),
        (s.phase matches ExchangePhase::Checking { deadline, stray } && event matches Event::Clock(
            now,
        ) && now < deadline && stray) ==> exchange_next(s, event).1 == DatagramStep::Do(
            Op::Receive { max: DATAGRAM_LEN },
        ),
{
}

/// The deadline is kept, whatever arrives: once a reading of the clock shows
/// that it has passed, the exchange ends there with a timeout, and after a look
/// that found no response the next look, or the sleep before it, is begun only
/// on a reading that shows that it has not.
pub proof fn exchange_keeps_its_deadline(s: ExchangeView, event: EventView)
    ensures
        (s.phase matches ExchangePhase::Checking { deadline, stray } && event matches Event::Clock(
            now,
        ) && now >= deadline) ==> exchange_next(s, event).1 == DatagramStep::Done(
            Err(VclError::Timeout),
        ),
        s.phase is Receiving ==> (exchange_next(s, event).1 matches Step::Do(op) ==> op
            is ReadClock && exchange_next(s, event).0.phase is Checking),
        exchange_next(s, event).1 matches Step::Do(Op::Sleep { .. }) ==> (s.phase matches
            ExchangePhase::Checking { deadline, stray } && event matches Event::Clock(now) && now
            < deadline),
        exchange_next(s, event).1 matches Step::Do(Op::Receive { .. }) ==> match s.phase {
            ExchangePhase::Stamping => true,
            ExchangePhase::Sleeping { .. } => true,
            ExchangePhase::Checking { deadline, stray } => event matches Event::Clock(now) && now
                < deadline,
            _ => false,
        },
{
}

/// The query is sent once: no event makes an exchange send again.
pub proof fn exchange_sends_once(s: ExchangeView, event: EventView)
    ensures
        !(exchange_next(s, event).1 matches Step::Do(Op::SendTo(_))),
        exchange_next(s, event).0.phase is Sending ==> exchange_next(s, event) == (
            s,
            DatagramStep::Ignored,
        ),
{
}

// ---- one-shot query ----

/// What to bind the session of a one-shot query to: the requested source when it
/// is of the peer's family, and without one the wildcard of that family.
pub open spec fn udp_source_plan(
    source: Option<(IpAddr, Seq<char>)>,
    peer: SocketAddr,
    peer_text: Seq<char>,
) -> BindPlan<Seq<char>> {
    match source {
        None => BindPlan::Bind(wildcard(peer.ip is V6)),
        Some((ip, text)) => if ip is V4 == peer.ip is V4 {
            BindPlan::Bind(ip)
        } else {
            BindPlan::Refuse(
                failure(
                    "source IP family ("@ + text + ") doesn't match peer family ("@ + peer_text
                        + ")"@,
                ),
            )
        },
    }
}

/// What to bind the session of a one-shot query to. The texts are how the
/// addresses are written in a message.
pub fn plan_udp_source(
    source: Option<(IpAddr, &str)>,
    peer: SocketAddr,
    peer_text: &str,
) -> (plan: BindPlan)
    ensures
        plan@ == udp_source_plan(labelled(source), peer, peer_text@),
{
    match source {
        None => BindPlan::Bind(IpAddr::wildcard(!peer.ip.is_ipv4())),
        Some((ip, text)) => {
            if ip.is_ipv4() == peer.ip.is_ipv4() {
                BindPlan::Bind(ip)
            } else {
                let mut message: String = "source IP family (".to_owned();
                message.append(text);
                message.append(") doesn't match peer family (");
                message.append(peer_text);
                message.append(")");
                BindPlan::Refuse(VclError::failure(message.as_str()))
            }
        },
    }
}

/// How far a one-shot query has come.
#[derive(Debug)]
pub enum UdpPhase<S = String> {
    Opening(OpenStage<S>),
    Listening,
    Exchanging,
}

/// A datagram query over a session of its own.
#[derive(Debug)]
pub struct UdpSync<S = String, B = Vec<u8>> {
    pub exchange: UdpExchange<B>,
    pub phase: UdpPhase<S>,
}

/// A one-shot query in the terms of contracts.
pub type UdpView = UdpSync<Seq<char>, Seq<u8>>;

impl View for UdpPhase {
    type V = UdpPhase<Seq<char>>;

    open spec fn view(&self) -> UdpPhase<Seq<char>> {
        match *self {
            UdpPhase::Opening(stage) => UdpPhase::Opening(stage@),
            UdpPhase::Listening => UdpPhase::Listening,
            UdpPhase::Exchanging => UdpPhase::Exchanging,
        }
    }
}

impl View for UdpSync {
    type V = UdpView;

    open spec fn view(&self) -> UdpView {
        UdpSync { exchange: self.exchange@, phase: self.phase@ }
    }
}

impl UdpSync<Seq<char>, Seq<u8>> {
    /// The opening of the session is within its bounds, and nothing is sent before the
    /// session listens.
    pub open spec fn wf(self) -> bool {
        match self.phase {
            UdpPhase::Opening(stage) => stage.wf() && self.exchange.phase is Sending,
            UdpPhase::Listening => self.exchange.phase is Sending,
            UdpPhase::Exchanging => true,
        }
    }

    /// The same query in another phase, with what it does there.
    pub open spec fn doing(self, phase: UdpPhase<Seq<char>>, op: Op) -> (UdpView, DatagramStep) {
        (UdpSync { phase, ..self }, Step::Do(op))
    }
}

/// A query that is over before anything was sent.
pub open spec fn udp_ended(exchange: ExchangeView) -> UdpView {
    UdpSync {
        exchange: UdpExchange { phase: ExchangePhase::Finished, ..exchange },
        phase: UdpPhase::Exchanging,
    }
}

/// A query that failed before anything was sent, and closes its session.
pub open spec fn udp_failed(exchange: ExchangeView, e: VclError<Seq<char>>) -> (
    UdpView,
    DatagramStep,
) {
    (udp_ended(exchange), Step::Close(Close::Session(Target::Own), Err(e)))
}

/// The query and its step after an event.
pub open spec fn udp_next(s: UdpView, event: EventView) -> (UdpView, DatagramStep) {
    match s.phase {
        UdpPhase::Opening(stage) => match open_next(stage, event) {
            Opening::Do(op, next) => s.doing(UdpPhase::Opening(next), op),
            Opening::Ready => s.doing(UdpPhase::Listening, Op::Listen { backlog: 0 }),
            Opening::Exhausted => udp_failed(
                s.exchange,
                failure("ephemeral bind exhausted"@),
            ),
            Opening::Refused(e) => udp_failed(s.exchange, e),
            Opening::Failed(e) => (udp_ended(s.exchange), Step::Done(Err(e))),
            Opening::Ignored(_) => (s, Step::Ignored),
        },
        UdpPhase::Listening => match event {
            Event::Unit(Ok(())) => s.doing(UdpPhase::Exchanging, Op::SendTo(s.exchange.peer)),
            Event::Unit(Err(e)) => udp_failed(s.exchange, e),
            _ => (s, Step::Ignored),
        },
        UdpPhase::Exchanging => {
            let (exchange, step) = exchange_next(s.exchange, event);
            (
                UdpSync { exchange, ..s },
                match step {
                    Step::Done(r) => Step::Close(Close::Session(Target::Own), r),
                    other => other,
                },
            )
        },
    }
}

/// A one-shot query that has not begun.
pub open spec fn udp_start(
    peer: SocketAddr,
    plan: BindPlan<Seq<char>>,
    query: Seq<u8>,
    timeout: u128,
) -> UdpView {
    UdpSync {
        exchange: UdpExchange {
            peer,
            peer_only: false,
            timeout,
            query,
            phase: ExchangePhase::Sending,
        },
        phase: UdpPhase::Opening(OpenStage::Creating(plan)),
    }
}

/// Begins a one-shot datagram query: opens a fresh session, binds it to an
/// ephemeral port, sends `query` to `peer` and looks for the first response for
/// at most `timeout` nanoseconds.
///
/// The texts are how the addresses are written in a message.
pub fn query_udp_sync(
    peer: SocketAddr,
    peer_text: &str,
    source: Option<(IpAddr, &str)>,
    query: &[u8],
    timeout: u128,
) -> (r: (UdpSync, Step<(Vec<u8>, SocketAddr)>))
    ensures
        r.0@ == udp_start(
            peer,
            udp_source_plan(labelled(source), peer, peer_text@),
            query@,
            timeout,
        ),
        r.0@.wf(),
        datagram_step(r.1) == DatagramStep::Do(Op::Create { udp: true, nonblocking: true }),
{
    let plan = plan_udp_source(source, peer, peer_text);
    (
        UdpSync {
            exchange: UdpExchange {
                peer,
                peer_only: false,
                timeout,
                query: slice_to_vec(query),
                phase: ExchangePhase::Sending,
            },
            phase: UdpPhase::Opening(OpenStage::Creating(plan)),
        },
        Step::Do(Op::Create { udp: true, nonblocking: true }),
    )
}

impl UdpSync {
    fn ended(exchange: UdpExchange) -> (s: UdpSync)
        ensures
            s@ == udp_ended(exchange@),
    {
        UdpSync {
            exchange: UdpExchange { phase: ExchangePhase::Finished, ..exchange },
            phase: UdpPhase::Exchanging,
        }
    }

    fn fail(exchange: UdpExchange, e: VclError) -> (next: (
        UdpSync,
        Step<(Vec<u8>, SocketAddr)>,
    ))
        ensures
            (next.0@, datagram_step(next.1)) == udp_failed(exchange@, e@),
    {
        (UdpSync::ended(exchange), Step::Close(Close::Session(Target::Own), Err(e)))
    }

    /// The bytes that are sent.
    pub fn outgoing(&self) -> (bytes: &[u8])
        ensures
            bytes@ == self@.exchange.query,
    {
        self.exchange.outgoing()
    }

    /// Moves the query on by one event.
    pub fn step(self, event: Event) -> (next: (UdpSync, Step<(Vec<u8>, SocketAddr)>))
        requires
            self@.wf(),
        ensures
            (next.0@, datagram_step(next.1)) == udp_next(self@, event@),
            next.0@.wf(),
    {
        let UdpSync { exchange, phase } = self;
        match phase {
            UdpPhase::Opening(stage) => match open_step(stage, event) {
                Opening::Do(op, next) => (
                    UdpSync { exchange, phase: UdpPhase::Opening(next) },
                    Step::Do(op),
                ),
                Opening::Ready => (
                    UdpSync { exchange, phase: UdpPhase::Listening },
                    Step::Do(Op::Listen { backlog: 0 }),
                ),
                Opening::Exhausted => UdpSync::fail(
                    exchange,
                    VclError::failure("ephemeral bind exhausted"),
                ),
                Opening::Refused(e) => UdpSync::fail(exchange, e),
                Opening::Failed(e) => (UdpSync::ended(exchange), Step::Done(Err(e))),
                Opening::Ignored(same) => (
                    UdpSync { exchange, phase: UdpPhase::Opening(same) },
                    Step::Ignored,
                ),
            },
            UdpPhase::Listening => match event {
                Event::Unit(Ok(())) => {
                    let peer = exchange.peer;
                    (
                        UdpSync { exchange, phase: UdpPhase::Exchanging },
                        Step::Do(Op::SendTo(peer)),
                    )
                },
                Event::Unit(Err(e)) => UdpSync::fail(exchange, e),
                _ => (UdpSync { exchange, phase }, Step::Ignored),
            },
            UdpPhase::Exchanging => {
                let (exchange, step) = exchange.step(event);
                let s = UdpSync { exchange, phase };
                match step {
                    Step::Done(r) => (s, Step::Close(Close::Session(Target::Own), r)),
                    other => (s, other),
                }
            },
        }
    }

    /// Moves the query on by one event, and draws the port where one is needed:
    /// a bind that this asks for is to a port of the ephemeral range.
    pub fn advance(self, event: Event) -> (next: (UdpSync, Step<(Vec<u8>, SocketAddr)>))
        requires
            self@.wf(),
        ensures
            udp_advanced(self@, event@, (next.0@, datagram_step(next.1))),
            next.0@.wf(),
    {
        let (q, step) = self.step(event);
        match step {
            Step::Do(Op::PickPort) => {
                let port = ephemeral_port();
                assert(is_ephemeral(port));
                q.step(Event::Port(port))
            },
            other => (q, other),
        }
    }
}

/// What one event leads to when ports are drawn as they are needed.
pub open spec fn udp_advanced(s: UdpView, event: EventView, r: (UdpView, DatagramStep)) -> bool {
    let (q, step) = udp_next(s, event);
    if step == DatagramStep::Do(Op::PickPort) {
        exists|port: u16| #[trigger] is_ephemeral(port) && r == udp_next(q, Event::Port(port))
    } else {
        r == (q, step)
    }
}

/// Where ports are drawn as they are needed, every bind is to a port of the
/// ephemeral range: never to port 0.
pub proof fn udp_binds_are_ephemeral(s: UdpView, event: EventView, r: (UdpView, DatagramStep))
    requires
        !(event is Port),
        udp_advanced(s, event, r),
    ensures
        r.1 matches Step::Do(Op::Bind(addr)) ==> is_ephemeral(addr.port) && addr.port != 0,
{
}

/// A one-shot query is sent only once its session listens, and so only once the
/// session is open and bound.
pub proof fn query_is_sent_once_listening(s: UdpView, event: EventView)
    ensures
        udp_next(s, event).1 matches Step::Do(Op::SendTo(to)) ==> {
            &&& s.phase is Listening && succeeded(event)
            &&& to == s.exchange.peer
        },
        udp_next(s, event).0.phase is Listening && !(s.phase is Listening) ==> (s.phase matches
            UdpPhase::Opening(stage) && open_next(stage, event) is Ready),
{
}

/// Whether the session of a one-shot query is open.
pub open spec fn udp_session_open(s: UdpView) -> bool {
    match s.phase {
        UdpPhase::Opening(OpenStage::Creating(_)) => false,
        UdpPhase::Exchanging => !(s.exchange.phase is Finished),
        _ => true,
    }
}

/// A one-shot query closes its session, on every way out: it ends with nothing to
/// close only where the session could not be opened, and keeps it until it ends.
pub proof fn udp_query_closes_its_session(s: UdpView, event: EventView)
    requires
        s.wf(),
    ensures
        udp_next(s, event).1 matches Step::Done(r) ==> !udp_session_open(s) && (r matches Err(e)
            && event == EventView::Unit(Err(e))),
        udp_next(s, event).1 matches Step::Close(close, _) ==> close == Close::Session(
            Target::Own,
        ) && (udp_session_open(s) || succeeded(event)),
        udp_session_open(s) && result_of(udp_next(s, event).1) is None ==> udp_session_open(
            udp_next(s, event).0,
        ),
        result_of(udp_next(s, event).1) is Some ==> !udp_session_open(udp_next(s, event).0),
{
}

// ---- probe ----

/// How far a probe has come.
#[derive(Debug)]
pub enum ProbePhase<S = String> {
    Opening(OpenStage<S>),
    Sending,
    Asking,
    Finished,
}

/// Asking VPP which local address it would send from.
#[derive(Debug)]
pub struct ProbeLocalSource<S = String> {
    pub peer: SocketAddr,
    pub phase: ProbePhase<S>,
}

/// A probe in the terms of contracts.
pub type ProbeView = ProbeLocalSource<Seq<char>>;

impl View for ProbePhase {
    type V = ProbePhase<Seq<char>>;

    open spec fn view(&self) -> ProbePhase<Seq<char>> {
        match *self {
            ProbePhase::Opening(stage) => ProbePhase::Opening(stage@),
            ProbePhase::Sending => ProbePhase::Sending,
            ProbePhase::Asking => ProbePhase::Asking,
            ProbePhase::Finished => ProbePhase::Finished,
        }
    }
}

impl View for ProbeLocalSource {
    type V = ProbeView;

    open spec fn view(&self) -> ProbeView {
        ProbeLocalSource { peer: self.peer, phase: self.phase@ }
    }
}

impl ProbeLocalSource<Seq<char>> {
    /// The opening of the session is within its bounds.
    pub open spec fn wf(self) -> bool {
        match self.phase {
            ProbePhase::Opening(stage) => stage.wf(),
            _ => true,
        }
    }

    /// The probe once it is over.
    pub open spec fn ended(self) -> ProbeView {
        ProbeLocalSource { phase: ProbePhase::Finished, ..self }
    }

    /// The probe is over with this result, and closes its session.
    pub open spec fn over(self, r: Result<SocketAddr, VclError<Seq<char>>>) -> (
        ProbeView,
        AddrStep,
    ) {
        (self.ended(), Step::Close(Close::Session(Target::Own), r))
    }
}

/// The one octet that a probe sends.
pub open spec fn probe_bytes() -> Seq<u8> {
    seq![0u8]
}

/// The probe and its step after an event.
pub open spec fn probe_next(s: ProbeView, event: EventView) -> (ProbeView, AddrStep) {
    match s.phase {
        ProbePhase::Opening(stage) => match open_next(stage, event) {
            Opening::Do(op, next) => (
                ProbeLocalSource { phase: ProbePhase::Opening(next), ..s },
                Step::Do(op),
            ),
            Opening::Ready => (
                ProbeLocalSource { phase: ProbePhase::Sending, ..s },
                Step::Do(Op::SendTo(s.peer)),
            ),
            Opening::Exhausted => s.over(Err(failure("probe: ephemeral bind exhausted"@))),
            Opening::Refused(e) => s.over(Err(e)),
            Opening::Failed(e) => (s.ended(), Step::Done(Err(e))),
            Opening::Ignored(_) => (s, Step::Ignored),
        },
        ProbePhase::Sending => match event {
            Event::Count(Ok(_)) => (
                ProbeLocalSource { phase: ProbePhase::Asking, ..s },
                Step::Do(Op::LocalAddr),
            ),
            Event::Count(Err(e)) => s.over(Err(e)),
            _ => (s, Step::Ignored),
        },
        ProbePhase::Asking => match event {
            Event::Address(r) => s.over(r),
            _ => (s, Step::Ignored),
        },
        ProbePhase::Finished => (s, Step::Ignored),
    }
}

/// A probe that has not begun.
pub open spec fn probe_start(peer: SocketAddr) -> ProbeView {
    ProbeLocalSource {
        peer,
        phase: ProbePhase::Opening(
            OpenStage::Creating(BindPlan::Bind(wildcard(peer.ip is V6))),
        ),
    }
}

/// Begins asking VPP which local address it would pick to send to `peer`.
///
/// A blocking session is bound to the wildcard of the peer's family and sends a
/// datagram of one octet, which makes VPP look up the route and select the
/// source; the session's local address is then that source, and the session is
/// closed.
pub fn probe_local_source(peer: SocketAddr) -> (r: (ProbeLocalSource, Step<SocketAddr>))
    ensures
        r.0@ == probe_start(peer),
        r.0@.wf(),
        plain_step(r.1) == AddrStep::Do(Op::Create { udp: true, nonblocking: false }),
{
    let plan = BindPlan::Bind(IpAddr::wildcard(!peer.ip.is_ipv4()));
    (
        ProbeLocalSource { peer, phase: ProbePhase::Opening(OpenStage::Creating(plan)) },
        Step::Do(Op::Create { udp: true, nonblocking: false }),
    )
}

impl ProbeLocalSource {
    /// The bytes that are sent.
    pub fn outgoing(&self) -> (bytes: [u8; 1])
        ensures
            bytes@ == probe_bytes(),
    {
        let bytes: [u8; 1] = [0u8];
        assert(bytes@ =~= probe_bytes());
        bytes
    }

    fn finish(peer: SocketAddr, r: Result<SocketAddr, VclError>) -> (next: (
        ProbeLocalSource,
        Step<SocketAddr>,
    ))
        ensures
            next.0@ == (ProbeView { peer, phase: ProbePhase::Finished }),
            next.1 == Step::<SocketAddr>::Close(Close::Session(Target::Own), r),
    {
        (
            ProbeLocalSource { peer, phase: ProbePhase::Finished },
            Step::Close(Close::Session(Target::Own), r),
        )
    }

    /// Moves the probe on by one event.
    pub fn step(self, event: Event) -> (next: (ProbeLocalSource, Step<SocketAddr>))
        requires
            self@.wf(),
        ensures
            (next.0@, plain_step(next.1)) == probe_next(self@, event@),
            next.0@.wf(),
    {
        let ProbeLocalSource { peer, phase } = self;
        match phase {
            ProbePhase::Opening(stage) => match open_step(stage, event) {
                Opening::Do(op, next) => (
                    ProbeLocalSource { peer, phase: ProbePhase::Opening(next) },
                    Step::Do(op),
                ),
                Opening::Ready => (
                    ProbeLocalSource { peer, phase: ProbePhase::Sending },
                    Step::Do(Op::SendTo(peer)),
                ),
                Opening::Exhausted => ProbeLocalSource::finish(
                    peer,
                    Err(VclError::failure("probe: ephemeral bind exhausted")),
                ),
                Opening::Refused(e) => ProbeLocalSource::finish(peer, Err(e)),
                Opening::Failed(e) => (
                    ProbeLocalSource { peer, phase: ProbePhase::Finished },
                    Step::Done(Err(e)),
                ),
                Opening::Ignored(same) => (
                    ProbeLocalSource { peer, phase: ProbePhase::Opening(same) },
                    Step::Ignored,
                ),
            },
            ProbePhase::Sending => match event {
                Event::Count(Ok(_)) => (
                    ProbeLocalSource { peer, phase: ProbePhase::Asking },
                    Step::Do(Op::LocalAddr),
                ),
                Event::Count(Err(e)) => ProbeLocalSource::finish(peer, Err(e)),
                _ => (ProbeLocalSource { peer, phase }, Step::Ignored),
            },
            ProbePhase::Asking => match event {
                Event::Address(r) => ProbeLocalSource::finish(peer, r),
                _ => (ProbeLocalSource { peer, phase }, Step::Ignored),
            },
            ProbePhase::Finished => (ProbeLocalSource { peer, phase }, Step::Ignored),
        }
    }

    /// Moves the probe on by one event, and draws the port where one is needed:
    /// a bind that this asks for is to a port of the ephemeral range.
    pub fn advance(self, event: Event) -> (next: (ProbeLocalSource, Step<SocketAddr>))
        requires
            self@.wf(),
        ensures
            probe_advanced(self@, event@, (next.0@, plain_step(next.1))),
            next.0@.wf(),
    {
        let (q, step) = self.step(event);
        match step {
            Step::Do(Op::PickPort) => {
                let port = ephemeral_port();
                assert(is_ephemeral(port));
                q.step(Event::Port(port))
            },
            other => (q, other),
        }
    }
}

/// What one event leads to when ports are drawn as they are needed.
pub open spec fn probe_advanced(s: ProbeView, event: EventView, r: (ProbeView, AddrStep)) -> bool {
    let (q, step) = probe_next(s, event);
    if step == AddrStep::Do(Op::PickPort) {
        exists|port: u16| #[trigger] is_ephemeral(port) && r == probe_next(q, Event::Port(port))
    } else {
        r == (q, step)
    }
}

/// Where ports are drawn as they are needed, every bind is to a port of the
/// ephemeral range: never to port 0.
pub proof fn probe_binds_are_ephemeral(s: ProbeView, event: EventView, r: (ProbeView, AddrStep))
    requires
        !(event is Port),
        probe_advanced(s, event, r),
    ensures
        r.1 matches Step::Do(Op::Bind(addr)) ==> is_ephemeral(addr.port) && addr.port != 0,
{
}

/// A probe asks for the local address only once its octet was sent, and answers
/// with the address that the session gave.
pub proof fn probe_asks_after_sending(s: ProbeView, event: EventView)
    ensures
        probe_next(s, event).1 == AddrStep::Do(Op::LocalAddr) ==> s.phase is Sending && event
            matches Event::Count(Ok(_)),
        result_of(probe_next(s, event).1) matches Some(Ok(addr)) ==> s.phase is Asking && event
            == EventView::Address(Ok(addr)),
        probe_next(s, event).1 matches Step::Do(Op::SendTo(to)) ==> to == s.peer,
{
}

/// Whether the session of a probe is open.
pub open spec fn probe_session_open(s: ProbeView) -> bool {
    match s.phase {
        ProbePhase::Opening(OpenStage::Creating(_)) => false,
        ProbePhase::Finished => false,
        _ => true,
    }
}

/// A probe closes its session, on every way out: it ends with nothing to close only
/// where the session could not be opened, and keeps it until it ends.
pub proof fn probe_closes_its_session(s: ProbeView, event: EventView)
    ensures
        probe_next(s, event).1 matches Step::Done(r) ==> !probe_session_open(s) && (r matches Err(e)
            && event == EventView::Unit(Err(e))),
        probe_next(s, event).1 matches Step::Close(close, _) ==> close == Close::Session(
            Target::Own,
        ) && (probe_session_open(s) || succeeded(event)),
        probe_session_open(s) && result_of(probe_next(s, event).1) is None ==> probe_session_open(
            probe_next(s, event).0,
        ),
{
}

// ---- long-lived socket ----

/// A bound datagram session for many queries to different peers.
#[derive(Debug)]
pub struct VclUdpSyncSocket {
    pub handle: SessionHandle,
}

/// What to bind a long-lived socket to: the requested source when it is of the
/// requested family, and without one the wildcard of that family.
pub open spec fn socket_plan(
    source: Option<(IpAddr, Seq<char>)>,
    is_v6: bool,
) -> BindPlan<Seq<char>> {
    match source {
        None => BindPlan::Bind(wildcard(is_v6)),
        Some((ip, text)) => if ip is V6 == is_v6 {
            BindPlan::Bind(ip)
        } else {
            BindPlan::Refuse(
                failure(
                    "source "@ + text + " family doesn't match is_v6="@ + (if is_v6 {
                        "true"@
                    } else {
                        "false"@
                    }),
                ),
            )
        },
    }
}

/// How far binding a long-lived socket has come.
#[derive(Debug)]
pub enum SocketBind<S = String> {
    Opening(OpenStage<S>),
    Listening,
    Finished,
}

impl View for SocketBind {
    type V = SocketBind<Seq<char>>;

    open spec fn view(&self) -> SocketBind<Seq<char>> {
        match *self {
            SocketBind::Opening(stage) => SocketBind::Opening(stage@),
            SocketBind::Listening => SocketBind::Listening,
            SocketBind::Finished => SocketBind::Finished,
        }
    }
}

impl SocketBind<Seq<char>> {
    /// The opening of the session is within its bounds.
    pub open spec fn wf(self) -> bool {
        match self {
            SocketBind::Opening(stage) => stage.wf(),
            _ => true,
        }
    }
}

/// A bind that failed, and closes its session.
pub open spec fn socket_bind_failed(e: VclError<Seq<char>>) -> (SocketBind<Seq<char>>, UnitStep) {
    (SocketBind::Finished, Step::Close(Close::Session(Target::Own), Err(e)))
}

/// The bind and its step after an event.
pub open spec fn socket_bind_next(s: SocketBind<Seq<char>>, event: EventView) -> (
    SocketBind<Seq<char>>,
    UnitStep,
) {
    match s {
        SocketBind::Opening(stage) => match open_next(stage, event) {
            Opening::Do(op, next) => (SocketBind::Opening(next), Step::Do(op)),
            Opening::Ready => (SocketBind::Listening, Step::Do(Op::Listen { backlog: 0 })),
            Opening::Exhausted => socket_bind_failed(failure("ephemeral bind exhausted"@)),
            Opening::Refused(e) => socket_bind_failed(e),
            Opening::Failed(e) => (SocketBind::Finished, Step::Done(Err(e))),
            Opening::Ignored(_) => (s, Step::Ignored),
        },
        SocketBind::Listening => match event {
            Event::Unit(Ok(_)) => (SocketBind::Finished, Step::Done(Ok(()))),
            Event::Unit(Err(e)) => socket_bind_failed(e),
            _ => (s, Step::Ignored),
        },
        SocketBind::Finished => (s, Step::Ignored),
    }
}

/// What one event leads to when ports are drawn as they are needed.
pub open spec fn socket_bind_advanced(
    s: SocketBind<Seq<char>>,
    event: EventView,
    r: (SocketBind<Seq<char>>, UnitStep),
) -> bool {
    let (q, step) = socket_bind_next(s, event);
    if step == UnitStep::Do(Op::PickPort) {
        exists|port: u16|
            #[trigger] is_ephemeral(port) && r == socket_bind_next(q, Event::Port(port))
    } else {
        r == (q, step)
    }
}

/// Where ports are drawn as they are needed, every bind is to a port of the
/// ephemeral range: never to port 0.
pub proof fn socket_binds_are_ephemeral(s: SocketBind<Seq<char>>, event: EventView, r: (SocketBind<Seq<char>>, UnitStep))
    requires
        !(event is Port),
        socket_bind_advanced(s, event, r),
    ensures
        r.1 matches Step::Do(Op::Bind(addr)) ==> is_ephemeral(addr.port) && addr.port != 0,
{
}

/// Whether the session of a bind is open.
pub open spec fn socket_session_open(s: SocketBind<Seq<char>>) -> bool {
    match s {
        SocketBind::Opening(OpenStage::Creating(_)) => false,
        SocketBind::Finished => false,
        _ => true,
    }
}

/// A bind that fails closes its session, and one that succeeds keeps it.
pub proof fn failed_socket_bind_closes_its_session(s: SocketBind<Seq<char>>, event: EventView)
    ensures
        socket_bind_next(s, event).1 matches Step::Close(close, r) ==> close == Close::Session(
            Target::Own,
        ) && r is Err && (socket_session_open(s) || succeeded(event)),
        socket_bind_next(s, event).1 matches Step::Done(Err(e)) ==> !socket_session_open(s)
            && event == EventView::Unit(Err(e)),
        socket_bind_next(s, event).1 matches Step::Done(Ok(_)) ==> socket_session_open(s),
        socket_session_open(s) && result_of(socket_bind_next(s, event).1) is None
            ==> socket_session_open(socket_bind_next(s, event).0),
{
}

impl SocketBind {
    fn fail(e: VclError) -> (next: (SocketBind, Step<()>))
        ensures
            (next.0@, plain_step(next.1)) == socket_bind_failed(e@),
    {
        (SocketBind::Finished, Step::Close(Close::Session(Target::Own), Err(e)))
    }

    /// Moves the bind on by one event.
    pub fn step(self, event: Event) -> (next: (SocketBind, Step<()>))
        requires
            self@.wf(),
        ensures
            (next.0@, plain_step(next.1)) == socket_bind_next(self@, event@),
            next.0@.wf(),
    {
        match self {
            SocketBind::Opening(stage) => match open_step(stage, event) {
                Opening::Do(op, next) => (SocketBind::Opening(next), Step::Do(op)),
                Opening::Ready => (SocketBind::Listening, Step::Do(Op::Listen { backlog: 0 })),
                Opening::Exhausted => SocketBind::fail(
                    VclError::failure("ephemeral bind exhausted"),
                ),
                Opening::Refused(e) => SocketBind::fail(e),
                Opening::Failed(e) => (SocketBind::Finished, Step::Done(Err(e))),
                Opening::Ignored(same) => (SocketBind::Opening(same), Step::Ignored),
            },
            SocketBind::Listening => match event {
                Event::Unit(Ok(())) => (SocketBind::Finished, Step::Done(Ok(()))),
                Event::Unit(Err(e)) => SocketBind::fail(e),
                _ => (SocketBind::Listening, Step::Ignored),
            },
            SocketBind::Finished => (SocketBind::Finished, Step::Ignored),
        }
    }

    /// Moves the bind on by one event, and draws the port where one is needed: a
    /// bind that this asks for is to a port of the ephemeral range.
    pub fn advance(self, event: Event) -> (next: (SocketBind, Step<()>))
        requires
            self@.wf(),
        ensures
            socket_bind_advanced(self@, event@, (next.0@, plain_step(next.1))),
            next.0@.wf(),
    {
        let (q, step) = self.step(event);
        match step {
            Step::Do(Op::PickPort) => {
                let port = ephemeral_port();
                assert(is_ephemeral(port));
                q.step(Event::Port(port))
            },
            other => (q, other),
        }
    }
}

impl VclUdpSyncSocket {
    /// Begins binding a socket to a random ephemeral port of a local address.
    ///
    /// The source must be of the family that `is_v6` names; without a source the
    /// wildcard of that family is bound. The text is how the source is written
    /// in a message.
    pub fn bind(source: Option<(IpAddr, &str)>, is_v6: bool) -> (r: (SocketBind, Step<()>))
        ensures
            r.0@ == SocketBind::Opening(
                OpenStage::Creating(socket_plan(labelled(source), is_v6)),
            ),
            r.0@.wf(),
            plain_step(r.1) == UnitStep::Do(Op::Create { udp: true, nonblocking: true }),
    {
        let plan = match source {
            None => BindPlan::Bind(IpAddr::wildcard(is_v6)),
            Some((ip, text)) => {
                if ip.is_ipv4() != is_v6 {
                    BindPlan::Bind(ip)
                } else {
                    let mut message: String = "source ".to_owned();
                    message.append(text);
                    message.append(" family doesn't match is_v6=");
                    message.append(
                        if is_v6 {
                            "true"
                        } else {
                            "false"
                        },
                    );
                    BindPlan::Refuse(VclError::failure(message.as_str()))
                }
            },
        };
        (
            SocketBind::Opening(OpenStage::Creating(plan)),
            Step::Do(Op::Create { udp: true, nonblocking: true }),
        )
    }

    /// Asks for the local address that VPP picked for this socket.
    pub fn local_addr(&self) -> (call: VclCall)
        ensures
            call == (VclCall::SessionAttr {
                session: self.handle.0,
                op: VPPCOM_ATTR_GET_LCL_ADDR,
                buffer: AttrBuffer::Endpoint(empty_endpoint()),
            }),
    {
        self.handle.local_addr()
    }

    /// Begins a query: sends `query` to `peer` and looks for a response from the
    /// same address for at most `timeout` nanoseconds. Other datagrams, such as
    /// late answers to an earlier query, are discarded.
    pub fn query(peer: SocketAddr, query: &[u8], timeout: u128) -> (r: (
        UdpExchange,
        Step<(Vec<u8>, SocketAddr)>,
    ))
        ensures
            r.0@ == (UdpExchange {
                peer,
                peer_only: true,
                timeout,
                query: query@,
                phase: ExchangePhase::Sending,
            }),
            datagram_step(r.1) == DatagramStep::Do(Op::SendTo(peer)),
    {
        (
            UdpExchange {
                peer,
                peer_only: true,
                timeout,
                query: slice_to_vec(query),
                phase: ExchangePhase::Sending,
            },
            Step::Do(Op::SendTo(peer)),
        )
    }
}

// ---- what an exchange is for ----

/// A response that is not there yet is waited for, whoever may send it: a look that finds
/// nothing is followed by a look at the clock. Before the deadline that leads, after a
/// sleep, back to the very same look; at the deadline the exchange times out.
pub proof fn empty_look_is_repeated(s: ExchangeView, deadline: u128, now: u128)
    requires
        s.phase == (ExchangePhase::Receiving { deadline }),
    ensures
        ({
            let (checking, check) = exchange_next(s, Event::Datagram(Err(VclError::WouldBlock)));
            let (sleeping, sleep) = exchange_next(checking, Event::Clock(now));
            let (again, look) = exchange_next(sleeping, Event::Elapsed);
            &&& check == DatagramStep::Do(Op::ReadClock)
            &&& now >= deadline ==> result_of(sleep) == Some(
                Err::<(Seq<u8>, SocketAddr), VclError<Seq<char>>>(VclError::Timeout),
            )
            &&& now < deadline ==> sleep == DatagramStep::Do(Op::Sleep { ms: 5 })
            &&& now < deadline ==> again == s && look == DatagramStep::Do(
                Op::Receive { max: 4096 },
            )
        }),
{
}

/// A datagram from elsewhere, where only the peer is to answer, is dropped: before the
/// deadline the exchange is back at the very same look, and at the deadline it times out.
/// Any other datagram is the result, as it came.
pub proof fn strays_are_dropped_and_responses_returned(
    s: ExchangeView,
    deadline: u128,
    bytes: Seq<u8>,
    from: SocketAddr,
    now: u128,
)
    requires
        s.phase == (ExchangePhase::Receiving { deadline }),
    ensures
        ({
            let (checking, check) = exchange_next(s, Event::Datagram(Ok((bytes, from))));
            let (again, look) = exchange_next(checking, Event::Clock(now));
            let stray = s.peer_only && from.ip != s.peer.ip;
            &&& !stray ==> result_of(check) == Some(
                Ok::<(Seq<u8>, SocketAddr), VclError<Seq<char>>>((bytes, from)),
            )
            &&& stray ==> check == DatagramStep::Do(Op::ReadClock)
            &&& stray && now < deadline ==> again == s && look == DatagramStep::Do(
                Op::Receive { max: 4096 },
            )
            &&& stray && now >= deadline ==> result_of(look) == Some(
                Err::<(Seq<u8>, SocketAddr), VclError<Seq<char>>>(VclError::Timeout),
            )
        }),
{
}

/// A query that was sent is looked for until the timeout from that moment.
pub proof fn sent_query_has_its_time(s: ExchangeView, n: usize, now: u128)
    requires
        s.phase is Sending,
    ensures
        ({
            let (stamping, stamp) = exchange_next(s, Event::Count(Ok(n)));
            let (receiving, look) = exchange_next(stamping, Event::Clock(now));
            &&& stamp == DatagramStep::Do(Op::ReadClock)
            &&& look == DatagramStep::Do(Op::Receive { max: 4096 })
            &&& receiving.phase matches ExchangePhase::Receiving { deadline } && (now + s.timeout
                <= u128::MAX ==> deadline == now + s.timeout) && (now + s.timeout > u128::MAX
                ==> deadline == u128::MAX)
            &&& receiving.peer == s.peer && receiving.peer_only == s.peer_only
        }),
{
}

/// An exchange fails exactly for a reason: with the failure of its send; with the failure of
/// a look, other than that nothing was there; or with a timeout, when the clock shows its
/// deadline.
pub proof fn exchange_fails_only_for_a_reason(
    s: ExchangeView,
    event: EventView,
    e: VclError<Seq<char>>,
)
    ensures
        result_of(exchange_next(s, event).1) == Some(
            Err::<(Seq<u8>, SocketAddr), VclError<Seq<char>>>(e),
        ) <==> match (s.phase, event) {
            (ExchangePhase::Sending, Event::Count(r)) => r == Err::<usize, VclError<Seq<char>>>(e),
            (ExchangePhase::Receiving { .. }, Event::Datagram(r)) => r == Err::<
                (Seq<u8>, SocketAddr),
                VclError<Seq<char>>,
            >(e) && !(e is WouldBlock),
            (ExchangePhase::Checking { deadline, .. }, Event::Clock(now)) => now >= deadline && e
                is Timeout,
            _ => false,
        },
{
}

/// What answers nothing that the exchange asked for changes nothing, and that is so of just
/// those events; until it ends the exchange keeps whom it asks, what it asks, who may
/// answer, and its deadline.
pub proof fn exchange_keeps_its_inputs(s: ExchangeView, event: EventView, set: u128)
    ensures
        exchange_next(s, event).1 is Ignored ==> exchange_next(s, event).0 == s,
        exchange_next(s, event).1 is Ignored <==> match s.phase {
            ExchangePhase::Sending => !(event is Count),
            ExchangePhase::Stamping => !(event is Clock),
            ExchangePhase::Receiving { .. } => !(event is Datagram),
            ExchangePhase::Checking { .. } => !(event is Clock),
            ExchangePhase::Sleeping { .. } => !(event is Elapsed),
            ExchangePhase::Finished => true,
        },
        ({
            let next = exchange_next(s, event).0;
            next.peer == s.peer && next.peer_only == s.peer_only && next.query == s.query
                && next.timeout == s.timeout
        }),
        exchange_deadline(s) == Some(set) && result_of(exchange_next(s, event).1) is None
            ==> exchange_deadline(exchange_next(s, event).0) == Some(set),
{
}

/// The deadline of an exchange, once it is set.
pub open spec fn exchange_deadline(s: ExchangeView) -> Option<u128> {
    match s.phase {
        ExchangePhase::Receiving { deadline } => Some(deadline),
        ExchangePhase::Checking { deadline, .. } => Some(deadline),
        ExchangePhase::Sleeping { deadline } => Some(deadline),
        _ => None,
    }
}

/// A one-shot query that listens sends its query to its peer and from then on is its
/// exchange: it does what the exchange does, and ends with the exchange's result.
pub proof fn one_shot_query_is_its_exchange(s: UdpView, event: EventView)
    requires
        s.phase is Exchanging,
    ensures
        ({
            let (exchange, step) = exchange_next(s.exchange, event);
            &&& udp_next(s, event).0 == (UdpSync { exchange, phase: s.phase })
            &&& result_of(udp_next(s, event).1) == result_of(step)
            &&& step matches Step::Do(op) ==> udp_next(s, event).1 == DatagramStep::Do(op)
            &&& step is Ignored ==> udp_next(s, event).1 is Ignored
        }),
{
}

/// A one-shot query waits for its answer: a look that finds nothing leads, before the
/// deadline, back to the very same look.
pub proof fn one_shot_query_waits_for_its_answer(s: UdpView, deadline: u128, now: u128)
    requires
        s.phase is Exchanging,
        s.exchange.phase == (ExchangePhase::Receiving { deadline }),
        now < deadline,
    ensures
        ({
            let (checking, check) = udp_next(s, Event::Datagram(Err(VclError::WouldBlock)));
            let (sleeping, sleep) = udp_next(checking, Event::Clock(now));
            let (again, look) = udp_next(sleeping, Event::Elapsed);
            &&& check == DatagramStep::Do(Op::ReadClock)
            &&& sleep == DatagramStep::Do(Op::Sleep { ms: 5 })
            &&& again == s && look == DatagramStep::Do(Op::Receive { max: 4096 })
        }),
{
    empty_look_is_repeated(s.exchange, deadline, now);
}

/// A one-shot query whose session is open listens and then sends: it does what opening
/// asks for until the session is bound.
pub proof fn one_shot_query_opens_and_listens(s: UdpView, event: EventView)
    ensures
        s.phase matches UdpPhase::Opening(stage) ==> {
            &&& open_next(stage, event) matches Opening::Do(op, next) ==> udp_next(s, event) == (
                UdpView { phase: UdpPhase::Opening(next), ..s },
                DatagramStep::Do(op),
            )
            &&& open_next(stage, event) is Ready ==> udp_next(s, event) == (
                UdpView { phase: UdpPhase::Listening, ..s },
                DatagramStep::Do(Op::Listen { backlog: 0 }),
            )
        },
        s.phase is Listening && succeeded(event) ==> udp_next(s, event) == (
            UdpView { phase: UdpPhase::Exchanging, ..s },
            DatagramStep::Do(Op::SendTo(s.exchange.peer)),
        ),
        udp_next(s, event).1 is Ignored ==> udp_next(s, event).0 == s,
        !(s.phase is Exchanging) ==> (udp_next(s, event).1 is Ignored <==> match s.phase {
            UdpPhase::Opening(OpenStage::Picking { .. }) => !(event is Port),
            _ => !(event is Unit),
        }),
{
}

/// A one-shot query fails exactly for a reason: where its session cannot be opened, bound or
/// made to listen, where its source is refused, or where its exchange fails.
pub proof fn one_shot_query_fails_only_for_a_reason(
    s: UdpView,
    event: EventView,
    e: VclError<Seq<char>>,
)
    ensures
        result_of(udp_next(s, event).1) == Some(
            Err::<(Seq<u8>, SocketAddr), VclError<Seq<char>>>(e),
        ) <==> match s.phase {
            UdpPhase::Opening(stage) => opening_failed(
                stage,
                event,
                e,
                "ephemeral bind exhausted"@,
            ),
            UdpPhase::Listening => event == EventView::Unit(Err(e)),
            UdpPhase::Exchanging => match (s.exchange.phase, event) {
                (ExchangePhase::Sending, Event::Count(Err(f))) => f == e,
                (ExchangePhase::Receiving { .. }, Event::Datagram(Err(f))) => f == e && !(e
                    is WouldBlock),
                (ExchangePhase::Checking { deadline, .. }, Event::Clock(now)) => now >= deadline
                    && e is Timeout,
                _ => false,
            },
        },
{
}

/// The failure of opening a session: it could not be opened, the plan refused it, or the
/// last port that might be tried was refused.
pub open spec fn opening_failed(
    stage: OpenStage<Seq<char>>,
    event: EventView,
    e: VclError<Seq<char>>,
    exhausted: Seq<char>,
) -> bool {
    match stage {
        OpenStage::Creating(plan) => event == EventView::Unit(Err(e)) || (succeeded(event) && plan
            == BindPlan::Refuse(e)),
        OpenStage::Picking { .. } => false,
        OpenStage::Binding { ip, left } => left == 0 && (event matches Event::Unit(Err(_))) && (e
            matches VclError::Api(why, rc) && why == exhausted && rc == -1),
    }
}

/// The query after a sequence of events.
pub open spec fn udp_run(s: UdpView, events: Seq<EventView>) -> UdpView
    decreases events.len(),
{
    if events.len() == 0 {
        s
    } else {
        udp_next(udp_run(s, events.drop_last()), events.last()).0
    }
}

/// A one-shot query binds, over any events from its start, the source that it was given,
/// and without one the wildcard of its peer's family; it binds no source of another
/// family. Whatever it sends goes to its peer, and any first datagram is its response.
pub proof fn one_shot_query_binds_its_source(
    peer: SocketAddr,
    peer_text: Seq<char>,
    source: Option<(IpAddr, Seq<char>)>,
    query: Seq<u8>,
    timeout: u128,
    events: Seq<EventView>,
    last: EventView,
)
    ensures
        ({
            let start = udp_start(peer, udp_source_plan(source, peer, peer_text), query, timeout);
            let s = udp_run(start, events);
            let step = udp_next(s, last).1;
            &&& step matches Step::Do(Op::Bind(addr)) ==> match source {
                Some((ip, _)) => addr.ip == ip && ip is V4 == peer.ip is V4,
                None => addr.ip == wildcard(peer.ip is V6),
            }
            &&& step matches Step::Do(Op::SendTo(to)) ==> to == peer
            &&& s.exchange.peer == peer && !s.exchange.peer_only && s.exchange.query == query
                && s.exchange.timeout == timeout
        }),
{
    one_shot_query_serves_its_source(peer, peer_text, source, query, timeout, events);
    let start = udp_start(peer, udp_source_plan(source, peer, peer_text), query, timeout);
    let s = udp_run(start, events);
    if s.phase is Opening {
        match source {
            Some((ip, _)) => if ip is V4 == peer.ip is V4 {
                opening_keeps_its_address(s.phase->Opening_0, last, ip);
            },
            None => opening_keeps_its_address(
                s.phase->Opening_0,
                last,
                wildcard(peer.ip is V6),
            ),
        }
    }
}

proof fn one_shot_query_serves_its_source(
    peer: SocketAddr,
    peer_text: Seq<char>,
    source: Option<(IpAddr, Seq<char>)>,
    query: Seq<u8>,
    timeout: u128,
    events: Seq<EventView>,
)
    ensures
        ({
            let start = udp_start(peer, udp_source_plan(source, peer, peer_text), query, timeout);
            let s = udp_run(start, events);
            &&& s.exchange.peer == peer && !s.exchange.peer_only && s.exchange.query == query
                && s.exchange.timeout == timeout
            &&& s.phase matches UdpPhase::Opening(stage) ==> match source {
                Some((ip, _)) => if ip is V4 == peer.ip is V4 {
                    serves(stage, ip)
                } else {
                    stage matches OpenStage::Creating(plan) && plan is Refuse
                },
                None => serves(stage, wildcard(peer.ip is V6)),
            }
        }),
    decreases events.len(),
{
    if events.len() > 0 {
        one_shot_query_serves_its_source(
            peer,
            peer_text,
            source,
            query,
            timeout,
            events.drop_last(),
        );
        let start = udp_start(peer, udp_source_plan(source, peer, peer_text), query, timeout);
        let s = udp_run(start, events.drop_last());
        if s.phase is Opening {
            match source {
                Some((ip, _)) => if ip is V4 == peer.ip is V4 {
                    opening_keeps_its_address(s.phase->Opening_0, events.last(), ip);
                },
                None => opening_keeps_its_address(
                    s.phase->Opening_0,
                    events.last(),
                    wildcard(peer.ip is V6),
                ),
            }
        }
    }
}

/// Sources of another family are refused, by a message that names them.
pub proof fn other_families_are_refused_by_name(
    ip: IpAddr,
    text: Seq<char>,
    peer: SocketAddr,
    peer_text: Seq<char>,
    is_v6: bool,
)
    ensures
        ip is V4 != peer.ip is V4 ==> (udp_source_plan(Some((ip, text)), peer, peer_text) matches
            BindPlan::Refuse(e) && e == VclError::Api(
            "source IP family ("@ + text + ") doesn't match peer family ("@ + peer_text + ")"@,
            (-1) as i32,
        )),
        ip is V6 != is_v6 ==> (socket_plan(Some((ip, text)), is_v6) matches BindPlan::Refuse(e) && e
            == VclError::Api(
            "source "@ + text + " family doesn't match is_v6="@ + (if is_v6 {
                "true"@
            } else {
                "false"@
            }),
            (-1) as i32,
        )),
{
}

// ---- what a probe is for ----

/// A probe that is open and bound sends to its peer, then asks for its local address, and
/// that address is its result.
pub proof fn probe_sends_and_then_asks(s: ProbeView, event: EventView, n: usize, addr: SocketAddr)
    ensures
        s.phase matches ProbePhase::Opening(stage) ==> {
            &&& open_next(stage, event) matches Opening::Do(op, next) ==> probe_next(s, event) == (
                ProbeView { phase: ProbePhase::Opening(next), ..s },
                AddrStep::Do(op),
            )
            &&& open_next(stage, event) is Ready ==> probe_next(s, event) == (
                ProbeView { phase: ProbePhase::Sending, ..s },
                AddrStep::Do(Op::SendTo(s.peer)),
            )
        },
        s.phase is Sending ==> probe_next(s, Event::Count(Ok(n))) == (
            ProbeView { phase: ProbePhase::Asking, ..s },
            AddrStep::Do(Op::LocalAddr),
        ),
        s.phase is Asking ==> result_of(probe_next(s, Event::Address(Ok(addr))).1) == Some(
            Ok::<SocketAddr, VclError<Seq<char>>>(addr),
        ),
        probe_next(s, event).1 is Ignored ==> probe_next(s, event).0 == s,
        probe_next(s, event).1 is Ignored <==> match s.phase {
            ProbePhase::Opening(OpenStage::Picking { .. }) => !(event is Port),
            ProbePhase::Opening(_) => !(event is Unit),
            ProbePhase::Sending => !(event is Count),
            ProbePhase::Asking => !(event is Address),
            ProbePhase::Finished => true,
        },
        probe_next(s, event).0.peer == s.peer,
        probe_bytes().len() == 1,
{
}

/// A probe fails exactly for a reason: where its session cannot be opened or bound, or with
/// the failure of its send or of the question.
pub proof fn probe_fails_only_for_a_reason(s: ProbeView, event: EventView, e: VclError<Seq<char>>)
    ensures
        result_of(probe_next(s, event).1) == Some(Err::<SocketAddr, VclError<Seq<char>>>(e))
            <==> match s.phase {
            ProbePhase::Opening(stage) => opening_failed(
                stage,
                event,
                e,
                "probe: ephemeral bind exhausted"@,
            ),
            ProbePhase::Sending => event == EventView::Count(Err(e)),
            ProbePhase::Asking => event == EventView::Address(Err(e)),
            ProbePhase::Finished => false,
        },
{
}

/// The probe after a sequence of events.
pub open spec fn probe_run(s: ProbeView, events: Seq<EventView>) -> ProbeView
    decreases events.len(),
{
    if events.len() == 0 {
        s
    } else {
        probe_next(probe_run(s, events.drop_last()), events.last()).0
    }
}

/// A probe binds, over any events from its start, the wildcard of its peer's family, and
/// sends to its peer.
pub proof fn probe_binds_the_wildcard(peer: SocketAddr, events: Seq<EventView>, last: EventView)
    ensures
        ({
            let step = probe_next(probe_run(probe_start(peer), events), last).1;
            &&& step matches Step::Do(Op::Bind(addr)) ==> addr.ip == wildcard(peer.ip is V6)
            &&& step matches Step::Do(Op::SendTo(to)) ==> to == peer
        }),
{
    probe_serves_the_wildcard(peer, events);
    let s = probe_run(probe_start(peer), events);
    if s.phase is Opening {
        opening_keeps_its_address(s.phase->Opening_0, last, wildcard(peer.ip is V6));
    }
}

proof fn probe_serves_the_wildcard(peer: SocketAddr, events: Seq<EventView>)
    ensures
        ({
            let s = probe_run(probe_start(peer), events);
            s.peer == peer && (s.phase matches ProbePhase::Opening(stage) ==> serves(
                stage,
                wildcard(peer.ip is V6),
            ))
        }),
    decreases events.len(),
{
    if events.len() > 0 {
        probe_serves_the_wildcard(peer, events.drop_last());
        let s = probe_run(probe_start(peer), events.drop_last());
        if s.phase is Opening {
            opening_keeps_its_address(
                s.phase->Opening_0,
                events.last(),
                wildcard(peer.ip is V6),
            );
        }
    }
}

// ---- what a long-lived socket is for ----

/// The bind of a long-lived socket after a sequence of events.
pub open spec fn socket_bind_run(
    s: SocketBind<Seq<char>>,
    events: Seq<EventView>,
) -> SocketBind<Seq<char>>
    decreases events.len(),
{
    if events.len() == 0 {
        s
    } else {
        socket_bind_next(socket_bind_run(s, events.drop_last()), events.last()).0
    }
}

/// A long-lived socket is bound, over any events from its start, to the source that it was
/// given, where that is of the family asked for, and without one to the wildcard of that
/// family; it is bound to no source of another family.
pub proof fn socket_is_bound_to_its_source(
    source: Option<(IpAddr, Seq<char>)>,
    is_v6: bool,
    events: Seq<EventView>,
    last: EventView,
)
    ensures
        ({
            let start = SocketBind::Opening(OpenStage::Creating(socket_plan(source, is_v6)));
            let step = socket_bind_next(socket_bind_run(start, events), last).1;
            step matches Step::Do(Op::Bind(addr)) ==> match source {
                Some((ip, _)) => addr.ip == ip && ip is V6 == is_v6,
                None => addr.ip == wildcard(is_v6),
            }
        }),
{
    socket_serves_its_source(source, is_v6, events);
    let start = SocketBind::Opening(OpenStage::Creating(socket_plan(source, is_v6)));
    let s = socket_bind_run(start, events);
    if s is Opening {
        match source {
            Some((ip, _)) => if ip is V6 == is_v6 {
                opening_keeps_its_address(s->Opening_0, last, ip);
            },
            None => opening_keeps_its_address(s->Opening_0, last, wildcard(is_v6)),
        }
    }
}

proof fn socket_serves_its_source(
    source: Option<(IpAddr, Seq<char>)>,
    is_v6: bool,
    events: Seq<EventView>,
)
    ensures
        ({
            let start = SocketBind::Opening(OpenStage::Creating(socket_plan(source, is_v6)));
            socket_bind_run(start, events) matches SocketBind::Opening(stage) ==> match source {
                Some((ip, _)) => if ip is V6 == is_v6 {
                    serves(stage, ip)
                } else {
                    stage matches OpenStage::Creating(plan) && plan is Refuse
                },
                None => serves(stage, wildcard(is_v6)),
            }
        }),
    decreases events.len(),
{
    if events.len() > 0 {
        socket_serves_its_source(source, is_v6, events.drop_last());
        let start = SocketBind::Opening(OpenStage::Creating(socket_plan(source, is_v6)));
        let s = socket_bind_run(start, events.drop_last());
        if s is Opening {
            match source {
                Some((ip, _)) => if ip is V6 == is_v6 {
                    opening_keeps_its_address(s->Opening_0, events.last(), ip);
                },
                None => opening_keeps_its_address(s->Opening_0, events.last(), wildcard(is_v6)),
            }
        }
    }
}

/// A long-lived socket does what opening asks for until it is bound, then listens, and is
/// bound once it does; it fails exactly where its session cannot be opened, bound or made to
/// listen, or where its source is refused.
pub proof fn socket_listens_once_bound(
    s: SocketBind<Seq<char>>,
    event: EventView,
    e: VclError<Seq<char>>,
)
    ensures
        s matches SocketBind::Opening(stage) ==> {
            &&& open_next(stage, event) matches Opening::Do(op, next) ==> socket_bind_next(
                s,
                event,
            ) == (SocketBind::Opening(next), UnitStep::Do(op))
            &&& open_next(stage, event) is Ready ==> socket_bind_next(s, event) == (
                SocketBind::<Seq<char>>::Listening,
                UnitStep::Do(Op::Listen { backlog: 0 }),
            )
        },
        s is Listening && succeeded(event) <==> socket_bind_next(s, event).1 matches Step::Done(
            Ok(_),
        ),
        result_of(socket_bind_next(s, event).1) == Some(Err::<(), VclError<Seq<char>>>(e))
            <==> match s {
            SocketBind::Opening(stage) => opening_failed(
                stage,
                event,
                e,
                "ephemeral bind exhausted"@,
            ),
            SocketBind::Listening => event == EventView::Unit(Err(e)),
            SocketBind::Finished => false,
        },
        socket_bind_next(s, event).1 is Ignored ==> socket_bind_next(s, event).0 == s,
        socket_bind_next(s, event).1 is Ignored <==> match s {
            SocketBind::Opening(OpenStage::Picking { .. }) => !(event is Port),
            SocketBind::Finished => true,
            _ => !(event is Unit),
        },
{
}

/// Drawing ports adds nothing to an operation but the ports.
pub proof fn drawing_ports_adds_only_ports(
    udp: UdpView,
    udp_r: (UdpView, DatagramStep),
    probe: ProbeView,
    probe_r: (ProbeView, AddrStep),
    socket: SocketBind<Seq<char>>,
    socket_r: (SocketBind<Seq<char>>, UnitStep),
    event: EventView,
)
    requires
        udp_advanced(udp, event, udp_r),
        probe_advanced(probe, event, probe_r),
        socket_bind_advanced(socket, event, socket_r),
    ensures
        udp_next(udp, event).1 != DatagramStep::Do(Op::PickPort) ==> udp_r == udp_next(udp, event),
        probe_next(probe, event).1 != AddrStep::Do(Op::PickPort) ==> probe_r == probe_next(
            probe,
            event,
        ),
        socket_bind_next(socket, event).1 != UnitStep::Do(Op::PickPort) ==> socket_r
            == socket_bind_next(socket, event),
        udp_next(udp, event).1 == DatagramStep::Do(Op::PickPort) ==> exists|port: u16|
            32768 <= port <= 60999 && udp_r == #[trigger] udp_next(
                udp_next(udp, event).0,
                Event::Port(port),
            ),
        probe_next(probe, event).1 == AddrStep::Do(Op::PickPort) ==> exists|port: u16|
            32768 <= port <= 60999 && probe_r == #[trigger] probe_next(
                probe_next(probe, event).0,
                Event::Port(port),
            ),
        socket_bind_next(socket, event).1 == UnitStep::Do(Op::PickPort) ==> exists|port: u16|
            32768 <= port <= 60999 && socket_r == #[trigger] socket_bind_next(
                socket_bind_next(socket, event).0,
                Event::Port(port),
            ),
{
    if udp_next(udp, event).1 == DatagramStep::Do(Op::PickPort) {
        let port = choose|port: u16|
            #[trigger] is_ephemeral(port) && udp_r == udp_next(
                udp_next(udp, event).0,
                Event::Port(port),
            );
        assert(udp_r == udp_next(udp_next(udp, event).0, Event::Port(port)));
    }
    if probe_next(probe, event).1 == AddrStep::Do(Op::PickPort) {
        let port = choose|port: u16|
            #[trigger] is_ephemeral(port) && probe_r == probe_next(
                probe_next(probe, event).0,
                Event::Port(port),
            );
        assert(probe_r == probe_next(probe_next(probe, event).0, Event::Port(port)));
    }
    if socket_bind_next(socket, event).1 == UnitStep::Do(Op::PickPort) {
        let port = choose|port: u16|
            #[trigger] is_ephemeral(port) && socket_r == socket_bind_next(
                socket_bind_next(socket, event).0,
                Event::Port(port),
            );
        assert(socket_r == socket_bind_next(socket_bind_next(socket, event).0, Event::Port(port)));
    }
}

/// One-shot queries and probes begin with what they were asked for and with nothing done:
/// a query has still to be sent when its session listens.
pub proof fn queries_and_probes_begin(
    peer: SocketAddr,
    plan: BindPlan<Seq<char>>,
    query: Seq<u8>,
    timeout: u128,
)
    ensures
        ({
            let s = udp_start(peer, plan, query, timeout);
            &&& s.phase == UdpPhase::Opening(OpenStage::Creating(plan))
            &&& s.exchange.phase is Sending
            &&& s.exchange.peer == peer && s.exchange.query == query && s.exchange.timeout
                == timeout
        }),
        probe_start(peer).peer == peer,
        probe_start(peer).phase matches ProbePhase::Opening(OpenStage::Creating(BindPlan::Bind(_))),
        probe_bytes()[0] == 0,
{
}

/// In a contract exchanges, queries, probes and binds stand as they are, with their bytes
/// and stages by their views.
pub proof fn exchanges_are_seen_as_they_are(
    x: UdpExchange,
    q: UdpSync,
    p: ProbeLocalSource,
    b: SocketBind,
)
    ensures
        x@.peer == x.peer && x@.peer_only == x.peer_only && x@.timeout == x.timeout && x@.query
            == x.query@ && x@.phase == x.phase,
        q@.exchange == q.exchange@,
        match q.phase {
            UdpPhase::Opening(stage) => q@.phase == UdpPhase::Opening(stage@),
            UdpPhase::Listening => q@.phase is Listening,
            UdpPhase::Exchanging => q@.phase is Exchanging,
        },
        p@.peer == p.peer,
        match p.phase {
            ProbePhase::Opening(stage) => p@.phase == ProbePhase::Opening(stage@),
            ProbePhase::Sending => p@.phase is Sending,
            ProbePhase::Asking => p@.phase is Asking,
            ProbePhase::Finished => p@.phase is Finished,
        },
        match b {
            SocketBind::Opening(stage) => b@ == SocketBind::Opening(stage@),
            SocketBind::Listening => b@ is Listening,
            SocketBind::Finished => b@ is Finished,
        },
{
}

} // verus!
