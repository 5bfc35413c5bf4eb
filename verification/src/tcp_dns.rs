//! One-shot DNS queries over TCP.

use vstd::prelude::*;
use vstd::slice::{slice_subrange, slice_to_vec};

use crate::addr::{IpAddr, SocketAddr};
#[allow(unused_imports)]
use crate::addr::be16;
use crate::ephemeral::{ephemeral_port, open_step, BindPlan, OpenStage, Opening};
#[allow(unused_imports)]
use crate::ephemeral::{is_ephemeral, labelled, open_next, opening_keeps_its_address, serves};
use crate::error::VclError;
#[allow(unused_imports)]
use crate::error::{call_failure, failure};
#[allow(unused_imports)]
use crate::ffi::sessions_are_watched_for_changes;
use crate::ffi::SESSION_EVENTS;
use crate::framing::{decode_tcp_dns_len, frame_tcp_dns_query};
#[allow(unused_imports)]
use crate::framing::{frame_outcome, framed, len_outcome, only_the_zero_prefix_is_refused};
use crate::ops::{deadline, Close, Event, Op, Step, Target};
#[allow(unused_imports)]
use crate::ops::{bytes_step, deadline_after, result_of, succeeded, BytesStep, EventView};

verus! {

/// How many events one wait takes from the message queue.
pub const DRAIN_EVENTS: u32 = 4;

/// How long one wait on the message queue lasts.
pub const DRAIN_MS: u32 = 5;

/// The text of the failure when source and peer are of different families.
pub open spec fn family_mismatch(source: Seq<char>, peer: Seq<char>) -> VclError<Seq<char>> {
    failure("source IP family ("@ + source + ") doesn't match peer ("@ + peer + ")"@)
}

/// What to bind a TCP session to: the requested source, when it is of the
/// peer's family. Without one, VPP picks the source.
pub open spec fn tcp_source_plan(
    source: Option<(IpAddr, Seq<char>)>,
    peer: SocketAddr,
    peer_text: Seq<char>,
) -> BindPlan<Seq<char>> {
    match source {
        None => BindPlan::Skip,
        Some((ip, text)) => if ip is V4 == peer.ip is V4 {
            BindPlan::Bind(ip)
        } else {
            BindPlan::Refuse(family_mismatch(text, peer_text))
        },
    }
}

/// What to bind a TCP session to before it connects to `peer`. The texts are
/// how the addresses are written in a message.
pub fn plan_tcp_source(
    source: Option<(IpAddr, &str)>,
    peer: SocketAddr,
    peer_text: &str,
) -> (plan: BindPlan)
    ensures
        plan@ == tcp_source_plan(labelled(source), peer, peer_text@),
{
    match source {
        None => BindPlan::Skip,
        Some((ip, text)) => {
            if ip.is_ipv4() == peer.ip.is_ipv4() {
                BindPlan::Bind(ip)
            } else {
                let mut message: String = "source IP family (".to_owned();
                message.append(text);
                message.append(") doesn't match peer (");
                message.append(peer_text);
                message.append(")");
                BindPlan::Refuse(VclError::failure(message.as_str()))
            }
        },
    }
}

/// Where one round of a polling loop stands: at the clock, at the call itself,
/// or at the wait for the message queue.
#[derive(Debug, Clone, Copy)]
pub enum Turn {
    Clock,
    Call,
    Drain,
}

/// How far a query has come.
#[derive(Debug)]
pub enum TcpPhase<S = String> {
    Opening(OpenStage<S>),
    CreatingEpoll,
    AddingToEpoll,
    Connecting,
    /// The connection is under way; the deadline starts now.
    Stamping,
    /// The first `sent` outgoing bytes were taken.
    Writing { deadline: u128, sent: usize, turn: Turn },
    /// `want` bytes are to be read: the length prefix, or the body.
    Reading { deadline: u128, body: bool, want: usize, turn: Turn },
    Finished,
}

/// A DNS query over a TCP session of its own.
#[derive(Debug)]
pub struct TcpDnsSync<S = String, B = Vec<u8>> {
    pub peer: SocketAddr,
    pub timeout: u128,
    /// The query.
    pub query: B,
    /// What is written: the framed query, once the session connects.
    pub out: B,
    /// What has been read of the length prefix or of the body.
    pub got: B,
    pub phase: TcpPhase<S>,
}

impl View for TcpPhase {
    type V = TcpPhase<Seq<char>>;

    open spec fn view(&self) -> TcpPhase<Seq<char>> {
        match *self {
            TcpPhase::Opening(stage) => TcpPhase::Opening(stage@),
            TcpPhase::CreatingEpoll => TcpPhase::CreatingEpoll,
            TcpPhase::AddingToEpoll => TcpPhase::AddingToEpoll,
            TcpPhase::Connecting => TcpPhase::Connecting,
            TcpPhase::Stamping => TcpPhase::Stamping,
            TcpPhase::Writing { deadline, sent, turn } => TcpPhase::Writing {
                deadline,
                sent,
                turn,
            },
            TcpPhase::Reading { deadline, body, want, turn } => TcpPhase::Reading {
                deadline,
                body,
                want,
                turn,
            },
            TcpPhase::Finished => TcpPhase::Finished,
        }
    }
}

impl View for TcpDnsSync {
    type V = TcpDnsSync<Seq<char>, Seq<u8>>;

    open spec fn view(&self) -> TcpDnsSync<Seq<char>, Seq<u8>> {
        TcpDnsSync {
            peer: self.peer,
            timeout: self.timeout,
            query: self.query@,
            out: self.out@,
            got: self.got@,
            phase: self.phase@,
        }
    }
}

/// A query in the terms of contracts.
pub type TcpView = TcpDnsSync<Seq<char>, Seq<u8>>;

impl TcpDnsSync<Seq<char>, Seq<u8>> {
    /// There is something left to write while writing, and something left to
    /// read while reading; a prefix is two bytes long, a body between 1 and
    /// 65535.
    pub open spec fn wf(self) -> bool {
        match self.phase {
            TcpPhase::Opening(stage) => stage.wf(),
            TcpPhase::Stamping => 0 < self.out.len() <= usize::MAX,
            TcpPhase::Writing { sent, .. } => sent < self.out.len() <= usize::MAX,
            TcpPhase::Reading { body, want, .. } => {
                &&& self.got.len() < want
                &&& if body {
                    want <= 65535
                } else {
                    want == 2
                }
            },
            _ => true,
        }
    }

    /// A read returned no more bytes than were asked for.
    pub open spec fn fits(self, event: EventView) -> bool {
        match (self.phase, event) {
            (TcpPhase::Reading { want, turn: Turn::Call, .. }, Event::Bytes(Ok(bytes))) => bytes.len()
                <= want - self.got.len(),
            _ => true,
        }
    }

    /// A write took no more bytes than were offered.
    pub open spec fn offers(self, event: EventView) -> bool {
        match (self.phase, event) {
            (TcpPhase::Writing { sent, turn: Turn::Call, .. }, Event::Count(Ok(n))) => n
                <= self.out.len() - sent,
            _ => true,
        }
    }

    /// The bytes that a write offers.
    pub open spec fn outgoing(self) -> Seq<u8> {
        match self.phase {
            TcpPhase::Writing { sent, .. } => self.out.skip(sent as int),
            _ => Seq::empty(),
        }
    }

    /// The same query in another phase.
    pub open spec fn at(self, phase: TcpPhase<Seq<char>>) -> TcpView {
        TcpDnsSync { phase, ..self }
    }

    /// The query once it is over.
    pub open spec fn ended(self) -> TcpView {
        TcpDnsSync {
            query: Seq::empty(),
            out: Seq::empty(),
            got: Seq::empty(),
            phase: TcpPhase::Finished,
            ..self
        }
    }

    /// The query is over with this result, and closes its epoll set and session.
    pub open spec fn over(self, r: Result<Seq<u8>, VclError<Seq<char>>>) -> (
        TcpView,
        BytesStep,
    ) {
        (self.ended(), Step::Close(Close::EpollAndSession, r))
    }

    /// The query is over before it has an epoll set, and closes its session.
    pub open spec fn failed(self, e: VclError<Seq<char>>) -> (TcpView, BytesStep) {
        (self.ended(), Step::Close(Close::Session(Target::Own), Err(e)))
    }
}

/// A transient failure: the session cannot take or give bytes yet, or its
/// handshake has not completed.
pub open spec fn is_transient<S>(e: VclError<S>) -> bool {
    e is WouldBlock || e is NotConnected
}

/// What follows the reading of `got`, which was all that was wanted.
pub open spec fn tcp_read_through(s: TcpView, deadline: u128, body: bool, got: Seq<u8>) -> (
    TcpView,
    BytesStep,
) {
    if body {
        s.over(Ok(got))
    } else {
        match len_outcome(got) {
            Ok(len) => (
                TcpDnsSync {
                    got: Seq::empty(),
                    phase: TcpPhase::Reading {
                        deadline,
                        body: true,
                        want: len,
                        turn: Turn::Clock,
                    },
                    ..s
                },
                Step::Do(Op::ReadClock),
            ),
            Err(e) => s.over(Err(e)),
        }
    }
}

/// The query and its step after an event.
pub open spec fn tcp_next(s: TcpView, event: EventView) -> (TcpView, BytesStep) {
    match (s.phase, event) {
        (TcpPhase::Opening(stage), _) => match open_next(stage, event) {
            Opening::Do(op, next) => (s.at(TcpPhase::Opening(next)), Step::Do(op)),
            Opening::Ready => (s.at(TcpPhase::CreatingEpoll), Step::Do(Op::CreateEpoll)),
            Opening::Exhausted => s.failed(failure("ephemeral source bind exhausted"@)),
            Opening::Refused(e) => s.failed(e),
            Opening::Failed(e) => (s.ended(), Step::Done(Err(e))),
            Opening::Ignored(_) => (s, Step::Ignored),
        },
        (TcpPhase::CreatingEpoll, Event::Code(rc)) => if rc < 0 {
            s.failed(call_failure("vppcom_epoll_create: "@, rc))
        } else {
            (
                s.at(TcpPhase::AddingToEpoll),
                Step::Do(Op::AddToEpoll { events: SESSION_EVENTS }),
            )
        },
        (TcpPhase::AddingToEpoll, Event::Code(rc)) => if rc < 0 {
            s.over(Err(call_failure("vppcom_epoll_ctl ADD: "@, rc)))
        } else {
            (s.at(TcpPhase::Connecting), Step::Do(Op::Connect(s.peer)))
        },
        (TcpPhase::Connecting, Event::Unit(r)) => if r matches Err(e) && !(e is WouldBlock) {
            s.over(Err(r->Err_0))
        } else {
            match frame_outcome(s.query) {
                Ok(out) => (
                    TcpDnsSync { out, phase: TcpPhase::Stamping, ..s },
                    Step::Do(Op::ReadClock),
                ),
                Err(e) => s.over(Err(e)),
            }
        },
        (TcpPhase::Stamping, Event::Clock(now)) => (
            s.at(
                TcpPhase::Writing {
                    deadline: deadline_after(now, s.timeout),
                    sent: 0,
                    turn: Turn::Call,
                },
            ),
            Step::Do(Op::Write),
        ),
        (TcpPhase::Writing { deadline, sent, turn: Turn::Call }, Event::Count(Ok(n))) => if sent
            + n >= s.out.len() {
            (
                TcpDnsSync {
                    got: Seq::empty(),
                    phase: TcpPhase::Reading { deadline, body: false, want: 2, turn: Turn::Clock },
                    ..s
                },
                Step::Do(Op::ReadClock),
            )
        } else {
            (
                s.at(
                    TcpPhase::Writing { deadline, sent: (sent + n) as usize, turn: Turn::Call },
                ),
                Step::Do(Op::Write),
            )
        },
        (TcpPhase::Writing { deadline, sent, turn: Turn::Call }, Event::Count(Err(e))) => if is_transient(
            e,
        ) {
            (
                s.at(TcpPhase::Writing { deadline, sent, turn: Turn::Clock }),
                Step::Do(Op::ReadClock),
            )
        } else {
            s.over(Err(e))
        },
        (TcpPhase::Writing { deadline, sent, turn: Turn::Clock }, Event::Clock(now)) => if now
            >= deadline {
            s.over(Err(VclError::Timeout))
        } else {
            (
                s.at(TcpPhase::Writing { deadline, sent, turn: Turn::Drain }),
                Step::Do(Op::WaitEpoll { max_events: DRAIN_EVENTS, wait_ms: DRAIN_MS }),
            )
        },
        (TcpPhase::Writing { deadline, sent, turn: Turn::Drain }, Event::Code(_)) => (
            s.at(TcpPhase::Writing { deadline, sent, turn: Turn::Call }),
            Step::Do(Op::Write),
        ),
        (TcpPhase::Reading { deadline, body, want, turn: Turn::Clock }, Event::Clock(now)) => if now
            >= deadline {
            s.over(Err(VclError::Timeout))
        } else {
            (
                s.at(TcpPhase::Reading { deadline, body, want, turn: Turn::Call }),
                Step::Do(Op::Read { max: (want - s.got.len()) as usize }),
            )
        },
        (TcpPhase::Reading { deadline, body, want, turn: Turn::Call }, Event::Bytes(Ok(bytes))) =>
        if bytes.len() == 0 {
            s.over(Err(VclError::Closed))
        } else if s.got.len() + bytes.len() >= want {
            tcp_read_through(s, deadline, body, s.got + bytes)
        } else {
            (
                TcpDnsSync {
                    got: s.got + bytes,
                    phase: TcpPhase::Reading { deadline, body, want, turn: Turn::Clock },
                    ..s
                },
                Step::Do(Op::ReadClock),
            )
        },
        (TcpPhase::Reading { deadline, body, want, turn: Turn::Call }, Event::Bytes(Err(e))) => if is_transient(
            e,
        ) {
            (
                s.at(TcpPhase::Reading { deadline, body, want, turn: Turn::Drain }),
                Step::Do(Op::WaitEpoll { max_events: DRAIN_EVENTS, wait_ms: DRAIN_MS }),
            )
        } else {
            s.over(Err(e))
        },
        (TcpPhase::Reading { deadline, body, want, turn: Turn::Drain }, Event::Code(_)) => (
            s.at(TcpPhase::Reading { deadline, body, want, turn: Turn::Clock }),
            Step::Do(Op::ReadClock),
        ),
        _ => (s, Step::Ignored),
    }
}

/// A query that has not begun.
pub open spec fn tcp_start(
    peer: SocketAddr,
    plan: BindPlan<Seq<char>>,
    query: Seq<u8>,
    timeout: u128,
) -> TcpView {
    TcpDnsSync {
        peer,
        timeout,
        query,
        out: Seq::empty(),
        got: Seq::empty(),
        phase: TcpPhase::Opening(OpenStage::Creating(plan)),
    }
}

/// Begins a DNS query over TCP: opens a fresh session to `peer`, sends `query`
/// with its length before it, and reads the response. The result is the DNS
/// message without the prefix.
///
/// With a `source`, the session is bound to an ephemeral port of it before it
/// connects, so that VPP keeps it. The texts are how the addresses are written
/// in a message; `timeout` is in nanoseconds and starts when the connection is
/// under way.
pub fn query_tcp_dns_sync(
    peer: SocketAddr,
    peer_text: &str,
    source: Option<(IpAddr, &str)>,
    query: &[u8],
    timeout: u128,
) -> (r: (TcpDnsSync, Step<Vec<u8>>))
    ensures
        r.0@ == tcp_start(
            peer,
            tcp_source_plan(labelled(source), peer, peer_text@),
            query@,
            timeout,
        ),
        r.0@.wf(),
        bytes_step(r.1) == BytesStep::Do(
            Op::Create { udp: false, nonblocking: true },
        ),
{
    let plan = plan_tcp_source(source, peer, peer_text);
    let q = TcpDnsSync {
        peer,
        timeout,
        query: slice_to_vec(query),
        out: Vec::new(),
        got: Vec::new(),
        phase: TcpPhase::Opening(OpenStage::Creating(plan)),
    };
    assert(q@.out =~= Seq::<u8>::empty());
    assert(q@.got =~= Seq::<u8>::empty());
    (q, Step::Do(Op::Create { udp: false, nonblocking: true }))
}

impl TcpDnsSync {
    /// The query without its phase, and the phase.
    fn split(self) -> (r: (TcpDnsSync, TcpPhase))
        ensures
            r.0@ == self@.at(TcpPhase::Finished),
            r.1@ == self@.phase,
    {
        let TcpDnsSync { peer, timeout, query, out, got, phase } = self;
        (TcpDnsSync { peer, timeout, query, out, got, phase: TcpPhase::Finished }, phase)
    }

    fn end(self, step: Step<Vec<u8>>) -> (next: (TcpDnsSync, Step<Vec<u8>>))
        ensures
            next.0@ == self@.ended(),
            next.1 == step,
    {
        let q = TcpDnsSync {
            peer: self.peer,
            timeout: self.timeout,
            query: Vec::new(),
            out: Vec::new(),
            got: Vec::new(),
            phase: TcpPhase::Finished,
        };
        assert(q@.query =~= Seq::<u8>::empty());
        assert(q@.out =~= Seq::<u8>::empty());
        assert(q@.got =~= Seq::<u8>::empty());
        (q, step)
    }

    fn finish(self, r: Result<Vec<u8>, VclError>) -> (next: (TcpDnsSync, Step<Vec<u8>>))
        ensures
            (next.0@, bytes_step(next.1)) == self@.over(
                match r {
                    Ok(bytes) => Ok(bytes@),
                    Err(e) => Err(e@),
                },
            ),
    {
        self.end(Step::Close(Close::EpollAndSession, r))
    }

    fn fail(self, e: VclError) -> (next: (TcpDnsSync, Step<Vec<u8>>))
        ensures
            (next.0@, bytes_step(next.1)) == self@.failed(e@),
    {
        self.end(Step::Close(Close::Session(Target::Own), Err(e)))
    }

    fn enter(self, phase: TcpPhase, op: Op) -> (next: (TcpDnsSync, Step<Vec<u8>>))
        ensures
            (next.0@, bytes_step(next.1)) == (self@.at(phase@), BytesStep::Do(op)),
    {
        (TcpDnsSync { phase, ..self }, Step::Do(op))
    }

    fn ignore(self, phase: TcpPhase) -> (next: (TcpDnsSync, Step<Vec<u8>>))
        ensures
            (next.0@, bytes_step(next.1)) == (
                self@.at(phase@),
                BytesStep::Ignored,
            ),
    {
        (TcpDnsSync { phase, ..self }, Step::Ignored)
    }

    /// The bytes that a write offers.
    pub fn outgoing(&self) -> (bytes: &[u8])
        requires
            self@.wf(),
        ensures
            bytes@ == self@.outgoing(),
    {
        match self.phase {
            TcpPhase::Writing { sent, .. } => {
                let bytes = slice_subrange(self.out.as_slice(), sent, self.out.len());
                assert(bytes@ =~= self@.outgoing());
                bytes
            },
            _ => {
                let bytes = slice_subrange(self.out.as_slice(), 0, 0);
                assert(bytes@ =~= Seq::<u8>::empty());
                bytes
            },
        }
    }

    fn opening_step(self, stage: OpenStage, event: Event) -> (next: (TcpDnsSync, Step<Vec<u8>>))
        requires
            stage@.wf(),
        ensures
            (next.0@, bytes_step(next.1)) == tcp_next(
                self@.at(TcpPhase::Opening(stage@)),
                event@,
            ),
            next.0@.wf(),
    {
        match open_step(stage, event) {
            Opening::Do(op, next) => self.enter(TcpPhase::Opening(next), op),
            Opening::Ready => self.enter(TcpPhase::CreatingEpoll, Op::CreateEpoll),
            Opening::Exhausted => self.fail(
                VclError::failure("ephemeral source bind exhausted"),
            ),
            Opening::Refused(e) => self.fail(e),
            Opening::Failed(e) => self.end(Step::Done(Err(e))),
            Opening::Ignored(same) => self.ignore(TcpPhase::Opening(same)),
        }
    }

    fn connected_step(self) -> (next: (TcpDnsSync, Step<Vec<u8>>))
        ensures
            (next.0@, bytes_step(next.1)) == tcp_next(
                self@.at(TcpPhase::Connecting),
                Event::Unit(Ok(())),
            ),
            next.0@.wf(),
    {
        match frame_tcp_dns_query(self.query.as_slice()) {
            Ok(out) => (
                TcpDnsSync { out, phase: TcpPhase::Stamping, ..self },
                Step::Do(Op::ReadClock),
            ),
            Err(e) => self.finish(Err(e)),
        }
    }

    fn writing_step(self, deadline: u128, sent: usize, turn: Turn, event: Event) -> (next: (
        TcpDnsSync,
        Step<Vec<u8>>,
    ))
        requires
            self@.at(TcpPhase::Writing { deadline, sent, turn }).wf(),
        ensures
            (next.0@, bytes_step(next.1)) == tcp_next(
                self@.at(TcpPhase::Writing { deadline, sent, turn }),
                event@,
            ),
            next.0@.wf(),
    {
        match (turn, event) {
            (Turn::Call, Event::Count(Ok(n))) => {
                if n >= self.out.len() - sent {
                    let q = TcpDnsSync { got: Vec::new(), ..self };
                    q.enter(
                        TcpPhase::Reading { deadline, body: false, want: 2, turn: Turn::Clock },
                        Op::ReadClock,
                    )
                } else {
                    let sent: usize = sent + n;
                    self.enter(TcpPhase::Writing { deadline, sent, turn: Turn::Call }, Op::Write)
                }
            },
            (Turn::Call, Event::Count(Err(e))) => match e {
                VclError::WouldBlock | VclError::NotConnected => self.enter(
                    TcpPhase::Writing { deadline, sent, turn: Turn::Clock },
                    Op::ReadClock,
                ),
                other => self.finish(Err(other)),
            },
            (Turn::Clock, Event::Clock(now)) => if now >= deadline {
                self.finish(Err(VclError::Timeout))
            } else {
                self.enter(
                    TcpPhase::Writing { deadline, sent, turn: Turn::Drain },
                    Op::WaitEpoll { max_events: DRAIN_EVENTS, wait_ms: DRAIN_MS },
                )
            },
            (Turn::Drain, Event::Code(_)) => self.enter(
                TcpPhase::Writing { deadline, sent, turn: Turn::Call },
                Op::Write,
            ),
            _ => self.ignore(TcpPhase::Writing { deadline, sent, turn }),
        }
    }

    fn take(self, bytes: Vec<u8>, deadline: u128, body: bool, want: usize) -> (next: (
        TcpDnsSync,
        Step<Vec<u8>>,
    ))
        requires
            self@.at(TcpPhase::Reading { deadline, body, want, turn: Turn::Call }).wf(),
            self@.at(TcpPhase::Reading { deadline, body, want, turn: Turn::Call }).fits(
                Event::Bytes(Ok(bytes@)),
            ),
        ensures
            (next.0@, bytes_step(next.1)) == tcp_next(
                self@.at(TcpPhase::Reading { deadline, body, want, turn: Turn::Call }),
                Event::Bytes(Ok(bytes@)),
            ),
            next.0@.wf(),
    {
        if bytes.len() == 0 {
            return self.finish(Err(VclError::Closed));
        }
        let TcpDnsSync { peer, timeout, query, out, got, phase } = self;
        let mut got: Vec<u8> = got;
        got.extend_from_slice(bytes.as_slice());
        assert(got@ =~= self@.got + bytes@);
        let q = TcpDnsSync { peer, timeout, query, out, got: Vec::new(), phase };
        assert(q@.got =~= Seq::<u8>::empty());
        if got.len() < want {
            return (
                TcpDnsSync {
                    got,
                    phase: TcpPhase::Reading { deadline, body, want, turn: Turn::Clock },
                    ..q
                },
                Step::Do(Op::ReadClock),
            );
        }
        if body {
            return q.finish(Ok(got));
        }
        assert([got@[0], got@[1]]@ =~= got@);
        match decode_tcp_dns_len([got[0], got[1]]) {
            Ok(len) => q.enter(
                TcpPhase::Reading { deadline, body: true, want: len, turn: Turn::Clock },
                Op::ReadClock,
            ),
            Err(e) => q.finish(Err(e)),
        }
    }

    fn reading_step(
        self,
        deadline: u128,
        body: bool,
        want: usize,
        turn: Turn,
        event: Event,
    ) -> (next: (TcpDnsSync, Step<Vec<u8>>))
        requires
            self@.at(TcpPhase::Reading { deadline, body, want, turn }).wf(),
            self@.at(TcpPhase::Reading { deadline, body, want, turn }).fits(event@),
        ensures
            (next.0@, bytes_step(next.1)) == tcp_next(
                self@.at(TcpPhase::Reading { deadline, body, want, turn }),
                event@,
            ),
            next.0@.wf(),
    {
        match (turn, event) {
            (Turn::Clock, Event::Clock(now)) => if now >= deadline {
                self.finish(Err(VclError::Timeout))
            } else {
                let max: usize = want - self.got.len();
                self.enter(
                    TcpPhase::Reading { deadline, body, want, turn: Turn::Call },
                    Op::Read { max },
                )
            },
            (Turn::Call, Event::Bytes(Ok(bytes))) => self.take(bytes, deadline, body, want),
            (Turn::Call, Event::Bytes(Err(e))) => match e {
                VclError::WouldBlock | VclError::NotConnected => self.enter(
                    TcpPhase::Reading { deadline, body, want, turn: Turn::Drain },
                    Op::WaitEpoll { max_events: DRAIN_EVENTS, wait_ms: DRAIN_MS },
                ),
                other => self.finish(Err(other)),
            },
            (Turn::Drain, Event::Code(_)) => self.enter(
                TcpPhase::Reading { deadline, body, want, turn: Turn::Clock },
                Op::ReadClock,
            ),
            _ => self.ignore(TcpPhase::Reading { deadline, body, want, turn }),
        }
    }

    /// Moves the query on by one event.
    pub fn step(self, event: Event) -> (next: (TcpDnsSync, Step<Vec<u8>>))
        requires
            self@.wf(),
            self@.fits(event@),
        ensures
            (next.0@, bytes_step(next.1)) == tcp_next(self@, event@),
            next.0@.wf(),
    {
        let (q, phase) = self.split();
        match phase {
            TcpPhase::Opening(stage) => q.opening_step(stage, event),
            TcpPhase::CreatingEpoll => match event {
                Event::Code(rc) => if rc < 0 {
                    q.fail(VclError::call_failure("vppcom_epoll_create: ", rc))
                } else {
                    q.enter(
                        TcpPhase::AddingToEpoll,
                        Op::AddToEpoll { events: SESSION_EVENTS },
                    )
                },
                _ => q.ignore(phase),
            },
            TcpPhase::AddingToEpoll => match event {
                Event::Code(rc) => if rc < 0 {
                    q.finish(Err(VclError::call_failure("vppcom_epoll_ctl ADD: ", rc)))
                } else {
                    let peer = q.peer;
                    q.enter(TcpPhase::Connecting, Op::Connect(peer))
                },
                _ => q.ignore(phase),
            },
            TcpPhase::Connecting => match event {
                Event::Unit(Ok(())) => q.connected_step(),
                Event::Unit(Err(e)) => match e {
                    VclError::WouldBlock => q.connected_step(),
                    other => q.finish(Err(other)),
                },
                _ => q.ignore(phase),
            },
            TcpPhase::Stamping => match event {
                Event::Clock(now) => {
                    let at = deadline(now, q.timeout);
                    q.enter(
                        TcpPhase::Writing { deadline: at, sent: 0, turn: Turn::Call },
                        Op::Write,
                    )
                },
                _ => q.ignore(phase),
            },
            TcpPhase::Writing { deadline, sent, turn } => q.writing_step(
                deadline,
                sent,
                turn,
                event,
            ),
            TcpPhase::Reading { deadline, body, want, turn } => q.reading_step(
                deadline,
                body,
                want,
                turn,
                event,
            ),
            TcpPhase::Finished => q.ignore(phase),
        }
    }
}

impl TcpDnsSync {
    /// Moves the query on by one event, and draws the port where one is needed:
    /// a bind that this asks for is to a port of the ephemeral range.
    pub fn advance(self, event: Event) -> (next: (TcpDnsSync, Step<Vec<u8>>))
        requires
            self@.wf(),
            self@.fits(event@),
        ensures
            tcp_advanced(self@, event@, (next.0@, bytes_step(next.1))),
            next.0@.wf(),
    {
        let (q, step) = self.step(event);
        match step {
            Step::Do(Op::PickPort) => {
                let port = ephemeral_port();
                assert(is_ephemeral(port));
                q.step(Event::Port(port))
            },
            other => (q, other),
        }
    }
}

/// What one event leads to when ports are drawn as they are needed.
pub open spec fn tcp_advanced(
    s: TcpView,
    event: EventView,
    r: (TcpView, BytesStep),
) -> bool {
    let (q, step) = tcp_next(s, event);
    if step == BytesStep::Do(Op::PickPort) {
        exists|port: u16| #[trigger] is_ephemeral(port) && r == tcp_next(q, Event::Port(port))
    } else {
        r == (q, step)
    }
}

/// Where ports are drawn as they are needed, every bind is to a port of the
/// ephemeral range: never to port 0.
pub proof fn tcp_binds_are_ephemeral(s: TcpView, event: EventView, r: (TcpView, BytesStep))
    requires
        !(event is Port),
        tcp_advanced(s, event, r),
    ensures
        r.1 matches Step::Do(Op::Bind(addr)) ==> is_ephemeral(addr.port) && addr.port != 0,
{
}

/// The query after a sequence of events.
pub open spec fn tcp_run(s: TcpView, events: Seq<EventView>) -> TcpView
    decreases events.len(),
{
    if events.len() == 0 {
        s
    } else {
        tcp_next(tcp_run(s, events.drop_last()), events.last()).0
    }
}

/// No read in the sequence returned more bytes than were asked for, and no write
/// took more than were offered.
pub open spec fn tcp_run_fits(s: TcpView, events: Seq<EventView>) -> bool
    decreases events.len(),
{
    events.len() > 0 ==> {
        &&& tcp_run_fits(s, events.drop_last())
        &&& tcp_run(s, events.drop_last()).fits(events.last())
        &&& tcp_run(s, events.drop_last()).offers(events.last())
    }
}

/// The bytes that an event says were taken from what the query offered.
pub open spec fn taken(s: TcpView, event: EventView) -> Seq<u8> {
    match (s.phase, event) {
        (TcpPhase::Writing { turn: Turn::Call, .. }, Event::Count(Ok(n))) => s.outgoing().take(
            n as int,
        ),
        _ => Seq::empty(),
    }
}

/// The bytes that an event delivers to the query.
pub open spec fn delivered(s: TcpView, event: EventView) -> Seq<u8> {
    match (s.phase, event) {
        (TcpPhase::Reading { turn: Turn::Call, .. }, Event::Bytes(Ok(bytes))) => bytes,
        _ => Seq::empty(),
    }
}

/// All the bytes that were taken, in order.
pub open spec fn all_taken(s: TcpView, events: Seq<EventView>) -> Seq<u8>
    decreases events.len(),
{
    if events.len() == 0 {
        Seq::empty()
    } else {
        all_taken(s, events.drop_last()) + taken(
            tcp_run(s, events.drop_last()),
            events.last(),
        )
    }
}

/// All the bytes that were delivered, in order.
pub open spec fn all_delivered(s: TcpView, events: Seq<EventView>) -> Seq<u8>
    decreases events.len(),
{
    if events.len() == 0 {
        Seq::empty()
    } else {
        all_delivered(s, events.drop_last()) + delivered(
            tcp_run(s, events.drop_last()),
            events.last(),
        )
    }
}

/// The bytes are a prefix of the framed query; of one that cannot be framed, they
/// are none.
pub open spec fn is_prefix_of_frame(query: Seq<u8>, bytes: Seq<u8>) -> bool {
    if query.len() <= 65535 {
        bytes.len() <= framed(query).len() && bytes == framed(query).take(bytes.len() as int)
    } else {
        bytes.len() == 0
    }
}

/// How the state of a query for `query` relates to the bytes exchanged so far.
spec fn tcp_tells(query: Seq<u8>, s: TcpView, sent: Seq<u8>, received: Seq<u8>) -> bool {
    match s.phase {
        TcpPhase::Finished => is_prefix_of_frame(query, sent),
        TcpPhase::Stamping => {
            &&& sent.len() == 0 && received.len() == 0
            &&& query.len() <= 65535 && s.out == framed(query)
        },
        TcpPhase::Writing { sent: n, .. } => {
            &&& query.len() <= 65535 && s.out == framed(query)
            &&& n <= s.out.len() && sent == s.out.take(n as int) && received.len() == 0
        },
        TcpPhase::Reading { body, want, .. } => {
            &&& query.len() <= 65535 && sent == framed(query)
            &&& if body {
                1 <= want <= 65535 && received == be16(want as u16) + s.got
            } else {
                received == s.got
            }
        },
        _ => sent.len() == 0 && received.len() == 0 && s.query == query,
    }
}

proof fn tcp_tells_step(
    query: Seq<u8>,
    s: TcpView,
    event: EventView,
    sent: Seq<u8>,
    received: Seq<u8>,
)
    requires
        s.wf(),
        s.fits(event),
        s.offers(event),
        tcp_tells(query, s, sent, received),
    ensures
        tcp_next(s, event).0.wf(),
        tcp_tells(
            query,
            tcp_next(s, event).0,
            sent + taken(s, event),
            received + delivered(s, event),
        ),
        result_of(tcp_next(s, event).1) matches Some(Ok(response)) ==> {
            &&& query.len() <= 65535
            &&& 1 <= response.len() <= 65535
            &&& sent + taken(s, event) == framed(query)
            &&& received + delivered(s, event) == framed(response)
        },
{
    if query.len() <= 65535 {
        assert(framed(query).take(0) =~= Seq::<u8>::empty());
        assert(framed(query).take(framed(query).len() as int) =~= framed(query));
    }
    assert(sent.len() == 0 ==> sent =~= Seq::<u8>::empty());
    let t = taken(s, event);
    let d = delivered(s, event);
    match (s.phase, event) {
        (TcpPhase::Writing { sent: n, turn: Turn::Call, .. }, Event::Count(Ok(m))) => {
            assert(sent + t =~= s.out.take(n + m));
            assert(received + d =~= Seq::<u8>::empty());
            if n + m >= s.out.len() {
                assert(s.out.take(n + m) =~= s.out);
            }
        },
        (TcpPhase::Reading { body, want, turn: Turn::Call, .. }, Event::Bytes(Ok(bytes))) => {
            assert(sent + t =~= sent);
            if body {
                assert(received + d =~= be16(want as u16) + (s.got + bytes));
            } else if s.got.len() + bytes.len() >= want {
                let prefix = s.got + bytes;
                assert(prefix =~= seq![prefix[0], prefix[1]]);
                only_the_zero_prefix_is_refused(prefix[0], prefix[1]);
                assert(received + d =~= prefix + Seq::<u8>::empty());
            }
        },
        _ => {
            assert(sent + t =~= sent);
            assert(received + d =~= received);
            if s.phase is Opening {
                match open_next(s.phase->Opening_0, event) {
                    Opening::Do(op, next) => {
                        assert(next.wf());
                    },
                    _ => {},
                }
            }
            if s.phase is Stamping {
                assert(s.out.take(0) =~= Seq::<u8>::empty());
            }
        },
    }
}

proof fn tcp_tells_run(
    peer: SocketAddr,
    plan: BindPlan<Seq<char>>,
    query: Seq<u8>,
    timeout: u128,
    events: Seq<EventView>,
)
    requires
        tcp_run_fits(tcp_start(peer, plan, query, timeout), events),
    ensures
        ({
            let s = tcp_start(peer, plan, query, timeout);
            &&& tcp_run(s, events).wf()
            &&& tcp_tells(query, tcp_run(s, events), all_taken(s, events), all_delivered(s, events))
        }),
    decreases events.len(),
{
    if events.len() > 0 {
        let s = tcp_start(peer, plan, query, timeout);
        let before = events.drop_last();
        tcp_tells_run(peer, plan, query, timeout, before);
        tcp_tells_step(
            query,
            tcp_run(s, before),
            events.last(),
            all_taken(s, before),
            all_delivered(s, before),
        );
    }
}

/// What a query answers is what was asked and what came back: whenever a query
/// ends with a response, the bytes that were taken from it, over all its
/// writes, are the query behind its two-octet length, and the bytes that were
/// read, over all reads, are the response behind its two-octet length. The
/// response is not empty, and the query was not cut.
pub proof fn tcp_exchange_is_faithful(
    peer: SocketAddr,
    plan: BindPlan<Seq<char>>,
    query: Seq<u8>,
    timeout: u128,
    events: Seq<EventView>,
    last: EventView,
    response: Seq<u8>,
)
    requires
        tcp_run_fits(tcp_start(peer, plan, query, timeout), events.push(last)),
        result_of(tcp_next(tcp_run(tcp_start(peer, plan, query, timeout), events), last).1) == Some(
            Ok::<Seq<u8>, VclError<Seq<char>>>(response),
        ),
    ensures
        query.len() <= 65535,
        1 <= response.len() <= 65535,
        all_taken(tcp_start(peer, plan, query, timeout), events.push(last)) == framed(query),
        all_delivered(tcp_start(peer, plan, query, timeout), events.push(last)) == framed(
            response,
        ),
{
    let s = tcp_start(peer, plan, query, timeout);
    let all = events.push(last);
    assert(all.drop_last() =~= events);
    tcp_tells_run(peer, plan, query, timeout, events);
    tcp_tells_step(
        query,
        tcp_run(s, events),
        last,
        all_taken(s, events),
        all_delivered(s, events),
    );
}

/// However a query goes and ends, the bytes that were taken from it are a prefix of
/// the query behind its two-octet length.
pub proof fn written_bytes_are_a_prefix(
    peer: SocketAddr,
    plan: BindPlan<Seq<char>>,
    query: Seq<u8>,
    timeout: u128,
    events: Seq<EventView>,
)
    requires
        tcp_run_fits(tcp_start(peer, plan, query, timeout), events),
    ensures
        is_prefix_of_frame(query, all_taken(tcp_start(peer, plan, query, timeout), events)),
{
    tcp_tells_run(peer, plan, query, timeout, events);
    let sent = all_taken(tcp_start(peer, plan, query, timeout), events);
    if query.len() <= 65535 {
        assert(framed(query).take(0) =~= Seq::<u8>::empty());
        assert(framed(query).take(framed(query).len() as int) =~= framed(query));
        assert(sent.len() == 0 ==> sent =~= Seq::<u8>::empty());
    }
}

/// A query longer than its length prefix can announce is refused before a
/// single byte is written, whatever happens.
pub proof fn oversized_query_writes_nothing(
    peer: SocketAddr,
    plan: BindPlan<Seq<char>>,
    query: Seq<u8>,
    timeout: u128,
    events: Seq<EventView>,
)
    requires
        query.len() > 65535,
        tcp_run_fits(tcp_start(peer, plan, query, timeout), events),
    ensures
        all_taken(tcp_start(peer, plan, query, timeout), events).len() == 0,
        !(tcp_run(tcp_start(peer, plan, query, timeout), events).phase is Writing),
    decreases events.len(),
{
    tcp_tells_run(peer, plan, query, timeout, events);
    if events.len() > 0 {
        let s = tcp_start(peer, plan, query, timeout);
        let before = events.drop_last();
        oversized_query_writes_nothing(peer, plan, query, timeout, before);
        tcp_tells_run(peer, plan, query, timeout, before);
        assert(!(tcp_run(s, before).phase is Writing));
    }
}

/// The deadline that the next reading of the clock is held against.
pub open spec fn awaited_deadline(s: TcpView) -> Option<u128> {
    match s.phase {
        TcpPhase::Writing { deadline, turn: Turn::Clock, .. } => Some(deadline),
        TcpPhase::Reading { deadline, turn: Turn::Clock, .. } => Some(deadline),
        _ => None,
    }
}

/// The deadline is kept: once a reading of the clock shows that it has passed,
/// the query ends there with a timeout. No read, and no wait for the session to
/// become writable, is begun but on a reading of the clock that shows that it
/// has not.
pub proof fn tcp_deadline_is_kept(s: TcpView, event: EventView)
    ensures
        (awaited_deadline(s) matches Some(deadline) && event matches Event::Clock(now) && now
            >= deadline) ==> tcp_next(s, event).1 == BytesStep::Close(
            Close::EpollAndSession,
            Err(VclError::Timeout),
        ),
        (tcp_next(s, event).1 matches Step::Do(Op::Read { .. })) ==> (awaited_deadline(
            s,
        ) matches Some(deadline) && event matches Event::Clock(now) && now < deadline),
        (tcp_next(s, event).1 matches Step::Do(Op::WaitEpoll { .. }) && s.phase is Writing) ==> (
        awaited_deadline(s) matches Some(deadline) && event matches Event::Clock(now) && now
            < deadline),
{
}

/// The session is written to only once its source is bound and it is watched
/// and connecting: each of these steps comes only after the one before it.
pub proof fn tcp_steps_come_in_order(s: TcpView, event: EventView)
    ensures
        tcp_next(s, event).0.phase is CreatingEpoll ==> s.phase is Opening || s.phase
            is CreatingEpoll,
        tcp_next(s, event).0.phase is AddingToEpoll ==> s.phase is CreatingEpoll || s.phase
            is AddingToEpoll,
        tcp_next(s, event).0.phase is Connecting ==> s.phase is AddingToEpoll || s.phase
            is Connecting,
        tcp_next(s, event).0.phase is Stamping ==> s.phase is Connecting || s.phase is Stamping,
        tcp_next(s, event).0.phase is Writing ==> s.phase is Stamping || s.phase is Writing,
        tcp_next(s, event).0.phase is Reading ==> s.phase is Writing || s.phase is Reading,
        s.phase is Finished ==> tcp_next(s, event) == (s, BytesStep::Ignored),
{
}

/// Whether the session of a query is open.
pub open spec fn tcp_session_open(s: TcpView) -> bool {
    match s.phase {
        TcpPhase::Opening(OpenStage::Creating(_)) => false,
        TcpPhase::Finished => false,
        _ => true,
    }
}

/// Whether the epoll set of a query is open.
pub open spec fn tcp_epoll_open(s: TcpView) -> bool {
    match s.phase {
        TcpPhase::Opening(_) => false,
        TcpPhase::CreatingEpoll => false,
        TcpPhase::Finished => false,
        _ => true,
    }
}

/// A query closes what it opened, on every way out: it ends with nothing to close
/// only where its session could not be opened, with its session only where it has
/// no epoll set, and otherwise with the epoll set and the session. Until it ends,
/// what is open stays open.
pub proof fn tcp_query_closes_what_it_opened(s: TcpView, event: EventView)
    ensures
        result_of(tcp_next(s, event).1) is Some ==> match tcp_next(s, event).1 {
            Step::Done(r) => !tcp_session_open(s) && event == EventView::Unit(
                Err(r->Err_0),
            ) && r is Err,
            Step::Close(Close::Session(target), _) => target == Target::Own && !tcp_epoll_open(s)
                && (tcp_session_open(s) || succeeded(event)),
            Step::Close(close, _) => close == Close::EpollAndSession && tcp_epoll_open(s)
                && tcp_session_open(s),
            _ => false,
        },
        result_of(tcp_next(s, event).1) is None ==> {
            &&& tcp_session_open(s) ==> tcp_session_open(tcp_next(s, event).0)
            &&& tcp_epoll_open(s) ==> tcp_epoll_open(tcp_next(s, event).0)
        },
        tcp_epoll_open(s) && result_of(tcp_next(s, event).1) is Some ==> (tcp_next(s, event).1
            matches Step::Close(close, _) && close == Close::EpollAndSession),
{
}

// ---- what a query is for ----

/// The event of a read or write that only has to be tried again: it would block, or
/// the handshake has not completed.
pub open spec fn must_be_tried_again(event: EventView) -> bool {
    match event {
        Event::Count(Err(e)) => e is WouldBlock || e is NotConnected,
        Event::Bytes(Err(e)) => e is WouldBlock || e is NotConnected,
        _ => false,
    }
}

/// An answer that is not there yet is waited for, be it the prefix or the body: a read
/// that has to be tried again is followed by a drain of the message queue and a look at
/// the clock. Before the deadline that leads back to the very same read, with nothing
/// lost of what was read; at the deadline the query times out.
pub proof fn unanswered_read_is_tried_again(
    s: TcpView,
    event: EventView,
    deadline: u128,
    body: bool,
    want: usize,
    drained: i32,
    now: u128,
)
    requires
        s.wf(),
        s.phase == (TcpPhase::<Seq<char>>::Reading { deadline, body, want, turn: Turn::Call }),
        must_be_tried_again(event) && event is Bytes,
    ensures
        ({
            let (waiting, wait) = tcp_next(s, event);
            let (looking, look) = tcp_next(waiting, Event::Code(drained));
            let (again, read) = tcp_next(looking, Event::Clock(now));
            &&& wait == BytesStep::Do(Op::WaitEpoll { max_events: 4, wait_ms: 5 })
            &&& look == BytesStep::Do(Op::ReadClock)
            &&& now < deadline ==> again == s && read == BytesStep::Do(
                Op::Read { max: (want - s.got.len()) as usize },
            )
            &&& now >= deadline ==> result_of(read) == Some(
                Err::<Seq<u8>, VclError<Seq<char>>>(VclError::Timeout),
            )
        }),
{
}

/// A session that cannot be written to yet is waited for in the same way: before the
/// deadline a write that has to be tried again leads back to the very same write, with
/// nothing lost of what is to be sent.
pub proof fn unaccepted_write_is_tried_again(
    s: TcpView,
    event: EventView,
    deadline: u128,
    sent: usize,
    drained: i32,
    now: u128,
)
    requires
        s.phase == (TcpPhase::<Seq<char>>::Writing { deadline, sent, turn: Turn::Call }),
        must_be_tried_again(event) && event is Count,
    ensures
        ({
            let (looking, look) = tcp_next(s, event);
            let (waiting, wait) = tcp_next(looking, Event::Clock(now));
            let (again, write) = tcp_next(waiting, Event::Code(drained));
            &&& look == BytesStep::Do(Op::ReadClock)
            &&& now >= deadline ==> result_of(wait) == Some(
                Err::<Seq<u8>, VclError<Seq<char>>>(VclError::Timeout),
            )
            &&& now < deadline ==> {
                &&& wait == BytesStep::Do(Op::WaitEpoll { max_events: 4, wait_ms: 5 })
                &&& again == s && write == BytesStep::Do(Op::Write)
            }
        }),
{
}

/// A response may come in any pieces: a piece is put behind what was read before, and
/// the rest is read next, in the time that was set; a body that is complete is the
/// result; and a complete prefix of two octets is followed by a body of the length it
/// gives, high octet first.
pub proof fn response_is_read_in_pieces(
    s: TcpView,
    piece: Seq<u8>,
    deadline: u128,
    body: bool,
    want: usize,
)
    requires
        s.wf(),
        s.phase == (TcpPhase::<Seq<char>>::Reading { deadline, body, want, turn: Turn::Call }),
        piece.len() > 0,
        s.got.len() + piece.len() <= want,
    ensures
        ({
            let (next, step) = tcp_next(s, Event::Bytes(Ok(piece)));
            let read = s.got + piece;
            &&& read.len() < want ==> {
                &&& next.got == read && step == BytesStep::Do(Op::ReadClock)
                &&& next.phase == (TcpPhase::<Seq<char>>::Reading {
                    deadline,
                    body,
                    want,
                    turn: Turn::Clock,
                })
            }
            &&& read.len() == want && body ==> result_of(step) == Some(
                Ok::<Seq<u8>, VclError<Seq<char>>>(read),
            )
            &&& read.len() == want && !body && read[0] == 0 && read[1] == 0 ==> (result_of(
                step,
            ) matches Some(Err(VclError::Api(why, rc))) && why == "zero-length DNS response"@ && rc
                == -1)
            &&& read.len() == want && !body && !(read[0] == 0 && read[1] == 0) ==> {
                &&& next.got.len() == 0 && step == BytesStep::Do(Op::ReadClock)
                &&& next.phase == (TcpPhase::<Seq<char>>::Reading {
                    deadline,
                    body: true,
                    want: (read[0] * 256 + read[1]) as usize,
                    turn: Turn::Clock,
                })
            }
        }),
{
}

/// A stream that ends within a response is an error, and not a short response.
pub proof fn short_response_is_an_error(s: TcpView)
    requires
        s.phase matches TcpPhase::Reading { turn, .. } && turn is Call,
    ensures
        result_of(tcp_next(s, Event::Bytes(Ok(Seq::empty()))).1) == Some(
            Err::<Seq<u8>, VclError<Seq<char>>>(VclError::Closed),
        ),
{
}

/// A query may be taken in any pieces: what was not taken is offered next, and once all
/// of it was taken the two octets of the prefix are read, in the time that was set.
pub proof fn query_is_written_in_pieces(s: TcpView, n: usize, deadline: u128, sent: usize)
    requires
        s.wf(),
        s.phase == (TcpPhase::<Seq<char>>::Writing { deadline, sent, turn: Turn::Call }),
        n <= s.outgoing().len(),
    ensures
        ({
            let (next, step) = tcp_next(s, Event::Count(Ok(n)));
            &&& n < s.outgoing().len() ==> next.outgoing() == s.outgoing().skip(n as int) && step
                == BytesStep::Do(Op::Write) && next.phase == (TcpPhase::<Seq<char>>::Writing {
                deadline,
                sent: (sent + n) as usize,
                turn: Turn::Call,
            })
            &&& n == s.outgoing().len() ==> next.got.len() == 0 && step == BytesStep::Do(
                Op::ReadClock,
            ) && next.phase == (TcpPhase::<Seq<char>>::Reading {
                deadline,
                body: false,
                want: 2,
                turn: Turn::Clock,
            })
        }),
{
    let next = tcp_next(s, Event::Count(Ok(n))).0;
    if n < s.outgoing().len() {
        assert(next.outgoing() =~= s.outgoing().skip(n as int));
    }
}

/// The way to the first write: a session that is open is watched for reads and writes,
/// edge-triggered, and connected to the peer; that the handshake is under way is no
/// failure; the query is then offered behind its length, and its time is the timeout
/// from that moment.
pub proof fn query_goes_on_to_its_write(s: TcpView, rc: i32, now: u128)
    requires
        rc >= 0,
    ensures
        s.phase is CreatingEpoll ==> tcp_next(s, Event::Code(rc)).1 == BytesStep::Do(
            Op::AddToEpoll { events: 0x8000_0005 },
        ) && tcp_next(s, Event::Code(rc)).0 == s.at(TcpPhase::AddingToEpoll),
        s.phase is AddingToEpoll ==> tcp_next(s, Event::Code(rc)).1 == BytesStep::Do(
            Op::Connect(s.peer),
        ) && tcp_next(s, Event::Code(rc)).0 == s.at(TcpPhase::Connecting),
        s.phase is Connecting && s.query.len() <= 65535 ==> ({
            let (made, step) = tcp_next(s, Event::Unit(Ok(())));
            let (begun, _) = tcp_next(s, Event::Unit(Err(VclError::WouldBlock)));
            &&& begun == made && step == BytesStep::Do(Op::ReadClock)
            &&& made.phase is Stamping && made.timeout == s.timeout && made.out.len() == 2
                + s.query.len() && made.out.skip(2) == s.query && made.out[0] * 256 + made.out[1]
                == s.query.len()
        }),
        s.phase is Stamping ==> ({
            let (next, step) = tcp_next(s, Event::Clock(now));
            &&& step == BytesStep::Do(Op::Write) && next.out == s.out
            &&& next.phase matches TcpPhase::Writing { deadline, sent, turn } && sent == 0 && turn
                is Call && (now + s.timeout <= u128::MAX ==> deadline == now + s.timeout) && (now
                + s.timeout > u128::MAX ==> deadline == u128::MAX)
        }),
{
    sessions_are_watched_for_changes();
    if s.query.len() <= 65535 {
        assert(framed(s.query).skip(2) =~= s.query);
    }
}

/// A query keeps its deadline from the moment it is set to its end, whatever comes.
pub proof fn query_keeps_its_deadline(s: TcpView, event: EventView, set: u128)
    requires
        deadline_of(s) == Some(set),
        result_of(tcp_next(s, event).1) is None,
    ensures
        deadline_of(tcp_next(s, event).0) == Some(set),
{
}

/// The deadline of a query, once it is set.
pub open spec fn deadline_of(s: TcpView) -> Option<u128> {
    match s.phase {
        TcpPhase::Writing { deadline, .. } => Some(deadline),
        TcpPhase::Reading { deadline, .. } => Some(deadline),
        _ => None,
    }
}

/// A query fails exactly for a reason: with the failure of the step that it asked for,
/// where that is none that had only to be tried again; with a timeout, when the clock shows
/// its deadline; with the end of the stream; or with what is wrong with the request or
/// the response.
pub proof fn query_fails_only_for_a_reason(s: TcpView, event: EventView, e: VclError<Seq<char>>)
    requires
        s.wf(),
        s.fits(event),
    ensures
        result_of(tcp_next(s, event).1) == Some(Err::<Seq<u8>, VclError<Seq<char>>>(e)) <==> match (
            s.phase,
            event,
        ) {
            (TcpPhase::Opening(stage), Event::Unit(r)) => match stage {
                OpenStage::Creating(plan) => r == Err::<(), VclError<Seq<char>>>(e) || (r is Ok
                    && plan == BindPlan::Refuse(e)),
                OpenStage::Picking { .. } => false,
                OpenStage::Binding { ip, left } => left == 0 && r is Err && e == failure(
                    "ephemeral source bind exhausted"@,
                ),
            },
            (TcpPhase::CreatingEpoll, Event::Code(rc)) => rc < 0 && e == call_failure(
                "vppcom_epoll_create: "@,
                rc,
            ),
            (TcpPhase::AddingToEpoll, Event::Code(rc)) => rc < 0 && e == call_failure(
                "vppcom_epoll_ctl ADD: "@,
                rc,
            ),
            (TcpPhase::Connecting, Event::Unit(r)) => (r == Err::<(), VclError<Seq<char>>>(e) && !(e
                is WouldBlock)) || ((r matches Err(why) ==> why is WouldBlock) && s.query.len()
                > 65535 && e == failure("DNS query longer than 65535 bytes"@)),
            (TcpPhase::Writing { turn: Turn::Call, .. }, Event::Count(r)) => r == Err::<
                usize,
                VclError<Seq<char>>,
            >(e) && !must_be_tried_again(event),
            (TcpPhase::Reading { turn: Turn::Call, .. }, Event::Bytes(Err(f))) => f == e
                && !must_be_tried_again(event),
            (TcpPhase::Reading { turn: Turn::Call, body, .. }, Event::Bytes(Ok(piece))) => (
            piece.len() == 0 && e is Closed) || (piece.len() > 0 && !body && s.got + piece == seq![
                0u8,
                0u8,
            ] && e == failure("zero-length DNS response"@)),
            (TcpPhase::Writing { deadline, turn: Turn::Clock, .. }, Event::Clock(now)) => now
                >= deadline && e is Timeout,
            (TcpPhase::Reading { deadline, turn: Turn::Clock, .. }, Event::Clock(now)) => now
                >= deadline && e is Timeout,
            _ => false,
        },
{
    if s.phase matches TcpPhase::Reading { turn: Turn::Call, body: false, .. } && event
        matches Event::Bytes(Ok(piece)) && piece.len() > 0 {
        let read = s.got + event->Bytes_0->Ok_0;
        assert(read.len() == 2 && read[0] == 0 && read[1] == 0 ==> read =~= seq![0u8, 0u8]);
    }
}

/// What answers nothing that the query asked for changes nothing, and that is so of just
/// those events; until it ends the query keeps whom it asks, what it asks and for how long.
pub proof fn query_keeps_its_inputs(s: TcpView, event: EventView)
    ensures
        tcp_next(s, event).1 is Ignored ==> tcp_next(s, event).0 == s,
        tcp_next(s, event).1 is Ignored <==> match s.phase {
            TcpPhase::Opening(OpenStage::Picking { .. }) => !(event is Port),
            TcpPhase::Opening(_) => !(event is Unit),
            TcpPhase::CreatingEpoll => !(event is Code),
            TcpPhase::AddingToEpoll => !(event is Code),
            TcpPhase::Connecting => !(event is Unit),
            TcpPhase::Stamping => !(event is Clock),
            TcpPhase::Writing { turn, .. } => match turn {
                Turn::Call => !(event is Count),
                Turn::Clock => !(event is Clock),
                Turn::Drain => !(event is Code),
            },
            TcpPhase::Reading { turn, .. } => match turn {
                Turn::Call => !(event is Bytes),
                Turn::Clock => !(event is Clock),
                Turn::Drain => !(event is Code),
            },
            TcpPhase::Finished => true,
        },
        result_of(tcp_next(s, event).1) is None ==> tcp_next(s, event).0.peer == s.peer && tcp_next(
            s,
            event,
        ).0.query == s.query && tcp_next(s, event).0.timeout == s.timeout,
        tcp_next(s, event).1 matches Step::Do(Op::Connect(to)) ==> to == s.peer,
{
}

/// A query with a source of the peer's family binds that source and nothing else, over
/// any events from its start; a query without a source binds nothing. Whatever it
/// connects to is its peer.
pub proof fn query_binds_its_source(
    peer: SocketAddr,
    peer_text: Seq<char>,
    source: Option<(IpAddr, Seq<char>)>,
    query: Seq<u8>,
    timeout: u128,
    events: Seq<EventView>,
    last: EventView,
)
    ensures
        ({
            let start = tcp_start(
                peer,
                tcp_source_plan(source, peer, peer_text),
                query,
                timeout,
            );
            let step = tcp_next(tcp_run(start, events), last).1;
            &&& step matches Step::Do(Op::Bind(addr)) ==> (source matches Some((ip, _)) && addr.ip
                == ip && ip is V4 == peer.ip is V4)
            &&& step matches Step::Do(Op::Connect(to)) ==> to == peer
            &&& source matches Some((ip, _)) ==> (ip is V4 != peer.ip is V4 ==> !(step matches
                Step::Do(_)) && !(result_of(step) matches Some(Ok(_))))
        }),
{
    source_is_served(peer, peer_text, source, query, timeout, events);
    let start = tcp_start(peer, tcp_source_plan(source, peer, peer_text), query, timeout);
    let s = tcp_run(start, events);
    if s.phase is Opening {
        let stage = s.phase->Opening_0;
        if source matches Some((ip, _)) && ip is V4 == peer.ip is V4 {
            opening_keeps_its_address(stage, last, source->Some_0.0);
        }
    }
}

proof fn source_is_served(
    peer: SocketAddr,
    peer_text: Seq<char>,
    source: Option<(IpAddr, Seq<char>)>,
    query: Seq<u8>,
    timeout: u128,
    events: Seq<EventView>,
)
    ensures
        ({
            let start = tcp_start(
                peer,
                tcp_source_plan(source, peer, peer_text),
                query,
                timeout,
            );
            let s = tcp_run(start, events);
            &&& s.peer == peer
            &&& source matches Some((ip, _)) ==> if ip is V4 == peer.ip is V4 {
                s.phase matches TcpPhase::Opening(stage) ==> serves(stage, ip)
            } else {
                match s.phase {
                    TcpPhase::Opening(stage) => stage matches OpenStage::Creating(plan) && plan
                        is Refuse,
                    TcpPhase::Finished => true,
                    _ => false,
                }
            }
            &&& source is None ==> (s.phase matches TcpPhase::Opening(stage) ==> (stage matches
                OpenStage::Creating(plan) && plan is Skip))
        }),
    decreases events.len(),
{
    if events.len() > 0 {
        source_is_served(peer, peer_text, source, query, timeout, events.drop_last());
        let start = tcp_start(peer, tcp_source_plan(source, peer, peer_text), query, timeout);
        let s = tcp_run(start, events.drop_last());
        if s.phase is Opening {
            if source matches Some((ip, _)) && ip is V4 == peer.ip is V4 {
                opening_keeps_its_address(s.phase->Opening_0, events.last(), source->Some_0.0);
            }
        }
    }
}

/// A source of another family is refused, by a message that names both.
pub proof fn other_family_is_refused_by_name(
    ip: IpAddr,
    text: Seq<char>,
    peer: SocketAddr,
    peer_text: Seq<char>,
)
    requires
        ip is V4 != peer.ip is V4,
    ensures
        tcp_source_plan(Some((ip, text)), peer, peer_text) matches BindPlan::Refuse(e) && e
            == VclError::Api(
            "source IP family ("@ + text + ") doesn't match peer ("@ + peer_text + ")"@,
            (-1) as i32,
        ),
{
}

/// The steps of opening are the query's own: it does what opening asks for, and goes on
/// to its epoll set when the session is open and bound.
pub proof fn query_opens_its_session(s: TcpView, stage: OpenStage<Seq<char>>, event: EventView)
    requires
        s.phase == TcpPhase::Opening(stage),
    ensures
        open_next(stage, event) matches Opening::Do(op, next) ==> tcp_next(s, event) == (
            s.at(TcpPhase::Opening(next)),
            BytesStep::Do(op),
        ),
        open_next(stage, event) is Ready ==> tcp_next(s, event) == (
            s.at(TcpPhase::CreatingEpoll),
            BytesStep::Do(Op::CreateEpoll),
        ),
        tcp_next(s, event).1 == BytesStep::Do(Op::CreateEpoll) ==> open_next(stage, event) is Ready,
{
}

/// Drawing ports adds nothing to a query but the ports: a query is moved on as the event
/// says, or, where a port is needed, as that port says after the event.
pub proof fn drawing_adds_only_ports(s: TcpView, event: EventView, r: (TcpView, BytesStep))
    requires
        tcp_advanced(s, event, r),
    ensures
        tcp_next(s, event).1 != BytesStep::Do(Op::PickPort) ==> r == tcp_next(s, event),
        tcp_next(s, event).1 == BytesStep::Do(Op::PickPort) ==> exists|port: u16|
            32768 <= port <= 60999 && r == #[trigger] tcp_next(
                tcp_next(s, event).0,
                Event::Port(port),
            ),
{
    if tcp_next(s, event).1 == BytesStep::Do(Op::PickPort) {
        let port = choose|port: u16|
            #[trigger] is_ephemeral(port) && r == tcp_next(
                tcp_next(s, event).0,
                Event::Port(port),
            );
        assert(r == tcp_next(tcp_next(s, event).0, Event::Port(port)));
    }
}

/// A query begins with what it was asked for and with nothing done.
pub proof fn query_begins(
    peer: SocketAddr,
    plan: BindPlan<Seq<char>>,
    query: Seq<u8>,
    timeout: u128,
)
    ensures
        ({
            let s = tcp_start(peer, plan, query, timeout);
            &&& s.phase == TcpPhase::Opening(OpenStage::Creating(plan))
            &&& s.peer == peer && s.query == query && s.timeout == timeout
            &&& s.out.len() == 0 && s.got.len() == 0
        }),
{
}

/// In a contract a query stands as it is, with its bytes by their views.
pub proof fn queries_are_seen_as_they_are(q: TcpDnsSync)
    ensures
        q@.peer == q.peer && q@.timeout == q.timeout,
        q@.query == q.query@ && q@.out == q.out@ && q@.got == q.got@,
        match q.phase {
            TcpPhase::Opening(stage) => q@.phase == TcpPhase::Opening(stage@),
            TcpPhase::CreatingEpoll => q@.phase is CreatingEpoll,
            TcpPhase::AddingToEpoll => q@.phase is AddingToEpoll,
            TcpPhase::Connecting => q@.phase is Connecting,
            TcpPhase::Stamping => q@.phase is Stamping,
            TcpPhase::Writing { deadline, sent, turn } => q@.phase == (TcpPhase::<
                Seq<char>,
            >::Writing { deadline, sent, turn }),
            TcpPhase::Reading { deadline, body, want, turn } => q@.phase == (TcpPhase::<
                Seq<char>,
            >::Reading { deadline, body, want, turn }),
            TcpPhase::Finished => q@.phase is Finished,
        },
{
}

} // verus!
