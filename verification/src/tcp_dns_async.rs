//! One-shot DNS queries over a TCP stream, without blocking calls.

use vstd::prelude::*;
use vstd::slice::{slice_subrange, slice_to_vec};

use crate::addr::{IpAddr, SocketAddr};
#[allow(unused_imports)]
use crate::addr::be16;
use crate::ephemeral::{ephemeral_ports, BindPlan};
#[allow(unused_imports)]
use crate::ephemeral::{is_ephemeral, labelled};
#[allow(unused_imports)]
use crate::error::failure;
use crate::error::VclError;
use crate::framing::{decode_tcp_dns_len, frame_tcp_dns_query};
#[allow(unused_imports)]
use crate::framing::{frame_outcome, framed, len_outcome, only_the_zero_prefix_is_refused};
use crate::ops::{remaining, Close, Event, Op, Step};
#[allow(unused_imports)]
use crate::ops::{bytes_step, result_of, succeeded, time_left, BytesStep, EventView};
use crate::tcp_dns::plan_tcp_source;
#[allow(unused_imports)]
use crate::tcp_dns::tcp_source_plan;

verus! {

/// How far a query has come.
#[derive(Debug, Clone, Copy)]
pub enum AsyncPhase {
    /// The time from which the timeout counts is being read.
    Stamping { ip: IpAddr, ports: [u16; 8] },
    /// The clock is being read before the source port `ports[tried]` is tried.
    Budgeting { ip: IpAddr, ports: [u16; 8], started: u128, tried: usize },
    /// A connection from the port before `ports[tried]` is under way.
    Trying { ip: IpAddr, ports: [u16; 8], started: u128, tried: usize },
    /// A connection from a source that VPP picks is under way.
    Connecting,
    Writing,
    ReadingLen,
    ReadingBody { len: usize },
    Finished,
}

/// A DNS query over a stream of its own.
#[derive(Debug)]
pub struct TcpDnsAsync<B = Vec<u8>> {
    pub peer: SocketAddr,
    pub timeout: u128,
    /// The query.
    pub query: B,
    /// What is written: the framed query, once the stream is connected.
    pub out: B,
    pub phase: AsyncPhase,
}

impl View for TcpDnsAsync {
    type V = TcpDnsAsync<Seq<u8>>;

    open spec fn view(&self) -> TcpDnsAsync<Seq<u8>> {
        TcpDnsAsync {
            peer: self.peer,
            timeout: self.timeout,
            query: self.query@,
            out: self.out@,
            phase: self.phase,
        }
    }
}

/// A query in the terms of contracts.
pub type AsyncView = TcpDnsAsync<Seq<u8>>;

impl TcpDnsAsync<Seq<u8>> {
    /// A port is left where one is about to be tried, one was tried where a
    /// connection is under way, and a response is never empty.
    pub open spec fn wf(self) -> bool {
        match self.phase {
            AsyncPhase::Budgeting { tried, .. } => tried < 8,
            AsyncPhase::Trying { tried, .. } => 1 <= tried <= 8,
            AsyncPhase::ReadingBody { len } => 1 <= len <= 65535,
            _ => true,
        }
    }

    /// A read of an exact length returns as many bytes as were asked for.
    pub open spec fn fits(self, event: EventView) -> bool {
        match (self.phase, event) {
            (AsyncPhase::ReadingLen, Event::Bytes(Ok(bytes))) => bytes.len() == 2,
            (AsyncPhase::ReadingBody { len }, Event::Bytes(Ok(bytes))) => bytes.len() == len,
            _ => true,
        }
    }

    /// The bytes to write.
    pub open spec fn outgoing(self) -> Seq<u8> {
        if self.phase is Writing {
            self.out
        } else {
            Seq::empty()
        }
    }

    /// The same query in another phase.
    pub open spec fn at(self, phase: AsyncPhase) -> AsyncView {
        TcpDnsAsync { phase, ..self }
    }

    /// The query once it is over.
    pub open spec fn ended(self) -> AsyncView {
        TcpDnsAsync {
            query: Seq::empty(),
            out: Seq::empty(),
            phase: AsyncPhase::Finished,
            ..self
        }
    }

    /// The query is over with this result, and closes its stream.
    pub open spec fn over(self, r: Result<Seq<u8>, VclError<Seq<char>>>) -> (
        AsyncView,
        BytesStep,
    ) {
        (self.ended(), Step::Close(Close::Stream, r))
    }

    /// The query is over before it has a stream.
    pub open spec fn failed(self, e: VclError<Seq<char>>) -> (AsyncView, BytesStep) {
        (self.ended(), Step::Done(Err(e)))
    }
}

/// What follows once the stream is connected.
pub open spec fn async_connected(s: AsyncView) -> (AsyncView, BytesStep) {
    match frame_outcome(s.query) {
        Ok(out) => (
            TcpDnsAsync { out, phase: AsyncPhase::Writing, ..s },
            Step::Do(Op::WriteAll),
        ),
        Err(e) => s.over(Err(e)),
    }
}

/// The query and its step after an event.
///
/// A source port from which no connection comes about is followed by the next
/// one while time is left; the failure of the last one is the query's.
pub open spec fn async_next(s: AsyncView, event: EventView) -> (AsyncView, BytesStep) {
    match (s.phase, event) {
        (AsyncPhase::Stamping { ip, ports }, Event::Clock(started)) => (
            s.at(AsyncPhase::Budgeting { ip, ports, started, tried: 0 }),
            Step::Do(Op::ReadClock),
        ),
        (AsyncPhase::Budgeting { ip, ports, started, tried }, Event::Clock(now)) => {
            let timeout = time_left(s.timeout, started, now);
            if timeout == 0 {
                s.failed(VclError::Timeout)
            } else {
                (
                    s.at(AsyncPhase::Trying { ip, ports, started, tried: (tried + 1) as usize }),
                    Step::Do(
                        Op::ConnectStream {
                            peer: s.peer,
                            source: Some(SocketAddr { ip, port: ports@[tried as int] }),
                            timeout,
                        },
                    ),
                )
            }
        },
        (AsyncPhase::Trying { .. }, Event::Unit(Ok(_))) => async_connected(s),
        (AsyncPhase::Trying { ip, ports, started, tried }, Event::Unit(Err(e))) => if tried >= 8 {
            s.failed(e)
        } else {
            (
                s.at(AsyncPhase::Budgeting { ip, ports, started, tried }),
                Step::Do(Op::ReadClock),
            )
        },
        (AsyncPhase::Connecting, Event::Unit(Ok(_))) => async_connected(s),
        (AsyncPhase::Connecting, Event::Unit(Err(e))) => s.failed(e),
        (AsyncPhase::Writing, Event::Unit(Ok(_))) => (
            s.at(AsyncPhase::ReadingLen),
            Step::Do(Op::ReadExact { len: 2 }),
        ),
        (AsyncPhase::Writing, Event::Unit(Err(e))) => s.over(Err(e)),
        (AsyncPhase::ReadingLen, Event::Bytes(Ok(prefix))) => match len_outcome(prefix) {
            Ok(len) => (
                s.at(AsyncPhase::ReadingBody { len }),
                Step::Do(Op::ReadExact { len }),
            ),
            Err(e) => s.over(Err(e)),
        },
        (AsyncPhase::ReadingBody { .. }, Event::Bytes(Ok(body))) => s.over(Ok(body)),
        (AsyncPhase::ReadingLen, Event::Bytes(Err(e))) => s.over(Err(e)),
        (AsyncPhase::ReadingBody { .. }, Event::Bytes(Err(e))) => s.over(Err(e)),
        _ => (s, Step::Ignored),
    }
}

/// A query that begins, and its first step.
pub open spec fn async_start(
    peer: SocketAddr,
    plan: BindPlan<Seq<char>>,
    ports: [u16; 8],
    query: Seq<u8>,
    timeout: u128,
) -> (AsyncView, BytesStep) {
    let s = TcpDnsAsync {
        peer,
        timeout,
        query,
        out: Seq::empty(),
        phase: AsyncPhase::Connecting,
    };
    match plan {
        BindPlan::Skip => (s, Step::Do(Op::ConnectStream { peer, source: None, timeout })),
        BindPlan::Bind(ip) => (
            s.at(AsyncPhase::Stamping { ip, ports }),
            Step::Do(Op::ReadClock),
        ),
        BindPlan::Refuse(e) => s.failed(e),
    }
}

impl TcpDnsAsync {
    fn enter(self, phase: AsyncPhase, op: Op) -> (next: (TcpDnsAsync, Step<Vec<u8>>))
        ensures
            (next.0@, bytes_step(next.1)) == (self@.at(phase), BytesStep::Do(op)),
    {
        (TcpDnsAsync { phase, ..self }, Step::Do(op))
    }

    fn end(self, step: Step<Vec<u8>>) -> (next: (TcpDnsAsync, Step<Vec<u8>>))
        ensures
            next.0@ == self@.ended(),
            next.1 == step,
    {
        let q = TcpDnsAsync {
            peer: self.peer,
            timeout: self.timeout,
            query: Vec::new(),
            out: Vec::new(),
            phase: AsyncPhase::Finished,
        };
        assert(q@.query =~= Seq::<u8>::empty());
        assert(q@.out =~= Seq::<u8>::empty());
        (q, step)
    }

    fn finish(self, r: Result<Vec<u8>, VclError>) -> (next: (TcpDnsAsync, Step<Vec<u8>>))
        ensures
            (next.0@, bytes_step(next.1)) == self@.over(
                match r {
                    Ok(bytes) => Ok(bytes@),
                    Err(e) => Err(e@),
                },
            ),
    {
        self.end(Step::Close(Close::Stream, r))
    }

    fn fail(self, e: VclError) -> (next: (TcpDnsAsync, Step<Vec<u8>>))
        ensures
            (next.0@, bytes_step(next.1)) == self@.failed(e@),
    {
        self.end(Step::Done(Err(e)))
    }

    /// Begins a query that tries the source ports `ports`, where the plan binds
    /// one.
    pub fn start(
        peer: SocketAddr,
        plan: BindPlan,
        ports: [u16; 8],
        query: &[u8],
        timeout: u128,
    ) -> (r: (TcpDnsAsync, Step<Vec<u8>>))
        ensures
            (r.0@, bytes_step(r.1)) == async_start(peer, plan@, ports, query@, timeout),
            r.0@.wf(),
    {
        let q = TcpDnsAsync {
            peer,
            timeout,
            query: slice_to_vec(query),
            out: Vec::new(),
            phase: AsyncPhase::Connecting,
        };
        assert(q@.out =~= Seq::<u8>::empty());
        match plan {
            BindPlan::Skip => q.enter(
                AsyncPhase::Connecting,
                Op::ConnectStream { peer, source: None, timeout },
            ),
            BindPlan::Bind(ip) => q.enter(AsyncPhase::Stamping { ip, ports }, Op::ReadClock),
            BindPlan::Refuse(e) => q.fail(e),
        }
    }

    /// The bytes to write.
    pub fn outgoing(&self) -> (bytes: &[u8])
        ensures
            bytes@ == self@.outgoing(),
    {
        match self.phase {
            AsyncPhase::Writing => self.out.as_slice(),
            _ => {
                let bytes = slice_subrange(self.out.as_slice(), 0, 0);
                assert(bytes@ =~= Seq::<u8>::empty());
                bytes
            },
        }
    }

    fn connected(self) -> (next: (TcpDnsAsync, Step<Vec<u8>>))
        ensures
            (next.0@, bytes_step(next.1)) == async_connected(self@),
            next.0@.wf(),
    {
        match frame_tcp_dns_query(self.query.as_slice()) {
            Ok(out) => (
                TcpDnsAsync { out, phase: AsyncPhase::Writing, ..self },
                Step::Do(Op::WriteAll),
            ),
            Err(e) => self.finish(Err(e)),
        }
    }

    fn announced(self, prefix: Vec<u8>) -> (next: (TcpDnsAsync, Step<Vec<u8>>))
        requires
            self@.phase is ReadingLen,
            prefix@.len() == 2,
        ensures
            (next.0@, bytes_step(next.1)) == async_next(self@, Event::Bytes(Ok(prefix@))),
            next.0@.wf(),
    {
        assert([prefix@[0], prefix@[1]]@ =~= prefix@);
        match decode_tcp_dns_len([prefix[0], prefix[1]]) {
            Ok(len) => self.enter(AsyncPhase::ReadingBody { len }, Op::ReadExact { len }),
            Err(e) => self.finish(Err(e)),
        }
    }

    /// Moves the query on by one event.
    pub fn step(self, event: Event) -> (next: (TcpDnsAsync, Step<Vec<u8>>))
        requires
            self@.wf(),
            self@.fits(event@),
        ensures
            (next.0@, bytes_step(next.1)) == async_next(self@, event@),
            next.0@.wf(),
    {
        match (self.phase, event) {
            (AsyncPhase::Stamping { ip, ports }, Event::Clock(started)) => self.enter(
                AsyncPhase::Budgeting { ip, ports, started, tried: 0 },
                Op::ReadClock,
            ),
            (AsyncPhase::Budgeting { ip, ports, started, tried }, Event::Clock(now)) => {
                let timeout = remaining(self.timeout, started, now);
                if timeout == 0 {
                    self.fail(VclError::Timeout)
                } else {
                    let source = SocketAddr { ip, port: ports[tried] };
                    let peer = self.peer;
                    self.enter(
                        AsyncPhase::Trying { ip, ports, started, tried: tried + 1 },
                        Op::ConnectStream { peer, source: Some(source), timeout },
                    )
                }
            },
            (AsyncPhase::Trying { .. }, Event::Unit(Ok(()))) => self.connected(),
            (AsyncPhase::Trying { ip, ports, started, tried }, Event::Unit(Err(e))) => if tried
                >= 8 {
                self.fail(e)
            } else {
                self.enter(AsyncPhase::Budgeting { ip, ports, started, tried }, Op::ReadClock)
            },
            (AsyncPhase::Connecting, Event::Unit(Ok(()))) => self.connected(),
            (AsyncPhase::Connecting, Event::Unit(Err(e))) => self.fail(e),
            (AsyncPhase::Writing, Event::Unit(Ok(()))) => self.enter(
                AsyncPhase::ReadingLen,
                Op::ReadExact { len: 2 },
            ),
            (AsyncPhase::Writing, Event::Unit(Err(e))) => self.finish(Err(e)),
            (AsyncPhase::ReadingLen, Event::Bytes(Ok(prefix))) => self.announced(prefix),
            (AsyncPhase::ReadingBody { .. }, Event::Bytes(Ok(body))) => self.finish(Ok(body)),
            (AsyncPhase::ReadingLen, Event::Bytes(Err(e))) => self.finish(Err(e)),
            (AsyncPhase::ReadingBody { .. }, Event::Bytes(Err(e))) => self.finish(Err(e)),
            _ => (self, Step::Ignored),
        }
    }
}

/// All of the ports lie in the ephemeral range.
pub open spec fn all_ephemeral(ports: [u16; 8]) -> bool {
    forall|i: int| 0 <= i < 8 ==> is_ephemeral(#[trigger] ports@[i])
}

/// Begins a DNS query over TCP: connects a stream to `peer`, sends `query` with
/// its length before it, and reads the response. The result is the DNS message
/// without the prefix.
///
/// With a `source`, connections are tried from up to eight ephemeral ports of it,
/// in the time that `timeout`, in nanoseconds, leaves. The texts are how the
/// addresses are written in a message. The ports are drawn before anything else,
/// and [`TcpDnsAsync::start`] says what follows for each choice of them.
pub fn query_tcp_dns_async(
    peer: SocketAddr,
    peer_text: &str,
    source: Option<(IpAddr, &str)>,
    query: &[u8],
    timeout: u128,
) -> (r: (TcpDnsAsync, Step<Vec<u8>>))
    ensures
        exists|ports: [u16; 8]|
            #![trigger all_ephemeral(ports)]
            all_ephemeral(ports) && (r.0@, bytes_step(r.1)) == async_start(
                peer,
                tcp_source_plan(labelled(source), peer, peer_text@),
                ports,
                query@,
                timeout,
            ),
        r.0@.wf(),
{
    let plan = plan_tcp_source(source, peer, peer_text);
    let ports = ephemeral_ports();
    assert(all_ephemeral(ports));
    TcpDnsAsync::start(peer, plan, ports, query, timeout)
}

/// The query after a sequence of events.
pub open spec fn async_run(s: AsyncView, events: Seq<EventView>) -> AsyncView
    decreases events.len(),
{
    if events.len() == 0 {
        s
    } else {
        async_next(async_run(s, events.drop_last()), events.last()).0
    }
}

/// Every read in the sequence returned as many bytes as were asked for.
pub open spec fn async_run_fits(s: AsyncView, events: Seq<EventView>) -> bool
    decreases events.len(),
{
    events.len() > 0 ==> {
        &&& async_run_fits(s, events.drop_last())
        &&& async_run(s, events.drop_last()).fits(events.last())
    }
}

/// All the bytes that were written, in order.
pub open spec fn async_written(s: AsyncView, events: Seq<EventView>) -> Seq<u8>
    decreases events.len(),
{
    if events.len() == 0 {
        Seq::empty()
    } else {
        async_written(s, events.drop_last()) + (match events.last() {
            Event::Unit(Ok(_)) => async_run(s, events.drop_last()).outgoing(),
            _ => Seq::empty(),
        })
    }
}

/// All the bytes that were read, in order.
pub open spec fn async_read(s: AsyncView, events: Seq<EventView>) -> Seq<u8>
    decreases events.len(),
{
    if events.len() == 0 {
        Seq::empty()
    } else {
        async_read(s, events.drop_last()) + (match (
            async_run(s, events.drop_last()).phase,
            events.last(),
        ) {
            (AsyncPhase::ReadingLen, Event::Bytes(Ok(bytes))) => bytes,
            (AsyncPhase::ReadingBody { .. }, Event::Bytes(Ok(bytes))) => bytes,
            _ => Seq::empty(),
        })
    }
}

/// How the state of a query for `query` relates to the bytes exchanged so far.
spec fn async_tells(query: Seq<u8>, s: AsyncView, sent: Seq<u8>, received: Seq<u8>) -> bool {
    match s.phase {
        AsyncPhase::Finished => query.len() > 65535 ==> sent.len() == 0,
        AsyncPhase::Writing => {
            &&& query.len() <= 65535 && s.out == framed(query)
            &&& sent.len() == 0 && received.len() == 0
        },
        AsyncPhase::ReadingLen => {
            &&& query.len() <= 65535
            &&& sent == framed(query) && received.len() == 0
        },
        AsyncPhase::ReadingBody { len } => {
            &&& query.len() <= 65535
            &&& sent == framed(query) && 1 <= len <= 65535 && received == be16(len as u16)
        },
        _ => sent.len() == 0 && received.len() == 0 && s.query == query,
    }
}

proof fn async_tells_run(
    peer: SocketAddr,
    plan: BindPlan<Seq<char>>,
    ports: [u16; 8],
    query: Seq<u8>,
    timeout: u128,
    events: Seq<EventView>,
)
    requires
        async_run_fits(async_start(peer, plan, ports, query, timeout).0, events),
    ensures
        ({
            let s = async_start(peer, plan, ports, query, timeout).0;
            &&& async_run(s, events).wf()
            &&& async_tells(
                query,
                async_run(s, events),
                async_written(s, events),
                async_read(s, events),
            )
            &&& events.len() > 0 ==> (result_of(
                async_next(async_run(s, events.drop_last()), events.last()).1,
            ) matches Some(Ok(response)) ==> {
                &&& query.len() <= 65535
                &&& 1 <= response.len() <= 65535
                &&& async_written(s, events) == framed(query)
                &&& async_read(s, events) == framed(response)
            })
        }),
    decreases events.len(),
{
    let s = async_start(peer, plan, ports, query, timeout).0;
    if events.len() > 0 {
        let before = events.drop_last();
        let event = events.last();
        async_tells_run(peer, plan, ports, query, timeout, before);
        let q = async_run(s, before);
        let sent = async_written(s, before);
        let received = async_read(s, before);
        match (q.phase, event) {
            (AsyncPhase::Writing, Event::Unit(Ok(_))) => {
                assert(sent + q.out =~= q.out);
                assert(async_read(s, events) =~= received);
            },
            (AsyncPhase::ReadingLen, Event::Bytes(Ok(prefix))) => {
                assert(prefix =~= seq![prefix[0], prefix[1]]);
                only_the_zero_prefix_is_refused(prefix[0], prefix[1]);
                assert(received + prefix =~= prefix);
                assert(async_written(s, events) =~= sent);
            },
            (AsyncPhase::ReadingBody { len }, Event::Bytes(Ok(body))) => {
                assert(received + body =~= framed(body));
                assert(async_written(s, events) =~= sent);
            },
            _ => {
                assert(async_written(s, events) =~= sent);
                assert(async_read(s, events) =~= received);
            },
        }
    }
}

/// What a query answers is what was asked and what came back: whenever it ends
/// with a response, the bytes that were written are the query behind its two-octet
/// length, and the bytes that were read are the response behind its two-octet
/// length. The response is not empty, and the query was not cut.
pub proof fn async_exchange_is_faithful(
    peer: SocketAddr,
    plan: BindPlan<Seq<char>>,
    ports: [u16; 8],
    query: Seq<u8>,
    timeout: u128,
    events: Seq<EventView>,
    last: EventView,
    response: Seq<u8>,
)
    requires
        async_run_fits(async_start(peer, plan, ports, query, timeout).0, events.push(last)),
        result_of(
            async_next(
                async_run(async_start(peer, plan, ports, query, timeout).0, events),
                last,
            ).1,
        ) == Some(Ok::<Seq<u8>, VclError<Seq<char>>>(response)),
    ensures
        query.len() <= 65535,
        1 <= response.len() <= 65535,
        async_written(async_start(peer, plan, ports, query, timeout).0, events.push(last))
            == framed(query),
        async_read(async_start(peer, plan, ports, query, timeout).0, events.push(last))
            == framed(response),
{
    assert(events.push(last).drop_last() =~= events);
    async_tells_run(peer, plan, ports, query, timeout, events.push(last));
}

/// A query longer than its length prefix can announce is refused before a single
/// byte is written, whatever happens.
pub proof fn oversized_async_query_writes_nothing(
    peer: SocketAddr,
    plan: BindPlan<Seq<char>>,
    ports: [u16; 8],
    query: Seq<u8>,
    timeout: u128,
    events: Seq<EventView>,
)
    requires
        query.len() > 65535,
        async_run_fits(async_start(peer, plan, ports, query, timeout).0, events),
    ensures
        async_written(async_start(peer, plan, ports, query, timeout).0, events).len() == 0,
        async_run(async_start(peer, plan, ports, query, timeout).0, events).outgoing().len() == 0,
{
    async_tells_run(peer, plan, ports, query, timeout, events);
}

/// A connection that a query tries: whom to, where from, and for how long.
pub struct Attempt {
    pub peer: SocketAddr,
    pub source: Option<SocketAddr>,
    pub timeout: u128,
}

/// The connections that a query tries from its first step through a sequence of
/// events, in order.
pub open spec fn connections(start: (AsyncView, BytesStep), events: Seq<EventView>) -> Seq<Attempt>
    decreases events.len(),
{
    let (before, step) = if events.len() == 0 {
        (Seq::empty(), start.1)
    } else {
        (
            connections(start, events.drop_last()),
            async_next(async_run(start.0, events.drop_last()), events.last()).1,
        )
    };
    match step {
        Step::Do(Op::ConnectStream { peer, source, timeout }) => before.push(
            Attempt { peer, source, timeout },
        ),
        _ => before,
    }
}

/// A query with a source tries no more than eight connections, all of them to its
/// peer and one from each port in turn, and gives each some of its time and never
/// more than all of it.
pub proof fn connections_are_bounded(
    peer: SocketAddr,
    ip: IpAddr,
    ports: [u16; 8],
    query: Seq<u8>,
    timeout: u128,
    events: Seq<EventView>,
)
    ensures
        ({
            let start = async_start(peer, BindPlan::Bind(ip), ports, query, timeout);
            let tries = connections(start, events);
            let now = async_run(start.0, events);
            &&& tries.len() <= 8
            &&& forall|i: int|
                0 <= i < tries.len() ==> {
                    &&& (#[trigger] tries[i]).peer == peer
                    &&& tries[i].source == Some(SocketAddr { ip, port: ports@[i] })
                    &&& 0 < tries[i].timeout <= timeout
                }
            &&& match now.phase {
                AsyncPhase::Stamping { ip: at, ports: p } => at == ip && p == ports && tries.len()
                    == 0,
                AsyncPhase::Budgeting { ip: at, ports: p, tried, .. } => at == ip && p == ports
                    && tries.len() == tried < 8,
                AsyncPhase::Trying { ip: at, ports: p, tried, .. } => at == ip && p == ports
                    && tries.len() == tried <= 8,
                AsyncPhase::Connecting => false,
                _ => true,
            }
            &&& now.timeout == timeout && now.peer == peer
        }),
    decreases events.len(),
{
    if events.len() > 0 {
        connections_are_bounded(peer, ip, ports, query, timeout, events.drop_last());
    }
}

/// A query without a source tries one connection, to its peer, from wherever VPP
/// picks and with all of its time.
pub proof fn unsourced_query_connects_once(
    peer: SocketAddr,
    ports: [u16; 8],
    query: Seq<u8>,
    timeout: u128,
    events: Seq<EventView>,
)
    ensures
        connections(async_start(peer, BindPlan::Skip, ports, query, timeout), events) == seq![
            Attempt { peer, source: None, timeout },
        ],
{
    unsourced_phases(peer, ports, query, timeout, events);
}

proof fn unsourced_phases(
    peer: SocketAddr,
    ports: [u16; 8],
    query: Seq<u8>,
    timeout: u128,
    events: Seq<EventView>,
)
    ensures
        ({
            let start = async_start(peer, BindPlan::Skip, ports, query, timeout);
            let phase = async_run(start.0, events).phase;
            &&& connections(start, events) =~= seq![Attempt { peer, source: None, timeout }]
            &&& !(phase is Stamping) && !(phase is Budgeting) && !(phase is Trying)
        }),
    decreases events.len(),
{
    if events.len() > 0 {
        unsourced_phases(peer, ports, query, timeout, events.drop_last());
    }
}

/// Whether the stream of a query is connected.
pub open spec fn stream_open(s: AsyncView) -> bool {
    match s.phase {
        AsyncPhase::Writing => true,
        AsyncPhase::ReadingLen => true,
        AsyncPhase::ReadingBody { .. } => true,
        _ => false,
    }
}

/// A query closes its stream, on every way out: it ends with nothing to close only
/// where no connection was made, and otherwise with the stream; and it keeps the
/// stream until it ends.
pub proof fn async_query_closes_its_stream(s: AsyncView, event: EventView)
    ensures
        async_next(s, event).1 matches Step::Done(_) ==> !stream_open(s) && !succeeded(event),
        async_next(s, event).1 matches Step::Close(close, _) ==> close == Close::Stream && (
        stream_open(s) || succeeded(event)),
        stream_open(s) && result_of(async_next(s, event).1) is None ==> stream_open(
            async_next(s, event).0,
        ),
{
}

/// A source of another family than the peer's is refused before anything is done.
pub proof fn mismatched_source_opens_nothing(
    peer: SocketAddr,
    peer_text: Seq<char>,
    ip: IpAddr,
    text: Seq<char>,
    ports: [u16; 8],
    query: Seq<u8>,
    timeout: u128,
)
    requires
        ip is V4 != peer.ip is V4,
    ensures
        async_start(
            peer,
            tcp_source_plan(Some((ip, text)), peer, peer_text),
            ports,
            query,
            timeout,
        ).1 matches Step::Done(Err(_)),
{
}

// ---- what a query is for ----

/// A query with a source goes on to its next port while one is left: a connection that
/// failed is followed by a look at the clock, and, in the time that is left, by a
/// connection to the same peer from the next port. Once no time is left the query times
/// out, and once no port is left the last failure is its result.
pub proof fn failed_connection_is_followed_by_the_next(
    s: AsyncView,
    ip: IpAddr,
    ports: [u16; 8],
    started: u128,
    tried: usize,
    why: VclError<Seq<char>>,
    now: u128,
)
    requires
        s.phase == (AsyncPhase::Trying { ip, ports, started, tried }),
        1 <= tried <= 8,
        started <= now,
    ensures
        ({
            let (looking, look) = async_next(s, Event::Unit(Err(why)));
            let (next, step) = async_next(looking, Event::Clock(now));
            &&& tried == 8 ==> result_of(look) == Some(Err::<Seq<u8>, VclError<Seq<char>>>(why))
            &&& tried < 8 ==> look == BytesStep::Do(Op::ReadClock)
            &&& tried < 8 && now - started >= s.timeout ==> result_of(step) == Some(
                Err::<Seq<u8>, VclError<Seq<char>>>(VclError::Timeout),
            )
            &&& tried < 8 && now - started < s.timeout ==> {
                &&& step == BytesStep::Do(
                    Op::ConnectStream {
                        peer: s.peer,
                        source: Some(SocketAddr { ip, port: ports@[tried as int] }),
                        timeout: (s.timeout - (now - started)) as u128,
                    },
                )
                &&& next == s.at(
                    AsyncPhase::Trying { ip, ports, started, tried: (tried + 1) as usize },
                )
            }
        }),
{
}

/// The first connection of a query with a source is from its first port, in all of its
/// time where none has passed.
pub proof fn first_connection_is_from_the_first_port(
    s: AsyncView,
    ip: IpAddr,
    ports: [u16; 8],
    started: u128,
    now: u128,
)
    requires
        s.phase == (AsyncPhase::Stamping { ip, ports }),
        started <= now,
    ensures
        ({
            let (looking, look) = async_next(s, Event::Clock(started));
            let (next, step) = async_next(looking, Event::Clock(now));
            &&& look == BytesStep::Do(Op::ReadClock)
            &&& now - started < s.timeout ==> step == BytesStep::Do(
                Op::ConnectStream {
                    peer: s.peer,
                    source: Some(SocketAddr { ip, port: ports@[0] }),
                    timeout: (s.timeout - (now - started)) as u128,
                },
            ) && next == s.at(AsyncPhase::Trying { ip, ports, started, tried: 1 })
            &&& now - started >= s.timeout ==> result_of(step) == Some(
                Err::<Seq<u8>, VclError<Seq<char>>>(VclError::Timeout),
            )
        }),
{
}

/// Once a stream is connected the query is written behind its length, high octet first;
/// then two octets are read, then as many as they say, and those are the result.
pub proof fn connected_query_is_written_and_answered(
    s: AsyncView,
    prefix: Seq<u8>,
    body: Seq<u8>,
)
    requires
        s.phase is Connecting || s.phase is Trying,
        s.query.len() <= 65535,
        prefix.len() == 2,
    ensures
        ({
            let (writing, write) = async_next(s, Event::Unit(Ok(())));
            let (prefixing, first) = async_next(writing, Event::Unit(Ok(())));
            let (reading, second) = async_next(prefixing, Event::Bytes(Ok(prefix)));
            let (_, end) = async_next(reading, Event::Bytes(Ok(body)));
            let len = prefix[0] * 256 + prefix[1];
            &&& write == BytesStep::Do(Op::WriteAll)
            &&& writing.outgoing().len() == 2 + s.query.len() && writing.outgoing().skip(2)
                == s.query && writing.outgoing()[0] * 256 + writing.outgoing()[1] == s.query.len()
            &&& first == BytesStep::Do(Op::ReadExact { len: 2 })
            &&& len == 0 ==> (result_of(second) matches Some(Err(VclError::Api(why, rc))) && why
                == "zero-length DNS response"@ && rc == -1)
            &&& len > 0 ==> second == BytesStep::Do(Op::ReadExact { len: len as usize })
                && result_of(end) == Some(Ok::<Seq<u8>, VclError<Seq<char>>>(body))
        }),
{
    assert(framed(s.query).skip(2) =~= s.query);
}

/// A query fails exactly for a reason: with the failure of the step that it asked for, with
/// a timeout when no time is left, or with what is wrong with the request or the
/// response. A failed connection is its result only where no port is left to try.
pub proof fn async_query_fails_only_for_a_reason(
    s: AsyncView,
    event: EventView,
    e: VclError<Seq<char>>,
)
    requires
        s.fits(event),
    ensures
        result_of(async_next(s, event).1) == Some(Err::<Seq<u8>, VclError<Seq<char>>>(e))
            <==> match (s.phase, event) {
            (AsyncPhase::Budgeting { started, .. }, Event::Clock(now)) => e is Timeout && (now
                >= started + s.timeout || s.timeout == 0),
            (AsyncPhase::Trying { tried, .. }, Event::Unit(r)) => (r == Err::<
                (),
                VclError<Seq<char>>,
            >(e) && tried >= 8) || (r is Ok && s.query.len() > 65535 && e == failure(
                "DNS query longer than 65535 bytes"@,
            )),
            (AsyncPhase::Connecting, Event::Unit(r)) => r == Err::<(), VclError<Seq<char>>>(e) || (r
                is Ok && s.query.len() > 65535 && e == failure(
                "DNS query longer than 65535 bytes"@,
            )),
            (AsyncPhase::Writing, Event::Unit(r)) => r == Err::<(), VclError<Seq<char>>>(e),
            (AsyncPhase::ReadingLen, Event::Bytes(Ok(prefix))) => prefix[0] == 0 && prefix[1] == 0
                && e == failure("zero-length DNS response"@),
            (AsyncPhase::ReadingLen, Event::Bytes(Err(f))) => f == e,
            (AsyncPhase::ReadingBody { .. }, Event::Bytes(Err(f))) => f == e,
            _ => false,
        },
{
}

/// What answers nothing that the query asked for changes nothing, and that is so of just
/// those events; until it ends the query keeps whom it asks, what it asks and for how long.
pub proof fn async_query_keeps_its_inputs(s: AsyncView, event: EventView)
    ensures
        async_next(s, event).1 is Ignored ==> async_next(s, event).0 == s,
        async_next(s, event).1 is Ignored <==> match s.phase {
            AsyncPhase::Stamping { .. } => !(event is Clock),
            AsyncPhase::Budgeting { .. } => !(event is Clock),
            AsyncPhase::Trying { .. } => !(event is Unit),
            AsyncPhase::Connecting => !(event is Unit),
            AsyncPhase::Writing => !(event is Unit),
            AsyncPhase::ReadingLen => !(event is Bytes),
            AsyncPhase::ReadingBody { .. } => !(event is Bytes),
            AsyncPhase::Finished => true,
        },
        result_of(async_next(s, event).1) is None ==> async_next(s, event).0.peer == s.peer
            && async_next(s, event).0.query == s.query && async_next(s, event).0.timeout
            == s.timeout,
        async_next(s, event).1 matches Step::Do(Op::ConnectStream { peer, .. }) ==> peer == s.peer,
{
}

/// Where a query is connected from: over any events, each connection of a query with a
/// source of its peer's family is from that source, and the connection of one without a
/// source is from wherever VPP picks.
pub proof fn query_is_connected_from_its_source(
    peer: SocketAddr,
    peer_text: Seq<char>,
    source: Option<(IpAddr, Seq<char>)>,
    ports: [u16; 8],
    query: Seq<u8>,
    timeout: u128,
    events: Seq<EventView>,
    i: int,
)
    requires
        source matches Some((ip, _)) ==> ip is V4 == peer.ip is V4,
        0 <= i < connections(
            async_start(peer, tcp_source_plan(source, peer, peer_text), ports, query, timeout),
            events,
        ).len(),
    ensures
        ({
            let tries = connections(
                async_start(peer, tcp_source_plan(source, peer, peer_text), ports, query, timeout),
                events,
            );
            &&& tries[i].peer == peer
            &&& match source {
                Some((ip, _)) => tries[i].source == Some(SocketAddr { ip, port: ports@[i] }),
                None => tries[i].source is None,
            }
        }),
{
    match source {
        Some((ip, _)) => {
            connections_are_bounded(peer, ip, ports, query, timeout, events);
        },
        None => {
            unsourced_query_connects_once(peer, ports, query, timeout, events);
        },
    }
}

/// A query begins with what it was asked for: without a source with a connection, in all
/// of its time; with one with a look at the clock; and a refused one is over.
pub proof fn async_query_begins(
    peer: SocketAddr,
    plan: BindPlan<Seq<char>>,
    ports: [u16; 8],
    query: Seq<u8>,
    timeout: u128,
)
    ensures
        ({
            let (s, step) = async_start(peer, plan, ports, query, timeout);
            &&& match plan {
                BindPlan::Skip => s.phase is Connecting && step == BytesStep::Do(
                    Op::ConnectStream { peer, source: None, timeout },
                ),
                BindPlan::Bind(ip) => s.phase == (AsyncPhase::Stamping { ip, ports }) && step
                    == BytesStep::Do(Op::ReadClock),
                BindPlan::Refuse(e) => s.phase is Finished && step == BytesStep::Done(Err(e)),
            }
            &&& s.peer == peer && s.timeout == timeout
            &&& !(plan is Refuse) ==> s.query == query
        }),
{
}

/// In a contract a query stands as it is, with its bytes by their views.
pub proof fn async_queries_are_seen_as_they_are(q: TcpDnsAsync)
    ensures
        q@.peer == q.peer && q@.timeout == q.timeout,
        q@.query == q.query@ && q@.out == q.out@,
        q@.phase == q.phase,
{
}

} // verus!
