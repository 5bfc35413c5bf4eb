//! Binding sessions that others send or connect to.
//!
//! VPP confirms or rejects a bind asynchronously, by a message that closes the
//! session when the bind is rejected. So the message queue is processed after a
//! bind until an event comes or a while has passed, and the session's local address
//! is held against the requested one: a rejected bind becomes an error at once.

use vstd::prelude::*;

use crate::addr::SocketAddr;
use crate::error::VclError;
#[allow(unused_imports)]
use crate::error::{call_failure, failure};
#[allow(unused_imports)]
use crate::ffi::sessions_are_watched_for_changes;
use crate::ffi::BIND_EVENTS;
use crate::ops::{deadline, Close, Event, Op, Step, Target};
#[allow(unused_imports)]
use crate::ops::{deadline_after, plain_step, result_of, succeeded, EventView, UnitStep};
#[allow(unused_imports)]
use crate::text::signed_decimal;

verus! {

/// For how many nanoseconds, at most, the message queue is processed after a bind.
pub const CONFIRM_NANOS: u128 = 200_000_000;

/// How many events one wait takes from the message queue.
pub const CONFIRM_EVENTS: u32 = 8;

/// How long one wait on the message queue lasts.
pub const CONFIRM_WAIT_MS: u32 = 30;

/// How far the confirmation of a bind has come.
#[derive(Debug, Clone, Copy)]
pub enum VerifyPhase {
    CreatingEpoll,
    AddingToEpoll,
    /// The session could not be watched; the epoll set is being closed.
    Abandoning { rc: i32 },
    Stamping,
    Watching { deadline: u128 },
    Draining { deadline: u128 },
    Closing,
    Confirming,
    Finished,
}

/// The confirmation of a bind.
#[derive(Debug)]
pub struct VerifyBind<S = String> {
    pub requested: SocketAddr,
    /// How the requested address is written in a message.
    pub requested_text: S,
    pub phase: VerifyPhase,
}

/// A confirmation in the terms of contracts.
pub type VerifyView = VerifyBind<Seq<char>>;

impl View for VerifyBind {
    type V = VerifyView;

    open spec fn view(&self) -> VerifyView {
        VerifyBind {
            requested: self.requested,
            requested_text: self.requested_text@,
            phase: self.phase,
        }
    }
}

/// The failure when the session is gone after the bind.
pub open spec fn bind_rejected(requested: Seq<char>, reason: Seq<char>) -> VclError<Seq<char>> {
    failure(
        "VPP rejected bind on "@ + requested + ": "@ + reason
            + " (port-in-use is the common cause; libvppcom logs the specific reason)"@,
    )
}

/// The failure when the session is bound to another port.
pub open spec fn bind_moved(actual: Seq<char>, requested: Seq<char>) -> VclError<Seq<char>> {
    failure(
        "VPP bound "@ + actual + " but we asked for "@ + requested
            + " (port mismatch — likely VPP picked a different port because the requested one was unavailable)"@,
    )
}

impl VerifyBind<Seq<char>> {
    /// The same confirmation in another phase, with what it does there.
    pub open spec fn doing(self, phase: VerifyPhase, op: Op) -> (VerifyView, UnitStep) {
        (VerifyBind { phase, ..self }, Step::Do(op))
    }

    /// The confirmation is over with this result.
    pub open spec fn over(self, r: Result<(), VclError<Seq<char>>>) -> (VerifyView, UnitStep) {
        (VerifyBind { phase: VerifyPhase::Finished, ..self }, Step::Done(r))
    }

    /// The verdict on what the session says its local address is.
    pub open spec fn verdict(
        self,
        answer: Result<(SocketAddr, Seq<char>), Seq<char>>,
    ) -> Result<(), VclError<Seq<char>>> {
        match answer {
            Err(reason) => Err(bind_rejected(self.requested_text, reason)),
            Ok((actual, text)) => if actual.port != self.requested.port {
                Err(bind_moved(text, self.requested_text))
            } else {
                Ok(())
            },
        }
    }
}

/// The confirmation and its step after an event.
///
/// The message queue is processed until a wait brings an event or the deadline has
/// passed, so that a bind that VPP answers costs no time beyond the answer's.
pub open spec fn verify_next(s: VerifyView, event: EventView) -> (VerifyView, UnitStep) {
    match (s.phase, event) {
        (VerifyPhase::CreatingEpoll, Event::Code(rc)) => if rc < 0 {
            s.over(Err(call_failure("vppcom_epoll_create: "@, rc)))
        } else {
            s.doing(VerifyPhase::AddingToEpoll, Op::AddToEpoll { events: BIND_EVENTS })
        },
        (VerifyPhase::AddingToEpoll, Event::Code(rc)) => if rc < 0 {
            s.doing(VerifyPhase::Abandoning { rc }, Op::CloseEpoll)
        } else {
            s.doing(VerifyPhase::Stamping, Op::ReadClock)
        },
        (VerifyPhase::Abandoning { rc }, Event::Elapsed) => s.over(
            Err(call_failure("vppcom_epoll_ctl ADD: "@, rc)),
        ),
        (VerifyPhase::Stamping, Event::Clock(now)) => s.doing(
            VerifyPhase::Watching { deadline: deadline_after(now, CONFIRM_NANOS) },
            Op::ReadClock,
        ),
        (VerifyPhase::Watching { deadline }, Event::Clock(now)) => if now < deadline {
            s.doing(
                VerifyPhase::Draining { deadline },
                Op::WaitEpoll { max_events: CONFIRM_EVENTS, wait_ms: CONFIRM_WAIT_MS },
            )
        } else {
            s.doing(VerifyPhase::Closing, Op::CloseEpoll)
        },
        (VerifyPhase::Draining { deadline }, Event::Code(n)) => if n > 0 {
            s.doing(VerifyPhase::Closing, Op::CloseEpoll)
        } else {
            s.doing(VerifyPhase::Watching { deadline }, Op::ReadClock)
        },
        (VerifyPhase::Closing, Event::Elapsed) => s.doing(
            VerifyPhase::Confirming,
            Op::ConfirmAddr,
        ),
        (VerifyPhase::Confirming, Event::Confirmed(answer)) => s.over(s.verdict(answer)),
        _ => (s, Step::Ignored),
    }
}

/// Begins confirming that a session is bound to `requested`. The text is how the
/// address is written in a message.
pub fn verify_bind_or_err(requested: SocketAddr, requested_text: &str) -> (r: (
    VerifyBind,
    Step<()>,
))
    ensures
        r.0@ == (VerifyBind {
            requested,
            requested_text: requested_text@,
            phase: VerifyPhase::CreatingEpoll,
        }),
        plain_step(r.1) == UnitStep::Do(Op::CreateEpoll),
{
    (
        VerifyBind {
            requested,
            requested_text: requested_text.to_owned(),
            phase: VerifyPhase::CreatingEpoll,
        },
        Step::Do(Op::CreateEpoll),
    )
}

impl VerifyBind {
    fn enter(self, phase: VerifyPhase, op: Op) -> (next: (VerifyBind, Step<()>))
        ensures
            (next.0@, plain_step(next.1)) == self@.doing(phase, op),
    {
        (VerifyBind { phase, ..self }, Step::Do(op))
    }

    fn finish(self, r: Result<(), VclError>) -> (next: (VerifyBind, Step<()>))
        ensures
            (next.0@, plain_step(next.1)) == self@.over(
                match r {
                    Ok(()) => Ok(()),
                    Err(e) => Err(e@),
                },
            ),
    {
        (VerifyBind { phase: VerifyPhase::Finished, ..self }, Step::Done(r))
    }

    fn judge(&self, answer: Result<(SocketAddr, String), String>) -> (r: Result<(), VclError>)
        ensures
            match r {
                Ok(()) => Ok(()),
                Err(e) => Err(e@),
            } == self@.verdict(
                match answer {
                    Ok((addr, text)) => Ok((addr, text@)),
                    Err(text) => Err(text@),
                },
            ),
    {
        match answer {
            Err(reason) => {
                let mut message: String = "VPP rejected bind on ".to_owned();
                message.append(self.requested_text.as_str());
                message.append(": ");
                message.append(reason.as_str());
                message.append(
                    " (port-in-use is the common cause; libvppcom logs the specific reason)",
                );
                Err(VclError::failure(message.as_str()))
            },
            Ok((actual, text)) => {
                if actual.port != self.requested.port {
                    let mut message: String = "VPP bound ".to_owned();
                    message.append(text.as_str());
                    message.append(" but we asked for ");
                    message.append(self.requested_text.as_str());
                    message.append(
                        " (port mismatch — likely VPP picked a different port because the requested one was unavailable)",
                    );
                    Err(VclError::failure(message.as_str()))
                } else {
                    Ok(())
                }
            },
        }
    }

    /// Moves the confirmation on by one event.
    pub fn step(self, event: Event) -> (next: (VerifyBind, Step<()>))
        ensures
            (next.0@, plain_step(next.1)) == verify_next(self@, event@),
    {
        match (self.phase, event) {
            (VerifyPhase::CreatingEpoll, Event::Code(rc)) => if rc < 0 {
                self.finish(Err(VclError::call_failure("vppcom_epoll_create: ", rc)))
            } else {
                self.enter(VerifyPhase::AddingToEpoll, Op::AddToEpoll { events: BIND_EVENTS })
            },
            (VerifyPhase::AddingToEpoll, Event::Code(rc)) => if rc < 0 {
                self.enter(VerifyPhase::Abandoning { rc }, Op::CloseEpoll)
            } else {
                self.enter(VerifyPhase::Stamping, Op::ReadClock)
            },
            (VerifyPhase::Abandoning { rc }, Event::Elapsed) => self.finish(
                Err(VclError::call_failure("vppcom_epoll_ctl ADD: ", rc)),
            ),
            (VerifyPhase::Stamping, Event::Clock(now)) => self.enter(
                VerifyPhase::Watching { deadline: deadline(now, CONFIRM_NANOS) },
                Op::ReadClock,
            ),
            (VerifyPhase::Watching { deadline }, Event::Clock(now)) => if now < deadline {
                self.enter(
                    VerifyPhase::Draining { deadline },
                    Op::WaitEpoll { max_events: CONFIRM_EVENTS, wait_ms: CONFIRM_WAIT_MS },
                )
            } else {
                self.enter(VerifyPhase::Closing, Op::CloseEpoll)
            },
            (VerifyPhase::Draining { deadline }, Event::Code(n)) => if n > 0 {
                self.enter(VerifyPhase::Closing, Op::CloseEpoll)
            } else {
                self.enter(VerifyPhase::Watching { deadline }, Op::ReadClock)
            },
            (VerifyPhase::Closing, Event::Elapsed) => self.enter(
                VerifyPhase::Confirming,
                Op::ConfirmAddr,
            ),
            (VerifyPhase::Confirming, Event::Confirmed(answer)) => {
                let verdict = self.judge(answer);
                self.finish(verdict)
            },
            _ => (self, Step::Ignored),
        }
    }
}

/// A bind is confirmed exactly when the session still has a local address and
/// its port is the requested one.
pub proof fn confirmed_exactly_when_bound_as_requested(
    s: VerifyView,
    answer: Result<(SocketAddr, Seq<char>), Seq<char>>,
)
    requires
        s.phase is Confirming,
    ensures
        (verify_next(s, Event::Confirmed(answer)).1 matches Step::Done(Ok(_))) <==> (answer matches Ok(
            bound,
        ) && bound.0.port == s.requested.port),
        verify_next(s, Event::Confirmed(answer)).1 is Done,
{
}

/// Whether the epoll set of a confirmation is open.
pub open spec fn epoll_open(phase: VerifyPhase) -> bool {
    match phase {
        VerifyPhase::AddingToEpoll => true,
        VerifyPhase::Stamping => true,
        VerifyPhase::Watching { .. } => true,
        VerifyPhase::Draining { .. } => true,
        _ => false,
    }
}

/// The epoll set is closed on every way out: a confirmation ends only with the
/// set closed or never opened, and the only step by which an open set is left
/// is the one that closes it.
pub proof fn epoll_set_is_closed(s: VerifyView, event: EventView)
    ensures
        verify_next(s, event).1 is Done ==> !epoll_open(s.phase),
        epoll_open(s.phase) && !epoll_open(verify_next(s, event).0.phase) ==> verify_next(
            s,
            event,
        ).1 == UnitStep::Do(Op::CloseEpoll),
        verify_next(s, event).1 == UnitStep::Do(Op::CloseEpoll) ==> epoll_open(s.phase),
{
}

/// The local address is asked for as soon as the message queue has brought an
/// event, and otherwise once the deadline has passed; another wait begins only
/// before the deadline and while no event has come.
pub proof fn queue_is_drained_until_an_event_or_the_deadline(s: VerifyView, event: EventView)
    ensures
        verify_next(s, event).1 == UnitStep::Do(Op::ConfirmAddr) ==> s.phase is Closing,
        verify_next(s, event).0.phase is Closing && !(s.phase is Closing) ==> match s.phase {
            VerifyPhase::Draining { .. } => event matches Event::Code(n) && n > 0,
            VerifyPhase::Watching { deadline } => event matches Event::Clock(now) && now
                >= deadline,
            _ => false,
        },
        s.phase is Draining && (event matches Event::Code(n) && n > 0) ==> verify_next(
            s,
            event,
        ).0.phase is Closing,
        (s.phase matches VerifyPhase::Watching { deadline } && event matches Event::Clock(now)
            && now >= deadline) ==> verify_next(s, event).0.phase is Closing,
        verify_next(s, event).1 matches Step::Do(Op::WaitEpoll { .. }) ==> (s.phase matches
            VerifyPhase::Watching { deadline } && event matches Event::Clock(now) && now
            < deadline),
{
}

// ---- opening, binding and registering ----

/// How far the binding of a server session has come.
#[derive(Debug, Clone, Copy)]
pub enum ServerPhase {
    Creating,
    Binding,
    Listening,
    Verifying,
    Registering,
    Finished,
}

/// Opening a session that others send or connect to.
#[derive(Debug)]
pub struct ServerBind<S = String> {
    pub backlog: u32,
    /// The confirmation, with the requested address.
    pub verify: VerifyBind<S>,
    pub phase: ServerPhase,
}

/// The opening of a server session in the terms of contracts.
pub type ServerView = ServerBind<Seq<char>>;

impl View for ServerBind {
    type V = ServerView;

    open spec fn view(&self) -> ServerView {
        ServerBind { backlog: self.backlog, verify: self.verify@, phase: self.phase }
    }
}

impl ServerBind<Seq<char>> {
    /// The same opening in another phase, with what it does there.
    pub open spec fn doing(self, phase: ServerPhase, op: Op) -> (ServerView, UnitStep) {
        (ServerBind { phase, ..self }, Step::Do(op))
    }

    /// The opening once it is over.
    pub open spec fn ended(self) -> ServerView {
        ServerBind { phase: ServerPhase::Finished, ..self }
    }

    /// The opening failed, and closes its session.
    pub open spec fn failed(self, e: VclError<Seq<char>>) -> (ServerView, UnitStep) {
        (self.ended(), Step::Close(Close::Session(Target::Own), Err(e)))
    }
}

/// The opening and its step after an event: create, bind, listen, confirm,
/// register; the first failure ends it and closes the session.
pub open spec fn server_next(s: ServerView, event: EventView) -> (ServerView, UnitStep) {
    match (s.phase, event) {
        (ServerPhase::Creating, Event::Unit(Ok(()))) => s.doing(
            ServerPhase::Binding,
            Op::Bind(s.verify.requested),
        ),
        (ServerPhase::Binding, Event::Unit(Ok(()))) => s.doing(
            ServerPhase::Listening,
            Op::Listen { backlog: s.backlog },
        ),
        (ServerPhase::Listening, Event::Unit(Ok(()))) => s.doing(
            ServerPhase::Verifying,
            Op::CreateEpoll,
        ),
        (ServerPhase::Verifying, _) => {
            let (verify, step) = verify_next(s.verify, event);
            match step {
                Step::Done(Ok(())) => ServerBind { verify, ..s }.doing(
                    ServerPhase::Registering,
                    Op::Register(Target::Own),
                ),
                Step::Done(Err(e)) => ServerBind { verify, ..s }.failed(e),
                Step::Do(op) => (ServerBind { verify, ..s }, Step::Do(op)),
                _ => (s, Step::Ignored),
            }
        },
        (ServerPhase::Registering, Event::Unit(Ok(_))) => (s.ended(), Step::Done(Ok(()))),
        (ServerPhase::Creating, Event::Unit(Err(e))) => (s.ended(), Step::Done(Err(e))),
        (ServerPhase::Finished, _) => (s, Step::Ignored),
        (_, Event::Unit(Err(e))) => s.failed(e),
        _ => (s, Step::Ignored),
    }
}

/// The opening of a server session that has not begun.
pub open spec fn server_start(backlog: u32, addr: SocketAddr, addr_text: Seq<char>) -> ServerView {
    ServerBind {
        backlog,
        verify: VerifyBind {
            requested: addr,
            requested_text: addr_text,
            phase: VerifyPhase::CreatingEpoll,
        },
        phase: ServerPhase::Creating,
    }
}

impl ServerBind {
    /// Begins opening a non-blocking session bound to `addr`. The text is how the
    /// address is written in a message.
    pub(crate) fn start(udp: bool, backlog: u32, addr: SocketAddr, addr_text: &str) -> (r: (
        ServerBind,
        Step<()>,
    ))
        ensures
            r.0@ == server_start(backlog, addr, addr_text@),
            plain_step(r.1) == UnitStep::Do(Op::Create { udp, nonblocking: true }),
    {
        let (verify, _) = verify_bind_or_err(addr, addr_text);
        (
            ServerBind { backlog, verify, phase: ServerPhase::Creating },
            Step::Do(Op::Create { udp, nonblocking: true }),
        )
    }

    fn enter(self, phase: ServerPhase, op: Op) -> (next: (ServerBind, Step<()>))
        ensures
            (next.0@, plain_step(next.1)) == self@.doing(phase, op),
    {
        (ServerBind { phase, ..self }, Step::Do(op))
    }

    fn end(self, step: Step<()>) -> (next: (ServerBind, Step<()>))
        ensures
            next.0@ == self@.ended(),
            next.1 == step,
    {
        (ServerBind { phase: ServerPhase::Finished, ..self }, step)
    }

    fn fail(self, e: VclError) -> (next: (ServerBind, Step<()>))
        ensures
            (next.0@, plain_step(next.1)) == self@.failed(e@),
    {
        self.end(Step::Close(Close::Session(Target::Own), Err(e)))
    }

    fn verifying_step(self, event: Event) -> (next: (ServerBind, Step<()>))
        requires
            self@.phase is Verifying,
        ensures
            (next.0@, plain_step(next.1)) == server_next(self@, event@),
    {
        let ServerBind { backlog, verify, phase } = self;
        let (verify, step) = verify.step(event);
        let s = ServerBind { backlog, verify, phase };
        match step {
            Step::Done(Ok(())) => s.enter(
                ServerPhase::Registering,
                Op::Register(Target::Own),
            ),
            Step::Done(Err(e)) => s.fail(e),
            Step::Do(op) => (s, Step::Do(op)),
            _ => (s, Step::Ignored),
        }
    }

    /// Moves the opening on by one event.
    pub fn step(self, event: Event) -> (next: (ServerBind, Step<()>))
        ensures
            (next.0@, plain_step(next.1)) == server_next(self@, event@),
    {
        match self.phase {
            ServerPhase::Creating => match event {
                Event::Unit(Ok(())) => {
                    let addr = self.verify.requested;
                    self.enter(ServerPhase::Binding, Op::Bind(addr))
                },
                Event::Unit(Err(e)) => self.end(Step::Done(Err(e))),
                _ => (self, Step::Ignored),
            },
            ServerPhase::Binding => match event {
                Event::Unit(Ok(())) => {
                    let backlog = self.backlog;
                    self.enter(ServerPhase::Listening, Op::Listen { backlog })
                },
                Event::Unit(Err(e)) => self.fail(e),
                _ => (self, Step::Ignored),
            },
            ServerPhase::Listening => match event {
                Event::Unit(Ok(())) => self.enter(ServerPhase::Verifying, Op::CreateEpoll),
                Event::Unit(Err(e)) => self.fail(e),
                _ => (self, Step::Ignored),
            },
            ServerPhase::Verifying => self.verifying_step(event),
            ServerPhase::Registering => match event {
                Event::Unit(Ok(())) => self.end(Step::Done(Ok(()))),
                Event::Unit(Err(e)) => self.fail(e),
                _ => (self, Step::Ignored),
            },
            ServerPhase::Finished => (self, Step::Ignored),
        }
    }
}

/// A server session is handed out only when VPP has confirmed its bind: the
/// session is registered only after a local address with the requested port came
/// back, and opening succeeds only after it is registered.
pub proof fn server_is_confirmed_before_use(s: ServerView, event: EventView)
    ensures
        server_next(s, event).1 == UnitStep::Do(Op::Register(Target::Own)) ==> {
            &&& s.phase is Verifying && s.verify.phase is Confirming
            &&& event matches Event::Confirmed(Ok(bound)) && bound.0.port
                == s.verify.requested.port
        },
        server_next(s, event).1 matches Step::Done(Ok(_)) ==> s.phase is Registering,
        server_next(s, event).0.phase is Registering && !(s.phase is Registering) ==> server_next(
            s,
            event,
        ).1 == UnitStep::Do(Op::Register(Target::Own)),
{
}

/// An opening that fails closes its session: it ends with nothing to close only
/// where it succeeds, and the session is handed out, or where the session could not
/// be opened. The epoll set of the confirmation is closed by then.
pub proof fn failed_server_closes_its_session(s: ServerView, event: EventView)
    ensures
        server_next(s, event).1 matches Step::Close(close, r) ==> close == Close::Session(
            Target::Own,
        ) && r is Err && !(s.phase is Creating) && !(s.phase is Finished) && (s.phase
            is Verifying ==> !epoll_open(s.verify.phase)),
        server_next(s, event).1 matches Step::Done(Err(e)) ==> s.phase is Creating && event
            == EventView::Unit(Err(e)),
        server_next(s, event).1 matches Step::Done(Ok(_)) ==> s.phase is Registering,
{
}

// ---- what a confirmation is for ----

/// A confirmation that can be made is: the epoll set is opened, the session is put into it
/// for readable, writable and hang-up events on each change, the queue is processed for
/// 200 milliseconds at most, and once the set is closed the local address is asked for.
pub proof fn confirmation_goes_on_to_its_question(s: VerifyView, opened: i32, added: i32, now: u128)
    requires
        s.phase is CreatingEpoll,
        opened >= 0,
        added >= 0,
        now + 200_000_000 <= u128::MAX,
    ensures
        ({
            let (adding, add) = verify_next(s, Event::Code(opened));
            let (stamping, stamp) = verify_next(adding, Event::Code(added));
            let (watching, watch) = verify_next(stamping, Event::Clock(now));
            &&& add == UnitStep::Do(Op::AddToEpoll { events: 0x8000_2015 })
            &&& stamp == UnitStep::Do(Op::ReadClock)
            &&& watch == UnitStep::Do(Op::ReadClock)
            &&& watching == (VerifyBind {
                phase: VerifyPhase::Watching { deadline: (now + 200_000_000) as u128 },
                ..s
            })
        }),
{
    sessions_are_watched_for_changes();
}

/// A wait on the queue that brings nothing is repeated until the deadline: before it, the
/// clock leads to a wait for up to eight events and 30 milliseconds, and where none came
/// back to the very same look at the clock. An event, or the deadline, leads to closing
/// the set and then to the question for the local address.
pub proof fn queue_wait_is_repeated(s: VerifyView, deadline: u128, now: u128, n: i32)
    requires
        s.phase == (VerifyPhase::Watching { deadline }),
    ensures
        ({
            let (draining, wait) = verify_next(s, Event::Clock(now));
            let (after, next) = verify_next(draining, Event::Code(n));
            &&& now < deadline ==> wait == UnitStep::Do(
                Op::WaitEpoll { max_events: 8, wait_ms: 30 },
            )
            &&& now < deadline && n <= 0 ==> after == s && next == UnitStep::Do(Op::ReadClock)
            &&& now < deadline && n > 0 ==> next == UnitStep::Do(Op::CloseEpoll) && verify_next(
                after,
                Event::Elapsed,
            ).1 == UnitStep::Do(Op::ConfirmAddr)
            &&& now >= deadline ==> wait == UnitStep::Do(Op::CloseEpoll) && verify_next(
                draining,
                Event::Elapsed,
            ).1 == UnitStep::Do(Op::ConfirmAddr) && verify_next(draining, Event::Elapsed).0.phase
                is Confirming
        }),
{
}

/// A confirmation fails exactly for a reason, which its message tells: the epoll set could
/// not be opened, or the session not put into it, with the code of the call; the session
/// has no local address, for the reason given; or its port is another.
pub proof fn confirmation_fails_only_for_a_reason(
    s: VerifyView,
    event: EventView,
    e: VclError<Seq<char>>,
)
    ensures
        verify_next(s, event).1 == UnitStep::Done(Err(e)) <==> match (s.phase, event) {
            (VerifyPhase::CreatingEpoll, Event::Code(rc)) => rc < 0 && (e matches VclError::Api(
                why,
                code,
            ) && why == "vppcom_epoll_create: "@ + signed_decimal(rc as int) && code == rc),
            (VerifyPhase::Abandoning { rc }, Event::Elapsed) => (e matches VclError::Api(why, code)
                && why == "vppcom_epoll_ctl ADD: "@ + signed_decimal(rc as int) && code == rc),
            (VerifyPhase::Confirming, Event::Confirmed(Err(reason))) => e matches VclError::Api(
                why,
                code,
            ) && code == -1 && why == "VPP rejected bind on "@ + s.requested_text + ": "@ + reason
                + " (port-in-use is the common cause; libvppcom logs the specific reason)"@,
            (VerifyPhase::Confirming, Event::Confirmed(Ok((actual, text)))) => actual.port
                != s.requested.port && (e matches VclError::Api(why, code) && code == -1 && why
                == "VPP bound "@ + text + " but we asked for "@ + s.requested_text
                + " (port mismatch — likely VPP picked a different port because the requested one was unavailable)"@),
            _ => false,
        },
{
}

/// A session that cannot be watched is not: a refusal to put it into the epoll set closes
/// the set, and is then the result, with the code of the refusal; a refusal to open the
/// set is the result at once.
pub proof fn unwatched_session_is_not_confirmed(s: VerifyView, rc: i32)
    requires
        rc < 0,
    ensures
        s.phase is CreatingEpoll ==> (verify_next(s, Event::Code(rc)).1 matches Step::Done(Err(
            VclError::Api(_, code),
        )) && code == rc),
        s.phase is AddingToEpoll ==> {
            let (abandoning, close) = verify_next(s, Event::Code(rc));
            &&& close == UnitStep::Do(Op::CloseEpoll)
            &&& verify_next(abandoning, Event::Elapsed).1 matches Step::Done(Err(VclError::Api(
                _,
                code,
            ))) && code == rc
        },
{
}

/// A confirmation keeps the address that was asked for, and its deadline from the moment
/// it is set; what answers nothing that it asked for changes nothing.
pub proof fn confirmation_keeps_its_inputs(s: VerifyView, event: EventView, set: u128)
    ensures
        verify_next(s, event).0.requested == s.requested && verify_next(s, event).0.requested_text
            == s.requested_text,
        (s.phase == (VerifyPhase::Watching { deadline: set }) || s.phase == (
        VerifyPhase::Draining { deadline: set })) ==> match verify_next(s, event).0.phase {
            VerifyPhase::Watching { deadline } => deadline == set,
            VerifyPhase::Draining { deadline } => deadline == set,
            phase => phase is Closing,
        },
        !(verify_next(s, event).1 is Close),
        verify_next(s, event).1 is Ignored ==> verify_next(s, event).0 == s,
        verify_next(s, event).1 is Ignored <==> match s.phase {
            VerifyPhase::CreatingEpoll => !(event is Code),
            VerifyPhase::AddingToEpoll => !(event is Code),
            VerifyPhase::Abandoning { .. } => !(event is Elapsed),
            VerifyPhase::Stamping => !(event is Clock),
            VerifyPhase::Watching { .. } => !(event is Clock),
            VerifyPhase::Draining { .. } => !(event is Code),
            VerifyPhase::Closing => !(event is Elapsed),
            VerifyPhase::Confirming => !(event is Confirmed),
            VerifyPhase::Finished => true,
        },
{
}

// ---- what a server session is for ----

/// A server session is bound to the address asked for, listens with the backlog asked for,
/// is confirmed, and only then registered, which ends its opening with success.
pub proof fn server_is_opened_step_by_step(s: ServerView)
    requires
        s.phase is Creating,
    ensures
        ({
            let (binding, bind) = server_next(s, Event::Unit(Ok(())));
            let (listening, listen) = server_next(binding, Event::Unit(Ok(())));
            let (verifying, verify) = server_next(listening, Event::Unit(Ok(())));
            &&& bind == UnitStep::Do(Op::Bind(s.verify.requested))
            &&& listen == UnitStep::Do(Op::Listen { backlog: s.backlog })
            &&& verify == UnitStep::Do(Op::CreateEpoll)
            &&& verifying == (ServerBind { phase: ServerPhase::Verifying, ..s })
        }),
{
}

/// A server session that is being confirmed does what its confirmation does. It is
/// registered once confirmed, and a registered one is handed out.
pub proof fn confirmed_server_is_registered(s: ServerView, event: EventView)
    ensures
        s.phase is Verifying ==> {
            let (verify, step) = verify_next(s.verify, event);
            &&& step matches Step::Do(op) ==> server_next(s, event) == (
                ServerBind { verify, ..s },
                UnitStep::Do(op),
            )
            &&& (step matches Step::Done(Ok(_))) ==> {
                &&& server_next(s, event).1 == UnitStep::Do(Op::Register(Target::Own))
                &&& server_next(s, event).0.phase is Registering
            }
            &&& step matches Step::Done(Err(e)) ==> result_of(server_next(s, event).1) == Some(
                Err::<(), VclError<Seq<char>>>(e),
            )
        },
        (server_next(s, event).1 matches Step::Done(Ok(_))) <==> s.phase is Registering
            && succeeded(event),
{
}

/// Opening a server session fails only for a reason: with the failure of the step that it
/// asked for, or of the confirmation.
pub proof fn server_fails_only_for_a_reason(s: ServerView, event: EventView, e: VclError<Seq<char>>)
    ensures
        result_of(server_next(s, event).1) == Some(Err::<(), VclError<Seq<char>>>(e)) <==> match (
            s.phase
        ) {
            ServerPhase::Finished => false,
            ServerPhase::Verifying => verify_next(s.verify, event).1 == UnitStep::Done(Err(e)),
            _ => event == EventView::Unit(Err(e)),
        },
{
}

/// Opening a server session keeps what it was asked for; what answers nothing that it
/// asked for changes nothing.
pub proof fn server_keeps_its_inputs(s: ServerView, event: EventView)
    ensures
        server_next(s, event).0.verify.requested == s.verify.requested,
        server_next(s, event).0.verify.requested_text == s.verify.requested_text,
        server_next(s, event).0.backlog == s.backlog,
        server_next(s, event).1 is Ignored ==> server_next(s, event).0 == s,
        server_next(s, event).1 is Ignored <==> match s.phase {
            ServerPhase::Finished => true,
            ServerPhase::Verifying => verify_next(s.verify, event).1 is Ignored,
            _ => !(event is Unit),
        },
{
}

/// The opening of a server session after a sequence of events.
pub open spec fn server_run(s: ServerView, events: Seq<EventView>) -> ServerView
    decreases events.len(),
{
    if events.len() == 0 {
        s
    } else {
        server_next(server_run(s, events.drop_last()), events.last()).0
    }
}

/// Whatever happens, the only address that a server session is bound to is the one it was
/// opened for, and it listens with the backlog it was opened with.
pub proof fn server_binds_what_was_asked_for(
    backlog: u32,
    addr: SocketAddr,
    addr_text: Seq<char>,
    events: Seq<EventView>,
    last: EventView,
)
    ensures
        ({
            let s = server_run(server_start(backlog, addr, addr_text), events);
            &&& server_next(s, last).1 matches Step::Do(Op::Bind(to)) ==> to == addr
            &&& server_next(s, last).1 matches Step::Do(Op::Listen { backlog: b }) ==> b == backlog
            &&& s.verify.requested == addr && s.verify.requested_text == addr_text && s.backlog
                == backlog
        }),
    decreases events.len(),
{
    if events.len() > 0 {
        server_binds_what_was_asked_for(
            backlog,
            addr,
            addr_text,
            events.drop_last(),
            events.last(),
        );
    }
}

/// Opening a server session begins with what it was asked for and with nothing done: the
/// session has still to be created, and its bind to be confirmed.
pub proof fn server_begins(backlog: u32, addr: SocketAddr, addr_text: Seq<char>)
    ensures
        ({
            let s = server_start(backlog, addr, addr_text);
            &&& s.phase is Creating && s.verify.phase is CreatingEpoll
            &&& s.backlog == backlog && s.verify.requested == addr && s.verify.requested_text
                == addr_text
        }),
{
}

/// In a contract a confirmation and an opening stand as they are, with the text by its
/// view.
pub proof fn server_binds_are_seen_as_they_are(v: VerifyBind, s: ServerBind)
    ensures
        v@.requested == v.requested && v@.requested_text == v.requested_text@ && v@.phase
            == v.phase,
        s@.backlog == s.backlog && s@.verify == s.verify@ && s@.phase == s.phase,
{
}

} // verus!
