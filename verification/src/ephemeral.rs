//! Opening a session and binding it to a random ephemeral port.
//!
//! VCL does not assign a source port to a session bound to port 0, and peers
//! drop what comes from port 0. So a port is drawn here, and another one when
//! the bind is refused.

use rand::Rng;
use vstd::prelude::*;

use crate::addr::{IpAddr, SocketAddr};
use crate::error::VclError;
use crate::ops::{Event, Op};
#[allow(unused_imports)]
use crate::ops::{succeeded, EventView};

verus! {

/// The lowest port that is drawn.
pub const EPHEMERAL_LOW: u16 = 32768;

/// The highest port that is drawn.
pub const EPHEMERAL_HIGH: u16 = 60999;

/// How many ports are tried.
pub const BIND_ATTEMPTS: u8 = 8;

/// Whether a port lies in the ephemeral range.
pub open spec fn is_ephemeral(port: u16) -> bool {
    EPHEMERAL_LOW <= port <= EPHEMERAL_HIGH
}

/// A number that `rand`'s thread-local generator drew with `gen_range` from
/// the closed range between `low` and `high`. Nothing more is claimed of it.
#[verifier::external_body]
fn draw(low: u16, high: u16) -> (n: u16)
    requires
        low <= high,
    ensures
        low <= n <= high,
{
    rand::thread_rng().gen_range(low..=high)
}

/// A random port of the ephemeral range.
pub fn ephemeral_port() -> (port: u16)
    ensures
        is_ephemeral(port),
{
    draw(EPHEMERAL_LOW, EPHEMERAL_HIGH)
}

/// As many random ports of the ephemeral range as are ever tried.
pub fn ephemeral_ports() -> (ports: [u16; 8])
    ensures
        forall|i: int| 0 <= i < 8 ==> is_ephemeral(#[trigger] ports@[i]),
{
    [
        ephemeral_port(),
        ephemeral_port(),
        ephemeral_port(),
        ephemeral_port(),
        ephemeral_port(),
        ephemeral_port(),
        ephemeral_port(),
        ephemeral_port(),
    ]
}

/// What to bind a session to once it is open.
#[derive(Debug)]
pub enum BindPlan<S = String> {
    /// Nothing: VPP picks the source.
    Skip,
    /// An ephemeral port of this address.
    Bind(IpAddr),
    /// The request is refused.
    Refuse(VclError<S>),
}

impl View for BindPlan {
    type V = BindPlan<Seq<char>>;

    open spec fn view(&self) -> BindPlan<Seq<char>> {
        match *self {
            BindPlan::Skip => BindPlan::Skip,
            BindPlan::Bind(ip) => BindPlan::Bind(ip),
            BindPlan::Refuse(e) => BindPlan::Refuse(e@),
        }
    }
}

/// An address with its text, the text taken by its view.
pub open spec fn labelled(source: Option<(IpAddr, &str)>) -> Option<(IpAddr, Seq<char>)> {
    match source {
        Some((ip, text)) => Some((ip, text@)),
        None => None,
    }
}

/// How far opening a session has come. `left` counts the ports that may still
/// be tried.
#[derive(Debug)]
pub enum OpenStage<S = String> {
    Creating(BindPlan<S>),
    Picking { ip: IpAddr, left: u8 },
    Binding { ip: IpAddr, left: u8 },
}

impl View for OpenStage {
    type V = OpenStage<Seq<char>>;

    open spec fn view(&self) -> OpenStage<Seq<char>> {
        match *self {
            OpenStage::Creating(plan) => OpenStage::Creating(plan@),
            OpenStage::Picking { ip, left } => OpenStage::Picking { ip, left },
            OpenStage::Binding { ip, left } => OpenStage::Binding { ip, left },
        }
    }
}

/// What opening a session does next.
#[derive(Debug)]
pub enum Opening<S = String> {
    /// Perform this; the session is not ready yet.
    Do(Op, OpenStage<S>),
    /// The session is open, and bound as planned.
    Ready,
    /// No port could be bound.
    Exhausted,
    /// The session could not be opened.
    Failed(VclError<S>),
    /// The session is open, and the plan refuses it.
    Refused(VclError<S>),
    /// The event answers nothing that was asked for.
    Ignored(OpenStage<S>),
}

impl View for Opening {
    type V = Opening<Seq<char>>;

    open spec fn view(&self) -> Opening<Seq<char>> {
        match *self {
            Opening::Do(op, stage) => Opening::Do(op, stage@),
            Opening::Ready => Opening::Ready,
            Opening::Exhausted => Opening::Exhausted,
            Opening::Failed(e) => Opening::Failed(e@),
            Opening::Refused(e) => Opening::Refused(e@),
            Opening::Ignored(stage) => Opening::Ignored(stage@),
        }
    }
}

impl<S> OpenStage<S> {
    /// Some port may still be tried where one is being picked, and no more than
    /// the allowed number is left.
    pub open spec fn wf(self) -> bool {
        match self {
            OpenStage::Creating(_) => true,
            OpenStage::Picking { ip, left } => 1 <= left <= BIND_ATTEMPTS,
            OpenStage::Binding { ip, left } => left < BIND_ATTEMPTS,
        }
    }
}

/// What follows an event: the plan is looked at once the session is open; a
/// refused port is followed by another while any is left.
pub open spec fn open_next(
    stage: OpenStage<Seq<char>>,
    event: EventView,
) -> Opening<Seq<char>> {
    match (stage, event) {
        (OpenStage::Creating(plan), Event::Unit(Ok(()))) => match plan {
            BindPlan::Skip => Opening::Ready,
            BindPlan::Bind(ip) => Opening::Do(
                Op::PickPort,
                OpenStage::Picking { ip, left: BIND_ATTEMPTS },
            ),
            BindPlan::Refuse(e) => Opening::Refused(e),
        },
        (OpenStage::Creating(_), Event::Unit(Err(e))) => Opening::Failed(e),
        (OpenStage::Picking { ip, left }, Event::Port(port)) => Opening::Do(
            Op::Bind(SocketAddr { ip, port }),
            OpenStage::Binding { ip, left: (left - 1) as u8 },
        ),
        (OpenStage::Binding { .. }, Event::Unit(Ok(()))) => Opening::Ready,
        (OpenStage::Binding { ip, left }, Event::Unit(Err(_))) => if left == 0 {
            Opening::Exhausted
        } else {
            Opening::Do(Op::PickPort, OpenStage::Picking { ip, left })
        },
        _ => Opening::Ignored(stage),
    }
}

/// Moves opening a session on by one event.
pub(crate) fn open_step(stage: OpenStage, event: Event) -> (r: Opening)
    requires
        stage@.wf(),
    ensures
        r@ == open_next(stage@, event@),
        r@ matches Opening::Do(_, next) ==> next.wf(),
{
    match stage {
        OpenStage::Creating(plan) => match event {
            Event::Unit(Ok(())) => match plan {
                BindPlan::Skip => Opening::Ready,
                BindPlan::Bind(ip) => Opening::Do(
                    Op::PickPort,
                    OpenStage::Picking { ip, left: BIND_ATTEMPTS },
                ),
                BindPlan::Refuse(e) => Opening::Refused(e),
            },
            Event::Unit(Err(e)) => Opening::Failed(e),
            _ => Opening::Ignored(OpenStage::Creating(plan)),
        },
        OpenStage::Picking { ip, left } => match event {
            Event::Port(port) => Opening::Do(
                Op::Bind(SocketAddr { ip, port }),
                OpenStage::Binding { ip, left: left - 1 },
            ),
            _ => Opening::Ignored(OpenStage::Picking { ip, left }),
        },
        OpenStage::Binding { ip, left } => match event {
            Event::Unit(Ok(())) => Opening::Ready,
            Event::Unit(Err(_)) => if left == 0 {
                Opening::Exhausted
            } else {
                Opening::Do(Op::PickPort, OpenStage::Picking { ip, left })
            },
            _ => Opening::Ignored(OpenStage::Binding { ip, left }),
        },
    }
}

/// The number of binds among the steps that a sequence of events leads to.
pub open spec fn binds(
    stage: OpenStage<Seq<char>>,
    events: Seq<EventView>,
) -> nat
    decreases events.len(),
{
    if events.len() == 0 {
        0
    } else {
        match open_next(stage, events[0]) {
            Opening::Do(op, next) => (if op is Bind { 1nat } else { 0nat }) + binds(
                next,
                events.skip(1),
            ),
            Opening::Ignored(next) => binds(next, events.skip(1)),
            _ => 0,
        }
    }
}

/// How many binds a stage may still ask for.
pub open spec fn binds_left(stage: OpenStage<Seq<char>>) -> nat {
    match stage {
        OpenStage::Creating(_) => BIND_ATTEMPTS as nat,
        OpenStage::Picking { ip, left } => left as nat,
        OpenStage::Binding { ip, left } => left as nat,
    }
}

/// Opening a session tries to bind a bounded number of times, whatever the
/// binds return: never more than eight times from the start.
pub proof fn binds_are_bounded(
    stage: OpenStage<Seq<char>>,
    events: Seq<EventView>,
)
    requires
        stage.wf(),
    ensures
        binds(stage, events) <= binds_left(stage),
        binds(stage, events) <= 8,
    decreases events.len(),
{
    if events.len() > 0 {
        match open_next(stage, events[0]) {
            Opening::Do(op, next) => binds_are_bounded(next, events.skip(1)),
            Opening::Ignored(next) => binds_are_bounded(next, events.skip(1)),
            _ => {},
        }
    }
}

/// Every bind is to the planned address and to the port that was drawn for it.
pub proof fn binds_use_the_drawn_port(
    stage: OpenStage<Seq<char>>,
    event: EventView,
)
    ensures
        open_next(stage, event) matches Opening::Do(Op::Bind(addr), next) ==> {
            &&& event == EventView::Port(addr.port)
            &&& stage matches OpenStage::Picking { ip, left } && addr.ip == ip
        },
        open_next(stage, event) matches Opening::Do(Op::PickPort, next) ==> (next matches
            OpenStage::Picking { ip, left } && match stage {
            OpenStage::Creating(plan) => plan == BindPlan::<Seq<char>>::Bind(ip),
            OpenStage::Picking { .. } => false,
            OpenStage::Binding { ip: before, left: l } => before == ip,
        }),
{
}

/// A refused plan binds nothing: it is refused once the session is open.
pub proof fn refused_plan_fails(e: VclError<Seq<char>>, event: EventView)
    ensures
        match open_next(OpenStage::Creating(BindPlan::Refuse(e)), event) {
            Opening::Refused(f) => f == e && event matches Event::Unit(Ok(_)),
            Opening::Failed(f) => event == EventView::Unit(Err(f)),
            Opening::Ignored(next) => !(event is Unit),
            _ => false,
        },
{
}

/// The stage is on its way to a bind of this address.
pub open spec fn serves(stage: OpenStage<Seq<char>>, ip: IpAddr) -> bool {
    match stage {
        OpenStage::Creating(plan) => plan matches BindPlan::Bind(planned) && planned == ip,
        OpenStage::Picking { ip: planned, left } => planned == ip,
        OpenStage::Binding { ip: planned, left } => planned == ip,
    }
}

/// Whatever happens, an opening that is planned for an address binds that address, and
/// does nothing else but draw ports.
pub proof fn opening_keeps_its_address(
    stage: OpenStage<Seq<char>>,
    event: EventView,
    ip: IpAddr,
)
    requires
        serves(stage, ip),
    ensures
        open_next(stage, event) matches Opening::Do(op, next) ==> {
            &&& serves(next, ip)
            &&& op is PickPort || (op matches Op::Bind(addr) && addr.ip == ip && event
                == EventView::Port(addr.port))
        },
        open_next(stage, event) matches Opening::Ignored(next) ==> next == stage,
        !(open_next(stage, event) is Refused),
{
}

/// An opening is ready only where its session was opened and nothing is to be bound,
/// or where a bind was accepted; and then it is ready at once.
pub proof fn opening_is_ready_once_bound(stage: OpenStage<Seq<char>>, event: EventView)
    ensures
        open_next(stage, event) is Ready <==> succeeded(event) && (stage is Binding || (stage
            matches OpenStage::Creating(plan) && plan is Skip)),
        open_next(stage, event) matches Opening::Failed(e) ==> stage is Creating && event
            == EventView::Unit(Err(e)),
        open_next(stage, event) is Exhausted <==> (stage matches OpenStage::Binding { ip, left }
            && left == 0) && (event matches Event::Unit(Err(_))),
        stage is Creating && (event matches Event::Unit(Err(_))) ==> open_next(stage, event)
            is Failed,
        open_next(stage, event) matches Opening::Refused(e) ==> succeeded(event) && stage
            == OpenStage::Creating(BindPlan::Refuse(e)),
        (stage matches OpenStage::Creating(BindPlan::Refuse(_))) && succeeded(event) ==> open_next(
            stage,
            event,
        ) is Refused,
        open_next(stage, event) matches Opening::Ignored(same) ==> same == stage,
        open_next(stage, event) is Ignored <==> match stage {
            OpenStage::Picking { .. } => !(event is Port),
            _ => !(event is Unit),
        },
{
}

/// While a port is left a refused bind is followed by another port, and each try takes
/// one of eight: opening is exhausted only when all of them were refused.
pub proof fn refused_ports_are_replaced(
    ip: IpAddr,
    left: u8,
    port: u16,
    why: VclError<Seq<char>>,
    plan: BindPlan<Seq<char>>,
)
    requires
        1 <= left <= 8,
        plan == BindPlan::<Seq<char>>::Bind(ip),
    ensures
        open_next(OpenStage::Creating(plan), Event::Unit(Ok(()))) == Opening::<Seq<char>>::Do(
            Op::PickPort,
            OpenStage::Picking { ip, left: 8 },
        ),
        ({
            let tried = open_next(OpenStage::Picking { ip, left }, Event::Port(port));
            &&& tried matches Opening::Do(op, binding)
            &&& op == Op::Bind(SocketAddr { ip, port })
            &&& open_next(binding, Event::Unit(Ok(()))) is Ready
            &&& if left == 1 {
                open_next(binding, Event::Unit(Err(why))) is Exhausted
            } else {
                open_next(binding, Event::Unit(Err(why))) == Opening::<Seq<char>>::Do(
                    Op::PickPort,
                    OpenStage::Picking { ip, left: (left - 1) as u8 },
                )
            }
        }),
{
}

/// The ephemeral ports are those from 32768 to 60999, both included.
pub proof fn ephemeral_ports_are_these(port: u16)
    ensures
        is_ephemeral(port) <==> 32768 <= port <= 60999,
        BIND_ATTEMPTS == 8,
{
}

/// In a contract a plan, a stage and an opening stand as they are, with each error by its
/// view.
pub proof fn openings_are_seen_as_they_are(
    plan: BindPlan,
    stage: OpenStage,
    opening: Opening,
    source: Option<(IpAddr, &str)>,
)
    ensures
        match plan {
            BindPlan::Skip => plan@ is Skip,
            BindPlan::Bind(ip) => plan@ == BindPlan::<Seq<char>>::Bind(ip),
            BindPlan::Refuse(e) => plan@ == BindPlan::Refuse(e@),
        },
        match stage {
            OpenStage::Creating(p) => stage@ == OpenStage::Creating(p@),
            OpenStage::Picking { ip, left } => stage@ == (OpenStage::<Seq<char>>::Picking {
                ip,
                left,
            }),
            OpenStage::Binding { ip, left } => stage@ == (OpenStage::<Seq<char>>::Binding {
                ip,
                left,
            }),
        },
        match opening {
            Opening::Do(op, next) => opening@ == Opening::Do(op, next@),
            Opening::Ready => opening@ is Ready,
            Opening::Exhausted => opening@ is Exhausted,
            Opening::Failed(e) => opening@ == Opening::Failed(e@),
            Opening::Refused(e) => opening@ == Opening::Refused(e@),
            Opening::Ignored(same) => opening@ == Opening::Ignored(same@),
        },
        source is None <==> labelled(source) is None,
        source matches Some((ip, text)) ==> labelled(source) == Some((ip, text@)),
{
}

} // verus!
