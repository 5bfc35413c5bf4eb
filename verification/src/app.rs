//! The life of a VCL application.
//!
//! A [`VclApp`] is created once per process before any session is opened. A flag
//! of the process tells whether one has been claimed: creating an application
//! claims it, and destroying the application releases it.

use vstd::prelude::*;

use crate::error::{host_errnos, ErrnoCodes, VclError};
#[allow(unused_imports)]
use crate::error::{classify, failure, text_view};
use crate::ffi::VclCall;

verus! {

/// The application. Whoever holds it may open sessions.
#[derive(Debug)]
pub struct VclApp {
    _private: (),
}

/// How far the creation of the application has come.
#[derive(Debug, Clone, Copy, PartialEq, Eq)]
pub enum InitPhase {
    /// `vls_app_create` is being called.
    Creating,
    /// `vls_use_eventfd` is being called.
    Probing,
    Finished,
}

/// Creating the application.
#[derive(Debug, Clone, Copy)]
pub struct AppInit {
    pub phase: InitPhase,
}

/// What the creation of the application does next.
#[derive(Debug)]
pub enum InitStep {
    /// Call `vls_app_create` with this name, and hand the code it returns to
    /// [`AppInit::created`].
    CreateApp(String),
    /// Call `vls_use_eventfd`, and hand what it returns to [`AppInit::probed`].
    ProbeEventfd,
    /// The application is created, and the flag of the process stays claimed.
    Created(VclApp),
    /// The creation failed, and `claimed` is what the flag of the process is to hold.
    Failed { error: VclError, claimed: bool },
    /// What was handed over answers nothing that was asked for; the state is
    /// unchanged.
    Ignored,
}

/// What the creation of the application does next, in the terms of contracts.
pub enum InitView {
    CreateApp(Seq<char>),
    ProbeEventfd,
    Created,
    Failed { error: VclError<Seq<char>>, claimed: bool },
    Ignored,
}

impl View for InitStep {
    type V = InitView;

    open spec fn view(&self) -> InitView {
        match *self {
            InitStep::CreateApp(name) => InitView::CreateApp(name@),
            InitStep::ProbeEventfd => InitView::ProbeEventfd,
            InitStep::Created(_) => InitView::Created,
            InitStep::Failed { error, claimed } => InitView::Failed { error: error@, claimed },
            InitStep::Ignored => InitView::Ignored,
        }
    }
}

/// The name can be handed to C: no character of it is NUL.
pub open spec fn is_c_name(name: Seq<char>) -> bool {
    !name.contains('\0')
}

/// The creation failed, and the flag is to hold `claimed`.
pub open spec fn init_failed(error: VclError<Seq<char>>, claimed: bool) -> (InitPhase, InitView) {
    (InitPhase::Finished, InitView::Failed { error, claimed })
}

/// How the creation of the application begins where the flag held `claimed`.
pub open spec fn init_start(claimed: bool, name: Seq<char>) -> (InitPhase, InitView) {
    if claimed {
        init_failed(failure("VCL already initialized"@), true)
    } else if !is_c_name(name) {
        init_failed(failure("invalid app name"@), true)
    } else {
        (InitPhase::Creating, InitView::CreateApp(name))
    }
}

/// What follows when `vls_app_create` returned `rc`.
pub open spec fn created_next(
    phase: InitPhase,
    codes: ErrnoCodes,
    rc: i32,
    known: Option<Seq<char>>,
) -> (InitPhase, InitView) {
    if !(phase is Creating) {
        (phase, InitView::Ignored)
    } else if rc < 0 {
        init_failed(classify(codes, rc, known), false)
    } else {
        (InitPhase::Probing, InitView::ProbeEventfd)
    }
}

/// What follows when `vls_use_eventfd` returned `use_eventfd`.
pub open spec fn probed_next(phase: InitPhase, use_eventfd: u8) -> (InitPhase, InitView) {
    if !(phase is Probing) {
        (phase, InitView::Ignored)
    } else if use_eventfd == 0 {
        init_failed(
            failure("VLS requires use-mq-eventfd in vcl.conf for tokio integration"@),
            true,
        )
    } else {
        (InitPhase::Finished, InitView::Created)
    }
}

fn has_nul(name: &str) -> (found: bool)
    ensures
        found == !is_c_name(name@),
{
    let n: usize = name.unicode_len();
    let mut i: usize = 0;
    while i < n
        invariant
            i <= n == name@.len(),
            forall|j: int| 0 <= j < i ==> name@[j] != '\0',
        decreases n - i,
    {
        if name.get_char(i) == '\0' {
            return true;
        }
        i = i + 1;
    }
    false
}

/// The end of an application: the call that destroys it, and what the flag of the
/// process is to hold after that.
#[derive(Debug, Clone, Copy, PartialEq, Eq)]
pub struct Destroyed {
    pub call: VclCall,
    pub claimed: bool,
}

/// What destroying the application comes to: the flag is released.
pub open spec fn destroyed() -> Destroyed {
    Destroyed { call: VclCall::AppDestroy, claimed: false }
}

impl VclApp {
    /// Begins to create the application; `claimed` is what the flag of the process
    /// held when it was claimed for this.
    ///
    /// A second application is refused, and so is a name that C cannot take.
    pub fn init(claimed: bool, app_name: &str) -> (r: (AppInit, InitStep))
        ensures
            (r.0.phase, r.1@) == init_start(claimed, app_name@),
    {
        if claimed {
            return AppInit::fail(VclError::failure("VCL already initialized"), true);
        }
        if has_nul(app_name) {
            return AppInit::fail(VclError::failure("invalid app name"), true);
        }
        (AppInit { phase: InitPhase::Creating }, InitStep::CreateApp(app_name.to_owned()))
    }

    /// Destroys the application, and releases the flag of the process so that another
    /// one may be created.
    pub fn destroy(self) -> (end: Destroyed)
        ensures
            end == destroyed(),
    {
        Destroyed { call: VclCall::AppDestroy, claimed: false }
    }
}

impl AppInit {
    fn fail(error: VclError, claimed: bool) -> (r: (AppInit, InitStep))
        ensures
            (r.0.phase, r.1@) == init_failed(error@, claimed),
    {
        (AppInit { phase: InitPhase::Finished }, InitStep::Failed { error, claimed })
    }

    /// `vls_app_create` returned `rc` on a host whose error numbers are `codes`;
    /// `known` is the text that VCL knows for that code. A failure releases the
    /// flag, so that the creation may be tried again.
    pub fn created_with(self, rc: i32, codes: &ErrnoCodes, known: Option<&str>) -> (r: (
        AppInit,
        InitStep,
    ))
        ensures
            (r.0.phase, r.1@) == created_next(self.phase, *codes, rc, text_view(known)),
    {
        match self.phase {
            InitPhase::Creating => if rc < 0 {
                AppInit::fail(VclError::from_rc_with(rc, codes, known), false)
            } else {
                (AppInit { phase: InitPhase::Probing }, InitStep::ProbeEventfd)
            },
            _ => (self, InitStep::Ignored),
        }
    }

    /// `vls_app_create` returned `rc`.
    pub fn created(self, rc: i32, known: Option<&str>) -> (r: (AppInit, InitStep))
        ensures
            exists|codes: ErrnoCodes|
                #![trigger codes.distinct()]
                codes.distinct() && (r.0.phase, r.1@) == created_next(
                    self.phase,
                    codes,
                    rc,
                    text_view(known),
                ),
    {
        let codes = host_errnos();
        self.created_with(rc, &codes, known)
    }

    /// `vls_use_eventfd` returned `use_eventfd`. Without an event descriptor the
    /// message queue cannot be waited for, and the application is of no use.
    pub fn probed(self, use_eventfd: u8) -> (r: (AppInit, InitStep))
        ensures
            (r.0.phase, r.1@) == probed_next(self.phase, use_eventfd),
    {
        match self.phase {
            InitPhase::Probing => if use_eventfd == 0 {
                AppInit::fail(
                    VclError::failure(
                        "VLS requires use-mq-eventfd in vcl.conf for tokio integration",
                    ),
                    true,
                )
            } else {
                (
                    AppInit { phase: InitPhase::Finished },
                    InitStep::Created(VclApp { _private: () }),
                )
            },
            _ => (self, InitStep::Ignored),
        }
    }
}

// ---- one application after another ----

/// One creation of an application in the life of a process: its name, what the calls
/// returned where they were made, and whether the application has been destroyed
/// since.
pub struct Life {
    pub name: Seq<char>,
    pub codes: ErrnoCodes,
    pub rc: i32,
    pub known: Option<Seq<char>>,
    pub use_eventfd: u8,
    pub destroyed: bool,
}

/// How a creation ends where the flag held `claimed`: with the application or with a
/// failure.
pub open spec fn init_end(claimed: bool, life: Life) -> InitView {
    let (creating, first) = init_start(claimed, life.name);
    let (probing, second) = created_next(creating, life.codes, life.rc, life.known);
    if !(first is CreateApp) {
        first
    } else if !(second is ProbeEventfd) {
        second
    } else {
        probed_next(probing, life.use_eventfd).1
    }
}

/// What the flag holds after a creation, where it held `claimed` before.
pub open spec fn flag_after(claimed: bool, life: Life) -> bool {
    match init_end(claimed, life) {
        InitView::Created => if life.destroyed {
            destroyed().claimed
        } else {
            true
        },
        InitView::Failed { claimed: kept, .. } => kept,
        _ => claimed,
    }
}

/// What the flag of a process holds after these creations; it is not claimed at the
/// start.
pub open spec fn flag_after_all(lives: Seq<Life>) -> bool
    decreases lives.len(),
{
    if lives.len() == 0 {
        false
    } else {
        flag_after(flag_after_all(lives.drop_last()), lives.last())
    }
}

/// Nothing is left of a creation: its application was destroyed, or `vls_app_create`
/// was called and failed.
pub open spec fn nothing_left(claimed: bool, life: Life) -> bool {
    ||| init_end(claimed, life) is Created && life.destroyed
    ||| init_start(claimed, life.name).1 is CreateApp && life.rc < 0
}

/// Where nothing is left of any earlier creation, the next one is not refused: the
/// application is created under its name, a failure of that call is the result, and
/// otherwise creation succeeds exactly where there is an event descriptor.
pub proof fn next_application_is_let_through(lives: Seq<Life>, next: Life)
    requires
        forall|i: int|
            0 <= i < lives.len() ==> nothing_left(
                flag_after_all(lives.take(i)),
                #[trigger] lives[i],
            ),
        is_c_name(next.name),
    ensures
        !flag_after_all(lives),
        init_start(flag_after_all(lives), next.name) == (
            InitPhase::Creating,
            InitView::CreateApp(next.name),
        ),
        next.rc < 0 ==> init_end(flag_after_all(lives), next) == (InitView::Failed {
            error: classify(next.codes, next.rc, next.known),
            claimed: false,
        }),
        next.rc >= 0 ==> (init_end(flag_after_all(lives), next) is Created <==> next.use_eventfd
            != 0),
{
    if lives.len() > 0 {
        let last = lives.len() - 1;
        assert(lives.take(last) =~= lives.drop_last());
        assert(nothing_left(flag_after_all(lives.take(last)), lives[last]));
    }
}

/// While an application is there, every further creation is refused and changes
/// nothing.
pub proof fn second_application_is_refused(claimed: bool, life: Life, next: Life)
    requires
        init_end(claimed, life) is Created,
        !life.destroyed,
    ensures
        flag_after(claimed, life),
        init_end(flag_after(claimed, life), next) == (InitView::Failed {
            error: failure("VCL already initialized"@),
            claimed: true,
        }),
        flag_after(flag_after(claimed, life), next),
{
}

/// A name can be handed to C exactly where none of its characters is NUL; so a name made
/// of two can exactly where both can.
pub proof fn c_names_hold_no_nul(name: Seq<char>, other: Seq<char>, i: int)
    ensures
        is_c_name(name) <==> forall|j: int| 0 <= j < name.len() ==> name[j] != '\0',
        0 <= i < name.len() && name[i] == '\0' ==> !is_c_name(name),
        is_c_name(name + other) <==> is_c_name(name) && is_c_name(other),
{
    let both = name + other;
    if is_c_name(name) && is_c_name(other) && !is_c_name(both) {
        let k = choose|k: int| 0 <= k < both.len() && both[k] == '\0';
        if k < name.len() {
            assert(name[k] == '\0');
        } else {
            assert(other[k - name.len()] == '\0');
        }
    }
    if is_c_name(both) {
        assert forall|j: int| 0 <= j < name.len() implies name[j] != '\0' by {
            assert(both[j] == name[j]);
        }
        assert forall|j: int| 0 <= j < other.len() implies other[j] != '\0' by {
            assert(both[j + name.len()] == other[j]);
        }
    }
}

/// A creation is refused only for a reason, which its message tells: another application
/// is there, or the name cannot be handed to C. Otherwise the application is created under
/// just the name that was given.
pub proof fn creation_is_refused_only_for_a_reason(claimed: bool, name: Seq<char>)
    ensures
        match init_start(claimed, name).1 {
            InitView::CreateApp(given) => given == name && !claimed && (forall|i: int|
                0 <= i < name.len() ==> name[i] != '\0') && init_start(claimed, name).0
                is Creating,
            InitView::Failed { error, claimed: kept } => kept && init_start(claimed, name).0
                is Finished && (error matches VclError::Api(why, rc) && rc == -1 && if claimed {
                why == "VCL already initialized"@
            } else {
                why == "invalid app name"@ && exists|i: int| 0 <= i < name.len() && name[i] == '\0'
            }),
            _ => false,
        },
{
}

/// A creation whose call succeeded goes on to ask for the event descriptor, and ends with
/// the application where there is one, whatever number tells so. It fails only where the
/// call failed, with the call's failure and the flag released, or where there is no
/// descriptor, with the flag kept.
pub proof fn creation_goes_on_to_its_application(
    codes: ErrnoCodes,
    rc: i32,
    known: Option<Seq<char>>,
    use_eventfd: u8,
)
    ensures
        ({
            let (after, step) = created_next(InitPhase::Creating, codes, rc, known);
            let (last, end) = probed_next(after, use_eventfd);
            &&& rc < 0 ==> step == (InitView::Failed {
                error: classify(codes, rc, known),
                claimed: false,
            }) && after is Finished
            &&& rc >= 0 ==> step is ProbeEventfd && last is Finished
            &&& rc >= 0 && use_eventfd > 0 ==> end is Created
            &&& rc >= 0 && use_eventfd == 0 ==> (end matches InitView::Failed {
                error: VclError::Api(why, code),
                claimed,
            } && claimed && code == -1 && why
                == "VLS requires use-mq-eventfd in vcl.conf for tokio integration"@)
        }),
{
}

/// What answers nothing that the creation asked for changes nothing, and that is so of
/// just those answers; a creation that is over answers nothing more.
pub proof fn creation_ignores_other_answers(
    phase: InitPhase,
    codes: ErrnoCodes,
    rc: i32,
    known: Option<Seq<char>>,
    use_eventfd: u8,
)
    ensures
        created_next(phase, codes, rc, known).1 is Ignored <==> !(phase is Creating),
        probed_next(phase, use_eventfd).1 is Ignored <==> !(phase is Probing),
        created_next(phase, codes, rc, known).1 is Ignored ==> created_next(
            phase,
            codes,
            rc,
            known,
        ).0 == phase,
        probed_next(phase, use_eventfd).1 is Ignored ==> probed_next(phase, use_eventfd).0 == phase,
{
}

/// In a contract a step of the creation stands as it is, with its name and its error by
/// their views.
pub proof fn creation_steps_are_seen_as_they_are(step: InitStep)
    ensures
        match step {
            InitStep::CreateApp(name) => step@ == InitView::CreateApp(name@),
            InitStep::ProbeEventfd => step@ is ProbeEventfd,
            InitStep::Created(_) => step@ is Created,
            InitStep::Failed { error, claimed } => step@ == (InitView::Failed {
                error: error@,
                claimed,
            }),
            InitStep::Ignored => step@ is Ignored,
        },
{
}

/// Destroying an application destroys it and releases the flag, so that the next creation
/// is not refused.
pub proof fn destroyed_application_makes_room(name: Seq<char>)
    requires
        is_c_name(name),
    ensures
        destroyed().call is AppDestroy,
        !destroyed().claimed,
        init_start(destroyed().claimed, name).1 == InitView::CreateApp(name),
{
}

} // verus!
