use vcl_rs::error::{IoError, IoErrorKind, VclError};
use vcl_rs::ffi::{epoll_event, VclCall, EPOLLET, EPOLLIN, EPOLLOUT, EPOLL_CTL_ADD, EPOLL_CTL_DEL};
use vcl_rs::reactor::{
    Drained, SetupStep, TickEvent, TickReport, TickStep, Ticker, WaitOp, WaitStep, Wake,
};
use vcl_rs::session::SessionHandle;
use vcl_rs::VclReactor;

const MS: u128 = 1_000_000;

fn reactor() -> VclReactor<&'static str> {
    let (s, step) = VclReactor::<&'static str>::new();
    assert!(matches!(step, SetupStep::CreateEpoll));
    let (s, step) = s.created::<&'static str>(17, None);
    assert!(matches!(step, SetupStep::FetchQueue));
    let (s, step) = s.fetched::<&'static str>(5);
    assert!(matches!(step, SetupStep::WatchQueue { fd: 5 }));
    match s.watched(Ok(()), 7).1 {
        SetupStep::Done(Ok(started)) => {
            // Its ticker starts with it, and ticks at once.
            assert_eq!(started.ticker.prev_tick, 7);
            assert_eq!(started.step, TickStep::Sleep { nanos: 0 });
            started.reactor
        }
        _ => panic!("no reactor"),
    }
}

fn refused(step: SetupStep<()>) -> VclError {
    match step {
        SetupStep::Done(Err(e)) => e,
        _ => panic!("not refused"),
    }
}

fn event(data: u64) -> epoll_event {
    epoll_event { events: EPOLLIN, data }
}

#[test]
fn a_reactor_needs_an_epoll_set_and_a_queue() {
    let r = reactor();
    assert_eq!(r.vep, 17);
    assert!(r.waiters.is_empty());
    let (s, _) = VclReactor::<()>::new();
    assert!(matches!(s.fetched::<()>(5).1, SetupStep::Ignored));
    assert!(matches!(s.watched::<()>(Ok(()), 0).1, SetupStep::Ignored));
    let (_, step) = s.created(-99, Some("no set"));
    assert_eq!(refused(step), VclError::Api("no set".to_owned(), -99));
    let (s, _) = s.created::<()>(0, None);
    assert!(matches!(s.created::<()>(0, None).1, SetupStep::Ignored));
    let message = "vppcom_mq_epoll_fd returned negative".to_owned();
    assert_eq!(refused(s.fetched(-2).1), VclError::Api(message, -2));
    let (s, _) = s.fetched::<()>(5);
    let io = IoError { kind: IoErrorKind::Os(9), message: "bad descriptor".to_owned() };
    let same = IoError { kind: IoErrorKind::Os(9), message: "bad descriptor".to_owned() };
    assert_eq!(refused(s.watched(Err(io), 0).1), VclError::Io(same));
}

#[test]
fn a_session_is_registered_under_its_handle() {
    let event = epoll_event { events: EPOLLIN | EPOLLOUT | EPOLLET, data: 42 };
    assert_eq!(
        reactor().register(42),
        VclCall::EpollCtl { vep: 17, op: EPOLL_CTL_ADD, session: 42, event: Some(event) }
    );
}

#[test]
fn a_deregistered_session_is_forgotten() {
    let mut r = reactor();
    r.enlist(42, "a");
    r.enlist(43, "b");
    assert_eq!(
        r.deregister(42),
        VclCall::EpollCtl { vep: 17, op: EPOLL_CTL_DEL, session: 42, event: None }
    );
    assert_eq!(r.waiter(42), None);
    assert_eq!(r.waiter(43), Some(&"b"));
    let drained = r.drain_events(2, &[event(42), event(43), event(0)]);
    assert_eq!(drained, Drained { notify: vec![43], again: false });
}

#[test]
fn a_session_is_deregistered_before_it_is_closed() {
    let mut r = reactor();
    r.enlist(42, "a");
    assert_eq!(
        r.retire(SessionHandle(42)),
        [
            VclCall::EpollCtl { vep: 17, op: EPOLL_CTL_DEL, session: 42, event: None },
            VclCall::SessionClose { session: 42 },
        ]
    );
    assert_eq!(r.waiter(42), None);
}

#[test]
fn a_session_keeps_its_notifier() {
    let mut r = reactor();
    r.enlist(42, "first");
    r.enlist(42, "second");
    assert_eq!(r.waiter(42), Some(&"first"));
    let (_, step) = r.wait_readable(42, "third", 1000, 500);
    assert_eq!(step, WaitStep::Do(WaitOp::Select { deadline: 1500 }));
    assert_eq!(r.waiter(42), Some(&"first"));
    let (_, step) = r.wait_writable(7, "fresh", 1000, u128::MAX);
    assert_eq!(step, WaitStep::Do(WaitOp::Select { deadline: u128::MAX }));
    assert_eq!(r.waiter(7), Some(&"fresh"));
}

#[test]
fn events_wake_their_own_waiters() {
    let mut r = reactor();
    r.enlist(1, "a");
    r.enlist(2, "b");
    let events = [event(2), event(9), event(1), event(2), event(1)];
    assert_eq!(
        r.drain_events(4, &events),
        Drained { notify: vec![2, 1, 2], again: false }
    );
    assert_eq!(
        r.drain_events(5, &events),
        Drained { notify: vec![2, 1, 2, 1], again: true }
    );
    // The session is the low word of the data.
    assert_eq!(r.drain_events(1, &[event(0xffff_0000_0001), event(1)]).notify, [1]);
}

#[test]
fn an_empty_batch_ends_the_drain() {
    let r = reactor();
    assert_eq!(r.drain_events(0, &[event(1)]), Drained { notify: vec![], again: false });
    assert_eq!(r.drain_events(-5, &[event(1)]), Drained { notify: vec![], again: false });
    assert_eq!(
        r.drain_call(),
        VclCall::EpollWait { vep: 17, max_events: 64, wait_ms: 0 }
    );
}

#[test]
fn a_wait_ends_for_its_own_session() {
    let mut r = reactor();
    let (s, _) = r.wait_readable(42, "n", 0, 100);
    let (s, step) = s.step(Wake::Queue(Ok(())));
    assert_eq!(step, WaitStep::Do(WaitOp::DrainAndCheck));
    let (s, step) = s.step(Wake::Checked(false));
    assert_eq!(step, WaitStep::Do(WaitOp::Select { deadline: 100 }));
    let (done, step) = s.step(Wake::Notified);
    assert_eq!(step, WaitStep::Done(Ok(())));
    assert_eq!(done.step(Wake::Expired).1, WaitStep::Ignored);
    let (_, step) = s.step(Wake::Expired);
    assert_eq!(step, WaitStep::Done(Err(VclError::Timeout)));
    let (s, _) = s.step(Wake::Queue(Ok(())));
    let (_, step) = s.step(Wake::Checked(true));
    assert_eq!(step, WaitStep::Done(Ok(())));
}

#[test]
fn a_failed_queue_ends_the_wait() {
    let mut r = reactor();
    let (s, _) = r.wait_writable(42, "n", 0, 100);
    let io = IoError { kind: IoErrorKind::Os(9), message: "bad descriptor".to_owned() };
    let (_, step) = s.step(Wake::Queue(Err(io)));
    let io = IoError { kind: IoErrorKind::Os(9), message: "bad descriptor".to_owned() };
    assert_eq!(step, WaitStep::Done(Err(VclError::Io(io))));
}

/// One whole tick of a ticker that sleeps: it wakes and signals at the given times.
fn tick(t: Ticker, woke: u128, signalled: u128) -> (Ticker, TickReport, TickReport) {
    let r = reactor();
    let (t, step, stalled) = t.step(TickEvent::Woke { now: woke }, Some(&r));
    assert_eq!(step, TickStep::Drain);
    let (t, step, _) = t.step(TickEvent::Drained, Some(&r));
    assert_eq!(step, TickStep::Signal(vec![]));
    let (t, step, alive) = t.step(TickEvent::Signalled { now: signalled }, Some(&r));
    assert_eq!(step, TickStep::Sleep { nanos: 10 * MS });
    (t, stalled, alive)
}

#[test]
fn a_tick_drains_and_then_signals_everyone() {
    let mut r = reactor();
    for session in [5, 3, 8] {
        r.enlist(session, "n");
    }
    let (t, step) = Ticker::new(0);
    assert_eq!(step, TickStep::Sleep { nanos: 0 });
    assert_eq!(t.step(TickEvent::Drained, Some(&r)).1, TickStep::Ignored);
    let (t, step, _) = t.step(TickEvent::Woke { now: 10 * MS }, Some(&r));
    assert_eq!(step, TickStep::Drain);
    let (t, step, report) = t.step(TickEvent::Drained, Some(&r));
    match step {
        TickStep::Signal(mut sessions) => {
            sessions.sort();
            assert_eq!(sessions, [3, 5, 8]);
        }
        other => panic!("{other:?}"),
    }
    assert_eq!(report, TickReport::Nothing);
    let (_, step, _) = t.step(TickEvent::Signalled { now: 11 * MS }, Some(&r));
    assert_eq!(step, TickStep::Sleep { nanos: 10 * MS });
}

#[test]
fn a_ticker_ends_with_its_reactor() {
    let (t, _) = Ticker::new(0);
    let (t, step, _) = t.step::<()>(TickEvent::Woke { now: 10 * MS }, None);
    assert_eq!(step, TickStep::Stop);
    assert_eq!(t.step::<()>(TickEvent::Woke { now: 20 * MS }, None).1, TickStep::Ignored);
}

#[test]
fn stalls_are_noticed() {
    let (t, _) = Ticker::new(1000 * MS);
    let (t, stalled, _) = tick(t, 1010 * MS, 1010 * MS);
    assert_eq!(stalled, TickReport::Nothing);
    let (t, stalled, _) = tick(t, 1509 * MS, 1509 * MS);
    assert_eq!(stalled, TickReport::Nothing);
    let (t, stalled, _) = tick(t, 2009 * MS, 2009 * MS);
    assert_eq!(stalled, TickReport::Stalled { ms: 500 });
    let (t, stalled, _) = tick(t, 5000 * MS, 5000 * MS);
    assert_eq!(stalled, TickReport::Stalled { ms: 2991 });
    let (_, stalled, _) = tick(t, 4000 * MS, 4000 * MS);
    assert_eq!(stalled, TickReport::Nothing);
}

#[test]
fn life_is_told_once_a_minute() {
    let (mut t, _) = Ticker::new(0);
    for (now, want) in [
        (59_999, TickReport::Nothing),
        (60_000, TickReport::Alive),
        (60_001, TickReport::Nothing),
        (119_999, TickReport::Nothing),
        (120_500, TickReport::Alive),
    ] {
        let (next, _, alive) = tick(t, now * MS, now * MS);
        assert_eq!(alive, want);
        t = next;
    }
}
