use vcl_rs::app::{AppInit, Destroyed, InitStep};
use vcl_rs::error::{ErrnoCodes, VclError};
use vcl_rs::ffi::VclCall;
use vcl_rs::VclApp;

fn failed(step: InitStep) -> (VclError, bool) {
    match step {
        InitStep::Failed { error, claimed } => (error, claimed),
        other => panic!("{other:?}"),
    }
}

fn creating() -> AppInit {
    let (s, step) = VclApp::init(false, "imp-bgpd");
    assert!(matches!(step, InitStep::CreateApp(name) if name == "imp-bgpd"));
    s
}

#[test]
fn an_application_is_created_once() {
    let (s, step) = creating().created(0, None);
    assert!(matches!(step, InitStep::ProbeEventfd));
    let (s, step) = s.probed(1);
    let InitStep::Created(app) = step else {
        panic!("not created");
    };
    assert!(matches!(s.probed(1).1, InitStep::Ignored));
    assert!(matches!(s.created(0, None).1, InitStep::Ignored));
    let (e, claimed) = failed(VclApp::init(true, "imp-bgpd").1);
    assert_eq!(e, VclError::Api("VCL already initialized".to_owned(), -1));
    assert!(claimed);
    // Once it is destroyed another one may be created.
    let end = app.destroy();
    assert_eq!(end, Destroyed { call: VclCall::AppDestroy, claimed: false });
    assert!(matches!(VclApp::init(end.claimed, "imp-bgpd").1, InitStep::CreateApp(_)));
}

#[test]
fn a_name_with_nul_is_refused() {
    for name in ["\0", "imp\0bgpd", "imp-bgpd\0"] {
        let (e, claimed) = failed(VclApp::init(false, name).1);
        assert_eq!(e, VclError::Api("invalid app name".to_owned(), -1));
        assert!(claimed);
    }
    assert!(matches!(VclApp::init(false, "").1, InitStep::CreateApp(_)));
    assert!(matches!(VclApp::init(false, "größe").1, InitStep::CreateApp(_)));
}

#[test]
fn a_failed_creation_may_be_tried_again() {
    let (_, step) = creating().created(-111, Some("connection refused"));
    let (e, claimed) = failed(step);
    assert_eq!(e, VclError::Api("connection refused".to_owned(), -111));
    assert!(!claimed);
}

#[test]
fn a_creation_goes_by_given_numbers() {
    let codes = ErrnoCodes {
        would_block: 1,
        again: 2,
        in_progress: 3,
        not_connected: 4,
        connection_reset: 5,
        broken_pipe: 6,
    };
    let (e, claimed) = failed(creating().created_with(-6, &codes, None).1);
    assert_eq!(e, VclError::Closed);
    assert!(!claimed);
    assert!(matches!(creating().created_with(0, &codes, None).1, InitStep::ProbeEventfd));
}

#[test]
fn an_application_needs_an_event_descriptor() {
    assert!(matches!(creating().probed(1).1, InitStep::Ignored));
    let (s, _) = creating().created(0, None);
    let (e, claimed) = failed(s.probed(0).1);
    let message = "VLS requires use-mq-eventfd in vcl.conf for tokio integration";
    assert_eq!(e, VclError::Api(message.to_owned(), -1));
    assert!(claimed);
}
