use gputools_replay::replay::error::SessionError;
use gputools_replay::replay::session::{
    apr_verdict, check_bundle_shape, load_verdict, observed_message, open_step, path_not_utf8,
    service_verdict, unlock_error, ErrorLog, Observed, SessionGate,
};
use gputools_replay::sys::env::check_unlock_env;

#[test]
fn missing_bundle_is_rejected_without_touching_globals() {
    let err = check_bundle_shape("/nonexistent.gputrace", false, false, false);
    match err {
        Err(SessionError::BadBundle(m)) => assert_eq!(m, "no capture bundle at /nonexistent.gputrace"),
        _ => panic!("a missing bundle must be refused"),
    }
}

#[test]
fn the_first_missing_entry_is_named() {
    match check_bundle_shape("/b.gputrace", true, false, false) {
        Err(SessionError::BadBundle(m)) => {
            assert_eq!(m, "/b.gputrace is not a capture bundle: it has no index file")
        }
        _ => panic!(),
    }
    match check_bundle_shape("/b.gputrace", true, true, false) {
        Err(SessionError::BadBundle(m)) => {
            assert_eq!(m, "/b.gputrace is not a capture bundle: it has no metadata file")
        }
        _ => panic!(),
    }
    assert!(check_bundle_shape("/b.gputrace", true, true, true).is_ok());
    assert!(matches!(path_not_utf8("/x"), SessionError::BadBundle(_)));
}

#[test]
fn bootstrap_and_service_verdicts() {
    assert!(matches!(apr_verdict(-3, false), Err(SessionError::Apr { code: -3 })));
    assert!(matches!(apr_verdict(0, true), Err(SessionError::Apr { code: 0 })));
    assert!(apr_verdict(0, false).is_ok());
    assert!(matches!(service_verdict(false, false), Err(SessionError::Replayer { .. })));
    assert!(matches!(service_verdict(true, false), Err(SessionError::Replayer { .. })));
    assert!(service_verdict(true, true).is_ok());
    let unlock = unlock_error(&check_unlock_env(None).unwrap_err());
    match unlock {
        SessionError::UnlockEnv(m) => assert!(m.contains("(found None)")),
        _ => panic!(),
    }
}

#[test]
fn the_load_error_comes_before_the_observer_and_the_return_value() {
    match load_verdict(Err("boom".to_string()), Some("seen".to_string()), "/b") {
        Err(SessionError::Replayer { message }) => assert_eq!(message, "boom"),
        _ => panic!(),
    }
    match load_verdict(Ok(false), Some("seen".to_string()), "/b") {
        Err(SessionError::Replayer { message }) => assert_eq!(message, "seen"),
        _ => panic!(),
    }
    match load_verdict(Ok(false), None, "/b") {
        Err(SessionError::LoadFailed { bundle }) => assert_eq!(bundle, "/b"),
        _ => panic!(),
    }
    assert!(load_verdict(Ok(true), None, "/b").is_ok());
}

#[test]
fn an_error_recorded_after_a_mark_is_seen_since_that_mark() {
    let mut log = ErrorLog::new();
    assert_eq!(log.first_error(), None);
    log.record("earlier".to_string());
    let mark = log.error_count();
    assert_eq!(log.first_error_since(mark), None);
    log.record("during".to_string());
    log.record("later".to_string());
    assert_eq!(log.first_error_since(mark).as_deref(), Some("during"));
    assert_eq!(log.first_error().as_deref(), Some("earlier"));
    assert_eq!(log.first_error_since(99), None);
}

#[test]
fn observed_descriptions_are_trimmed() {
    assert_eq!(observed_message(&Observed::Nil), "(nil)");
    assert_eq!(observed_message(&Observed::Opaque), "(no description)");
    assert_eq!(observed_message(&Observed::Error("short".to_string())), "short");
    let long = "x".repeat(600);
    let m = observed_message(&Observed::Object(long));
    assert_eq!(m, format!("{} ... (truncated)", "x".repeat(512)));
}

#[test]
fn a_second_bootstrap_is_refused() {
    let mut gate = SessionGate::new();
    assert!(gate.claim().is_ok());
    assert!(matches!(gate.claim(), Err(SessionError::AlreadyOpen)));
    assert!(matches!(gate.claim(), Err(SessionError::AlreadyOpen)));
}

#[test]
fn a_refused_open_leaves_the_one_shot_claim_for_a_later_open() {
    let mut gate = SessionGate::new();
    let unset = check_unlock_env(None);
    match open_step(&mut gate, "/b.gputrace", true, true, true, true, &unset) {
        Err(SessionError::UnlockEnv(m)) => assert!(m.starts_with("MTLREPLAYER_LOCK_PARAM_BUFFER_SIZE_TO_MAX must be set")),
        other => panic!("unexpected: {:?}", other),
    }
    match open_step(&mut gate, "/b.gputrace", true, false, true, true, &Ok(())) {
        Err(SessionError::BadBundle(m)) => {
            assert_eq!(m, "/b.gputrace is not a capture bundle: it has no index file")
        }
        other => panic!("unexpected: {:?}", other),
    }
    match open_step(&mut gate, "/b.gputrace", true, true, true, false, &Ok(())) {
        Err(SessionError::BadBundle(m)) => assert_eq!(m, "bundle path /b.gputrace is not valid UTF-8"),
        other => panic!("unexpected: {:?}", other),
    }
    let ok = check_unlock_env(Some("0"));
    assert!(open_step(&mut gate, "/b.gputrace", true, true, true, true, &ok).is_ok());
    assert!(matches!(
        open_step(&mut gate, "/b.gputrace", true, true, true, true, &ok),
        Err(SessionError::AlreadyOpen)
    ));
}
