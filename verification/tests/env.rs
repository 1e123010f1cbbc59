use gputools_replay::sys::env::{check_unlock_env, UNLOCK_ENV};

#[test]
fn the_literal_zero_is_accepted() {
    assert!(check_unlock_env(Some("0")).is_ok());
}

#[test]
fn an_unset_variable_is_refused_and_named() {
    let err = check_unlock_env(None).unwrap_err();
    assert_eq!(err.found, None);
    assert!(err
        .message()
        .contains("MTLREPLAYER_LOCK_PARAM_BUFFER_SIZE_TO_MAX"));
}

#[test]
fn the_default_locked_setting_is_refused_and_reported() {
    let err = check_unlock_env(Some("1")).unwrap_err();
    assert_eq!(err.found.as_deref(), Some("1"));
}

#[test]
fn only_the_literal_zero_disables_the_lock() {
    for value in ["00", "0.0", " 0", "false", ""] {
        assert!(
            check_unlock_env(Some(value)).is_err(),
            "{value:?} was accepted"
        );
    }
}

#[test]
fn the_message_quotes_what_was_found() {
    let err = check_unlock_env(Some("1")).unwrap_err();
    assert_eq!(
        err.message(),
        format!(
            "{UNLOCK_ENV} must be set to \"0\" before any replay bootstrap (found Some(\"1\")); \
             without it the replayer cannot create its command queue in an unentitled process"
        )
    );
    let unset = check_unlock_env(None).unwrap_err();
    assert!(unset.message().contains("(found None)"));
}
