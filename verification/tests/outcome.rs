use pwrite_stream::outcome::SessionOutcome;

#[test]
fn status_zero_without_failed_callback_is_success() {
    assert_eq!(SessionOutcome::from_backend(false, 0, None), SessionOutcome::Success);
    assert_eq!(
        SessionOutcome::from_backend(false, 0, Some("ignored".to_string())),
        SessionOutcome::Success
    );
}

#[test]
fn status_zero_with_failed_callback_is_io_failure() {
    assert_eq!(SessionOutcome::from_backend(true, 0, None), SessionOutcome::IoFailure);
}

#[test]
fn nonzero_status_with_diagnostic_is_backend_failure() {
    for status in [1, -1, 2, i32::MAX, i32::MIN] {
        assert_eq!(
            SessionOutcome::from_backend(false, status, Some("no target".to_string())),
            SessionOutcome::BackendFailure("no target".to_string())
        );
        assert_eq!(
            SessionOutcome::from_backend(true, status, Some("no target".to_string())),
            SessionOutcome::BackendFailure("no target".to_string())
        );
    }
}

#[test]
fn nonzero_status_without_diagnostic_is_io_failure() {
    assert_eq!(SessionOutcome::from_backend(false, 1, None), SessionOutcome::IoFailure);
    assert_eq!(SessionOutcome::from_backend(true, 7, None), SessionOutcome::IoFailure);
}

#[test]
fn raw_diagnostic_is_read_only_after_a_failure() {
    assert_eq!(SessionOutcome::from_raw(false, 0, Some(b"note")), SessionOutcome::Success);
    assert_eq!(SessionOutcome::from_raw(true, 0, Some(b"note")), SessionOutcome::IoFailure);
    assert_eq!(SessionOutcome::from_raw(false, 1, None), SessionOutcome::IoFailure);
    assert_eq!(
        SessionOutcome::from_raw(false, 1, Some(b"no such target")),
        SessionOutcome::BackendFailure("no such target".to_string())
    );
    assert_eq!(
        SessionOutcome::from_raw(true, -1, Some(&[0x80, b'a'])),
        SessionOutcome::BackendFailure("\u{fffd}a".to_string())
    );
}

#[test]
fn bitcode_writer_fails_with_status_one_only() {
    assert_eq!(
        SessionOutcome::from_bitcode_writer(1),
        SessionOutcome::BackendFailure("failed to write bitcode".to_string())
    );
    assert_eq!(
        SessionOutcome::from_bitcode_writer(1).into_result(),
        Err("failed to write bitcode".to_string())
    );
    for status in [0, -1, 2, i32::MAX] {
        assert_eq!(SessionOutcome::from_bitcode_writer(status), SessionOutcome::Success);
    }
}

#[test]
fn success_becomes_ok() {
    assert_eq!(SessionOutcome::Success.into_result(), Ok(()));
    assert!(SessionOutcome::Success.is_success());
}

#[test]
fn failures_become_messages() {
    assert_eq!(
        SessionOutcome::IoFailure.into_result(),
        Err("error while writing to pwrite stream".to_string())
    );
    assert_eq!(
        SessionOutcome::BackendFailure("bad triple".to_string()).into_result(),
        Err("bad triple".to_string())
    );
    assert_eq!(
        SessionOutcome::ProtocolMisuse("illegal seek".to_string()).into_result(),
        Err("illegal seek".to_string())
    );
    assert!(!SessionOutcome::IoFailure.is_success());
    assert!(!SessionOutcome::BackendFailure(String::new()).is_success());
    assert!(!SessionOutcome::ProtocolMisuse(String::new()).is_success());
}
