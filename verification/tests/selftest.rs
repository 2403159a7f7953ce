use credvault::store::MemoryStore;
use credvault::vault::{
    classify_readback, classify_write_failure, Backend, CredentialError, CredentialStore,
    SelfTestReport,
};

fn memory_vault() -> CredentialStore {
    CredentialStore::with_providers(
        "com.chat.app".to_string(),
        vec!["openrouter".to_string(), "gemini".to_string()],
        Backend::Memory(MemoryStore::new()),
    )
}

#[test]
fn self_test_round_trips_and_cleans_up() {
    let mut vault = memory_vault();
    let report = vault.test_keychain_access();
    assert_eq!(report, SelfTestReport::Pass { cleanup_ok: true });
    assert!(report.is_pass());
    // The reserved test credential is gone after cleanup.
    assert_eq!(vault.has_credential("test-provider"), Ok(false));
}

#[test]
fn self_test_leaves_real_credentials_alone() {
    let mut vault = memory_vault();
    assert_eq!(vault.set_credential("openrouter", "sk-abc123"), Ok(()));
    let report = vault.test_keychain_access();
    assert!(report.is_pass());
    assert_eq!(
        vault.get_credential("openrouter"),
        Ok(Some("sk-abc123".to_string()))
    );
}

#[test]
fn readback_of_the_exact_test_value_is_a_pass() {
    let report = classify_readback(Ok(Some("test-value".to_string())), true);
    assert_eq!(report, SelfTestReport::Pass { cleanup_ok: true });
}

#[test]
fn readback_of_a_different_value_is_a_mismatch_with_lengths_only() {
    let report = classify_readback(Ok(Some("wrong".to_string())), true);
    assert_eq!(
        report,
        SelfTestReport::Mismatch {
            expected_len: 10,
            actual_len: 5,
            cleanup_ok: true,
        }
    );
}

#[test]
fn absent_readback_is_the_consistency_anomaly() {
    let report = classify_readback(Ok(None), false);
    assert_eq!(report, SelfTestReport::MissingAfterWrite { cleanup_ok: false });
}

#[test]
fn failed_readback_carries_the_store_error() {
    let report = classify_readback(
        Err(CredentialError::StoreError("keychain locked".to_string())),
        true,
    );
    assert_eq!(
        report,
        SelfTestReport::ReadFailed {
            detail: "secret store error: keychain locked".to_string(),
            cleanup_ok: true,
        }
    );
}

#[test]
fn cleanup_outcome_never_changes_the_verdict() {
    let pass_ok = classify_readback(Ok(Some("test-value".to_string())), true);
    let pass_bad = classify_readback(Ok(Some("test-value".to_string())), false);
    assert!(pass_ok.is_pass());
    assert!(pass_bad.is_pass());
    let miss_ok = classify_readback(Ok(None), true);
    let miss_bad = classify_readback(Ok(None), false);
    assert_eq!(miss_ok, SelfTestReport::MissingAfterWrite { cleanup_ok: true });
    assert_eq!(miss_bad, SelfTestReport::MissingAfterWrite { cleanup_ok: false });
}

#[test]
fn failed_write_stops_the_diagnostic_with_the_storage_failure() {
    let report =
        classify_write_failure(CredentialError::StoreError("permission denied".to_string()));
    assert_eq!(
        report,
        SelfTestReport::WriteFailed {
            detail: "secret store error: permission denied".to_string(),
        }
    );
    assert!(!report.is_pass());
}

#[test]
fn pass_report_message() {
    let report = SelfTestReport::Pass { cleanup_ok: true };
    assert_eq!(
        report.message(),
        "self-test passed: the test credential was stored and read back intact"
    );
}

#[test]
fn pass_report_message_notes_failed_cleanup() {
    let report = SelfTestReport::Pass { cleanup_ok: false };
    assert_eq!(
        report.message(),
        "self-test passed: the test credential was stored and read back intact; cleanup of the test credential failed"
    );
}

#[test]
fn mismatch_report_message_carries_lengths_only() {
    let report = SelfTestReport::Mismatch {
        expected_len: 10,
        actual_len: 4,
        cleanup_ok: true,
    };
    assert_eq!(
        report.message(),
        "self-test failed: the value read back does not match the one written (expected length 10, actual length 4)"
    );
    assert!(!report.is_pass());
}

#[test]
fn missing_after_write_report_message() {
    let report = SelfTestReport::MissingAfterWrite { cleanup_ok: true };
    assert_eq!(
        report.message(),
        "self-test failed: the write reported success but no value could be read back"
    );
    assert!(!report.is_pass());
}

#[test]
fn failure_report_messages_carry_the_cause() {
    let write = SelfTestReport::WriteFailed {
        detail: "keychain locked".to_string(),
    };
    assert_eq!(
        write.message(),
        "self-test failed: could not store the test credential: keychain locked"
    );
    let read = SelfTestReport::ReadFailed {
        detail: "keychain locked".to_string(),
        cleanup_ok: false,
    };
    assert_eq!(
        read.message(),
        "self-test failed: could not read the test credential back: keychain locked; cleanup of the test credential failed"
    );
}
