use credvault::keys::storage_key;
use credvault::platform::StoreFault;
use credvault::vault::{CredentialError, CredentialStore, SelfTestReport};
use credvault::vault::{resolve_lookup, resolve_removal, resolve_write, store_failure};

// These tests run against the credential store that the keyring crate
// provides when no platform keystore is configured: entries are built, read,
// written, and deleted through the real `keyring::Entry` calls, but nothing
// persists across entries, so a fresh lookup always reports absence.

#[test]
fn storage_keys_are_derived_from_the_provider() {
    assert_eq!(storage_key("openrouter"), "openrouter-api-key");
    assert_eq!(storage_key("gemini"), "gemini-api-key");
    assert_eq!(storage_key("test-provider"), "test-provider-api-key");
}

#[test]
fn platform_vault_rejects_empty_provider_before_any_store_access() {
    let mut vault = CredentialStore::new("com.chat.app".to_string());
    assert_eq!(
        vault.get_credential(""),
        Err(CredentialError::InvalidProvider)
    );
    assert_eq!(
        vault.set_credential("", "value"),
        Err(CredentialError::InvalidProvider)
    );
    assert_eq!(
        vault.remove_credential(""),
        Err(CredentialError::InvalidProvider)
    );
}

#[test]
fn platform_vault_reports_absence_as_a_value() {
    let vault = CredentialStore::new("com.chat.app".to_string());
    assert_eq!(vault.get_credential("openrouter"), Ok(None));
    assert_eq!(vault.has_credential("openrouter"), Ok(false));
    assert_eq!(vault.has_any_credential(), Ok(false));
}

#[test]
fn platform_vault_folds_missing_entries_into_removal_success() {
    let mut vault = CredentialStore::new("com.chat.app".to_string());
    assert_eq!(vault.remove_credential("openrouter"), Ok(()));
    assert_eq!(vault.clear_all_credentials(), Ok(()));
}

#[test]
fn platform_vault_accepts_writes() {
    let mut vault = CredentialStore::new("com.chat.app".to_string());
    assert_eq!(vault.set_credential("openrouter", "sk-abc123"), Ok(()));
}

#[test]
fn platform_self_test_detects_a_store_without_read_after_write() {
    // The unconfigured keyring store accepts a write but holds it only in
    // the entry that wrote it, so the read-back phase finds nothing: the
    // self-test must report exactly that anomaly, with the cleanup still
    // counted as success because the entry was already absent.
    let mut vault = CredentialStore::new("com.chat.app".to_string());
    let report = vault.test_keychain_access();
    assert_eq!(report, SelfTestReport::MissingAfterWrite { cleanup_ok: true });
    assert!(!report.is_pass());
}

#[test]
fn lookup_outcomes_resolve_to_the_vault_answer() {
    assert_eq!(
        resolve_lookup(Ok("sk-abc123".to_string())),
        Ok(Some("sk-abc123".to_string()))
    );
    assert_eq!(resolve_lookup(Err(StoreFault::Missing)), Ok(None));
    assert_eq!(
        resolve_lookup(Err(StoreFault::Failed("keychain locked".to_string()))),
        Err(CredentialError::StoreError("keychain locked".to_string()))
    );
}

#[test]
fn write_outcomes_resolve_to_the_vault_answer() {
    assert_eq!(resolve_write(Ok(())), Ok(()));
    assert_eq!(
        resolve_write(Err("permission denied".to_string())),
        Err(CredentialError::StoreError("permission denied".to_string()))
    );
}

#[test]
fn unreachable_store_wraps_the_cause() {
    assert_eq!(
        store_failure::<bool>("no credential builder".to_string()),
        Err(CredentialError::StoreError(
            "no credential builder".to_string()
        ))
    );
}

#[test]
fn removal_outcomes_resolve_to_idempotent_success() {
    assert_eq!(resolve_removal(Ok(())), Ok(()));
    assert_eq!(resolve_removal(Err(StoreFault::Missing)), Ok(()));
    assert_eq!(
        resolve_removal(Err(StoreFault::Failed("keychain locked".to_string()))),
        Err(CredentialError::StoreError("keychain locked".to_string()))
    );
}
