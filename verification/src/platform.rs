//! The trusted boundary to the platform secret store.
//!
//! Every call into the `keyring` crate is made here, behind a small wrapper
//! whose contract Verus believes. What the platform store answers depends on
//! state outside this process (the OS keychain, its access rules, other
//! processes), so no wrapper promises anything about the value that comes
//! back: each one only converts the outcome into a plain value of the
//! library, and the verified vault logic says what is returned for every
//! possible outcome.

use vstd::prelude::*;

verus! {

/// Why a platform store access failed to produce a value.
///
/// The vault's semantics need exactly one distinction from the platform
/// store: "no such entry" versus every other failure. The former is a valid
/// answer (absence), never an error; the latter carries the underlying
/// cause's description.
#[derive(Debug, PartialEq, Eq)]
pub enum StoreFault {
    /// No entry exists under the storage key.
    Missing,
    /// Any other platform failure, described by the underlying error.
    Failed(String),
}

/// The handle type of the platform secret store.
///
/// `keyring::Entry` identifies one credential by a (service, user) pair of
/// names. A value of it is opaque here; it is only carried from the wrapper
/// that builds it to the wrappers that read, write, or delete through it.
#[verifier::external_type_specification]
#[verifier::external_body]
pub struct ExEntry(keyring::Entry);

/// Relies on `keyring::Entry::new`: builds the credential entry identified
/// by the given service and user names in the default credential store.
/// Whether building succeeds depends on the platform; on failure the error's
/// description is returned.
#[verifier::external_body]
pub(crate) fn entry_new(service: &str, user: &str) -> (r: Result<keyring::Entry, String>) {
    keyring::Entry::new(service, user).map_err(|e| e.to_string())
}

/// Relies on `keyring::Entry::get_password`: returns the password held by
/// the underlying platform credential, `Err(keyring::Error::NoEntry)` when
/// none exists. The answer depends on the platform store's state, so nothing
/// is promised of it.
#[verifier::external_body]
pub(crate) fn entry_get_password(entry: &keyring::Entry) -> (r: Result<String, StoreFault>) {
    match entry.get_password() {
        Ok(v) => Ok(v),
        Err(keyring::Error::NoEntry) => Err(StoreFault::Missing),
        Err(e) => Err(StoreFault::Failed(e.to_string())),
    }
}

/// Relies on `keyring::Entry::set_password`: stores the given password in
/// the underlying platform credential, creating or overwriting it. Success
/// depends on the platform store, so nothing is promised of the outcome.
#[verifier::external_body]
pub(crate) fn entry_set_password(entry: &keyring::Entry, value: &str) -> (r: Result<(), String>) {
    entry.set_password(value).map_err(|e| e.to_string())
}

/// Relies on `keyring::Entry::delete_credential`: deletes the underlying
/// platform credential, `Err(keyring::Error::NoEntry)` when none exists.
#[verifier::external_body]
pub(crate) fn entry_delete(entry: &keyring::Entry) -> (r: Result<(), StoreFault>) {
    match entry.delete_credential() {
        Ok(()) => Ok(()),
        Err(keyring::Error::NoEntry) => Err(StoreFault::Missing),
        Err(e) => Err(StoreFault::Failed(e.to_string())),
    }
}

} // verus!
