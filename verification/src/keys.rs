//! Derivation of storage keys from provider identifiers.
//!
//! Every secret is stored in the platform secret store under a key derived
//! deterministically from the provider identifier: `<provider>-api-key`.
//! The key is recomputed on every access and never stored.

use vstd::prelude::*;
use vstd::string::StringExecFns;

verus! {

/// A provider identifier is usable only if it is non-empty: platform secret
/// stores treat an empty name as a wildcard on lookup, which must be rejected
/// before any storage key is derived.
pub open spec fn provider_ok(provider: Seq<char>) -> bool {
    provider.len() > 0
}

/// The storage key under which a provider's secret lives: `<provider>-api-key`.
pub open spec fn storage_key_spec(provider: Seq<char>) -> Seq<char> {
    provider + "-api-key"@
}

/// Computes the storage key for a provider identifier.
pub fn storage_key(provider: &str) -> (r: String)
    ensures
        r@ == storage_key_spec(provider@),
{
    let mut key = provider.to_owned();
    key.append("-api-key");
    key
}

} // verus!
