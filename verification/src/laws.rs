//! The vault's laws.
//!
//! The contracts of `CredentialStore`'s operations on a memory-backed vault
//! are stated over an abstract store model: a map from storage keys to
//! secret values, read through `model_lookup` and changed by `insert` and
//! `remove`. The proof functions here state the laws that those contracts
//! combine into across calls: what a fresh store answers, the set/get round
//! trip, idempotent deletion, overwrite semantics, and the state after a
//! full clear.

use vstd::prelude::*;
use crate::keys::{provider_ok, storage_key_spec};
use crate::store::model_lookup;

verus! {

/// A provider with no prior `set` has nothing stored: when the store holds
/// no entry under the provider's storage key, a lookup answers `None` — so
/// `get_credential` returns `None` and `has_credential` returns `false`.
pub proof fn lemma_unset_provider_is_absent(m: Map<Seq<char>, Seq<char>>, provider: Seq<char>)
    requires
        provider_ok(provider),
        !m.contains_key(storage_key_spec(provider)),
    ensures
        model_lookup(m, storage_key_spec(provider)) is None,
{
}

/// The round-trip law: after `set(provider, value)`, a `get(provider)`
/// answers `Some(value)` and a `has(provider)` answers `true`, whatever the
/// store held before.
pub proof fn lemma_set_then_get_round_trip(
    m: Map<Seq<char>, Seq<char>>,
    provider: Seq<char>,
    value: Seq<char>,
)
    requires
        provider_ok(provider),
    ensures
        model_lookup(m.insert(storage_key_spec(provider), value), storage_key_spec(provider))
            == Some(value),
        m.insert(storage_key_spec(provider), value).contains_key(storage_key_spec(provider)),
{
}

/// Deletion is idempotent: removing a provider's entry twice in a row
/// leaves the same store as removing it once, and removing an entry that
/// does not exist leaves the store unchanged. (That neither call errors is
/// part of `remove_credential`'s own contract.)
pub proof fn lemma_remove_idempotent(m: Map<Seq<char>, Seq<char>>, provider: Seq<char>)
    requires
        provider_ok(provider),
    ensures
        m.remove(storage_key_spec(provider)).remove(storage_key_spec(provider)) == m.remove(
            storage_key_spec(provider),
        ),
        !m.contains_key(storage_key_spec(provider)) ==> m.remove(storage_key_spec(provider)) == m,
{
    assert(m.remove(storage_key_spec(provider)).remove(storage_key_spec(provider)) =~= m.remove(
        storage_key_spec(provider),
    ));
    if !m.contains_key(storage_key_spec(provider)) {
        assert(m.remove(storage_key_spec(provider)) =~= m);
    }
}

/// Overwrite, not accumulation: setting a provider twice leaves exactly the
/// second value, and the store is the same as if only the second `set` had
/// happened.
pub proof fn lemma_set_overwrites(
    m: Map<Seq<char>, Seq<char>>,
    provider: Seq<char>,
    first: Seq<char>,
    second: Seq<char>,
)
    requires
        provider_ok(provider),
    ensures
        m.insert(storage_key_spec(provider), first).insert(storage_key_spec(provider), second)
            == m.insert(storage_key_spec(provider), second),
        model_lookup(
            m.insert(storage_key_spec(provider), first).insert(storage_key_spec(provider), second),
            storage_key_spec(provider),
        ) == Some(second),
{
    assert(m.insert(storage_key_spec(provider), first).insert(storage_key_spec(provider), second)
        =~= m.insert(storage_key_spec(provider), second));
}

/// After a clear of every known provider, no provider has a stored secret:
/// a store in the state `clear_all_credentials` guarantees makes
/// `has_any_credential`'s answer `false`.
pub proof fn lemma_clear_all_leaves_none(
    before: Map<Seq<char>, Seq<char>>,
    after: Map<Seq<char>, Seq<char>>,
    providers: Seq<Seq<char>>,
)
    requires
        forall|k: Seq<char>|
            #[trigger] after.contains_key(k) <==> (before.contains_key(k) && !(exists|i: int|
                0 <= i < providers.len() && k == #[trigger] storage_key_spec(providers[i]))),
    ensures
        !(exists|i: int|
            0 <= i < providers.len() && #[trigger] after.contains_key(
                storage_key_spec(providers[i]),
            )),
{
    assert forall|i: int| 0 <= i < providers.len() implies !(#[trigger] after.contains_key(
        storage_key_spec(providers[i]),
    )) by {
        let k = storage_key_spec(providers[i]);
        assert(exists|j: int|
            0 <= j < providers.len() && k == #[trigger] storage_key_spec(providers[j]));
    }
}

} // verus!
