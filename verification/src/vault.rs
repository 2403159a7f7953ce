//! The credential vault.
//!
//! A vault owns one immutable namespace (the service name under which all of
//! its storage keys are scoped) and a set of known provider identifiers. It
//! maps each provider to a storage key and performs get/set/delete through a
//! secret store: either the platform keychain, reached through the trusted
//! wrappers of `platform`, or the in-process `MemoryStore`, whose behaviour
//! is verified exactly.
//!
//! Failure semantics: "no such entry" is a valid answer (`None`, or
//! idempotent success of a removal), never an error. An empty provider
//! identifier is rejected as `InvalidProvider` before any store access. Every
//! other store failure is a single `StoreError` carrying the underlying
//! cause's description — except inside `clear_all_credentials`, which
//! deliberately swallows per-provider failures to guarantee best-effort
//! clearing.

use vstd::prelude::*;
use vstd::string::StringExecFns;
use vstd::string::StrSliceExecFns;
use crate::keys::{provider_ok, storage_key, storage_key_spec};
use crate::store::{model_lookup, opt_view, MemoryStore};
use crate::platform::{entry_delete, entry_get_password, entry_new, entry_set_password, StoreFault};

verus! {

/// Why a vault operation failed.
#[derive(Debug, PartialEq, Eq)]
pub enum CredentialError {
    /// The provider identifier is empty; it was rejected before any store
    /// access.
    InvalidProvider,
    /// The platform secret store failed for any reason other than "no such
    /// entry"; the description of the underlying cause is carried.
    StoreError(String),
}

impl CredentialError {
    /// What `message` returns for each variant.
    pub open spec fn message_view(&self) -> Seq<char> {
        match self {
            CredentialError::InvalidProvider => "invalid provider: provider name cannot be empty"@,
            CredentialError::StoreError(cause) => "secret store error: "@ + cause@,
        }
    }

    /// A human-readable description of the error.
    pub fn message(&self) -> (r: String)
        ensures
            r@ == self.message_view(),
    {
        match self {
            CredentialError::InvalidProvider => "invalid provider: provider name cannot be empty".to_owned(),
            CredentialError::StoreError(cause) => {
                let mut m = "secret store error: ".to_owned();
                m.append(cause.as_str());
                m
            },
        }
    }
}

/// A read-only snapshot of the known providers' credentials: an optional
/// secret value per provider. Constructed on demand; never persisted.
#[derive(Debug, Clone, PartialEq, Eq)]
pub struct ApiKeys {
    pub openrouter: Option<String>,
    pub gemini: Option<String>,
}

/// The verdict of the vault's self-test.
///
/// The self-test distinguishes "the write appeared to succeed" from
/// "read-after-write is consistent", so that an entitlement or permission
/// misconfiguration of the platform store can be told apart from a code
/// defect. The report carries only lengths, booleans, and store error
/// descriptions — never the credential material itself.
#[derive(Debug, PartialEq, Eq)]
pub enum SelfTestReport {
    /// The test credential was written, read back intact, and the verdict is
    /// a pass; `cleanup_ok` records whether the cleanup removal succeeded,
    /// without changing the verdict.
    Pass { cleanup_ok: bool },
    /// A value was read back but it differs from the one written; only the
    /// two lengths are reported.
    Mismatch { expected_len: usize, actual_len: usize, cleanup_ok: bool },
    /// The write reported success, yet no value could be read back: a store
    /// consistency anomaly.
    MissingAfterWrite { cleanup_ok: bool },
    /// Reading the test credential back failed with a store error.
    ReadFailed { detail: String, cleanup_ok: bool },
    /// Storing the test credential failed; no further phases ran.
    WriteFailed { detail: String },
}

impl SelfTestReport {
    /// Whether the verdict is a pass.
    pub fn is_pass(&self) -> (r: bool)
        ensures
            r == (self is Pass),
    {
        match self {
            SelfTestReport::Pass { .. } => true,
            _ => false,
        }
    }

    /// A human-readable summary of the verdict, naming the phase that
    /// failed, if any. Reports lengths and booleans only, never credential
    /// content. The mismatch summary embeds the two lengths in decimal, so
    /// its contract fixes the variant-identifying prefix; every other
    /// summary is fixed exactly.
    pub fn message(&self) -> (r: String)
        ensures
            (match self {
                SelfTestReport::Pass { cleanup_ok } => r@ == (if *cleanup_ok {
                    "self-test passed: the test credential was stored and read back intact"@
                } else {
                    "self-test passed: the test credential was stored and read back intact"@
                        + "; cleanup of the test credential failed"@
                }),
                SelfTestReport::Mismatch { .. } => (
                "self-test failed: the value read back does not match the one written (expected length "@).is_prefix_of(
                    r@,
                ),
                SelfTestReport::MissingAfterWrite { cleanup_ok } => r@ == (if *cleanup_ok {
                    "self-test failed: the write reported success but no value could be read back"@
                } else {
                    "self-test failed: the write reported success but no value could be read back"@
                        + "; cleanup of the test credential failed"@
                }),
                SelfTestReport::ReadFailed { detail, cleanup_ok } => r@ == (if *cleanup_ok {
                    "self-test failed: could not read the test credential back: "@ + detail@
                } else {
                    "self-test failed: could not read the test credential back: "@ + detail@
                        + "; cleanup of the test credential failed"@
                }),
                SelfTestReport::WriteFailed { detail } => r@
                    == "self-test failed: could not store the test credential: "@ + detail@,
            }),
    {
        let mut m = match self {
            SelfTestReport::Pass { .. } => {
                "self-test passed: the test credential was stored and read back intact".to_owned()
            },
            SelfTestReport::Mismatch { expected_len, actual_len, .. } => {
                let mut s =
                    "self-test failed: the value read back does not match the one written (expected length ".to_owned();
                let expected_str = expected_len.to_string();
                s.append(expected_str.as_str());
                s.append(", actual length ");
                let actual_str = actual_len.to_string();
                s.append(actual_str.as_str());
                s.append(")");
                s
            },
            SelfTestReport::MissingAfterWrite { .. } => {
                "self-test failed: the write reported success but no value could be read back".to_owned()
            },
            SelfTestReport::ReadFailed { detail, .. } => {
                let mut s = "self-test failed: could not read the test credential back: ".to_owned();
                s.append(detail.as_str());
                s
            },
            SelfTestReport::WriteFailed { detail } => {
                let mut s = "self-test failed: could not store the test credential: ".to_owned();
                s.append(detail.as_str());
                s
            },
        };
        let cleanup_failed = match self {
            SelfTestReport::Pass { cleanup_ok } => !*cleanup_ok,
            SelfTestReport::Mismatch { cleanup_ok, .. } => !*cleanup_ok,
            SelfTestReport::MissingAfterWrite { cleanup_ok } => !*cleanup_ok,
            SelfTestReport::ReadFailed { cleanup_ok, .. } => !*cleanup_ok,
            SelfTestReport::WriteFailed { .. } => false,
        };
        if cleanup_failed {
            m.append("; cleanup of the test credential failed");
        }
        proof {
            if self is Mismatch {
                let header =
                    "self-test failed: the value read back does not match the one written (expected length "@;
                assert(header =~= m@.subrange(0, header.len() as int));
            }
        }
        m
    }
}

/// The secret store behind a vault.
pub enum Backend {
    /// The platform secret store, reached through the `keyring` crate.
    Platform,
    /// An in-process store with exactly the semantics the vault's laws state.
    Memory(MemoryStore),
}

/// A namespace-scoped credential vault over a secret store.
pub struct CredentialStore {
    service_name: String,
    providers: Vec<String>,
    backend: Backend,
}

/// Turns a platform lookup outcome into the vault's answer: a present value
/// is the value, a missing entry is `None`, and any other failure is a
/// `StoreError`. This function decides the vault's read semantics for every
/// possible store outcome.
pub fn resolve_lookup(outcome: Result<String, StoreFault>) -> (r: Result<
    Option<String>,
    CredentialError,
>)
    ensures
        r == (match outcome {
            Ok(v) => Ok::<Option<String>, CredentialError>(Some(v)),
            Err(StoreFault::Missing) => Ok(None),
            Err(StoreFault::Failed(m)) => Err(CredentialError::StoreError(m)),
        }),
{
    match outcome {
        Ok(v) => Ok(Some(v)),
        Err(StoreFault::Missing) => Ok(None),
        Err(StoreFault::Failed(m)) => Err(CredentialError::StoreError(m)),
    }
}

/// Turns a platform deletion outcome into the vault's answer: deletion of an
/// entry that is already absent is success (deletion is a set-to-absent
/// operation, and "already absent" satisfies it), and any other failure is a
/// `StoreError`. This function decides the vault's idempotent-removal
/// semantics for every possible store outcome.
pub fn resolve_removal(outcome: Result<(), StoreFault>) -> (r: Result<(), CredentialError>)
    ensures
        r == (match outcome {
            Ok(()) => Ok::<(), CredentialError>(()),
            Err(StoreFault::Missing) => Ok(()),
            Err(StoreFault::Failed(m)) => Err(CredentialError::StoreError(m)),
        }),
{
    match outcome {
        Ok(()) => Ok(()),
        Err(StoreFault::Missing) => Ok(()),
        Err(StoreFault::Failed(m)) => Err(CredentialError::StoreError(m)),
    }
}

/// Turns a platform write outcome into the vault's answer: a successful
/// write is success, and a failed one is a `StoreError` wrapping the
/// underlying cause. This function decides the vault's write semantics for
/// every possible store outcome: the result of `set` follows the write
/// outcome alone.
pub fn resolve_write(outcome: Result<(), String>) -> (r: Result<(), CredentialError>)
    ensures
        r == (match outcome {
            Ok(()) => Ok::<(), CredentialError>(()),
            Err(m) => Err(CredentialError::StoreError(m)),
        }),
{
    match outcome {
        Ok(()) => Ok(()),
        Err(m) => Err(CredentialError::StoreError(m)),
    }
}

/// The vault's answer when the platform store could not even be reached:
/// building the credential entry failed, and the failure's description is
/// wrapped as a `StoreError`.
pub fn store_failure<T>(cause: String) -> (r: Result<T, CredentialError>)
    ensures
        r == Err::<T, CredentialError>(CredentialError::StoreError(cause)),
{
    Err(CredentialError::StoreError(cause))
}

/// Classifies a failure of the self-test's write phase: the diagnostic
/// fails at once, reporting the storage failure; no further phase runs and
/// no cleanup is attempted, since nothing was stored.
pub fn classify_write_failure(e: CredentialError) -> (r: SelfTestReport)
    ensures
        (r matches SelfTestReport::WriteFailed { detail } && detail@ == e.message_view()),
{
    SelfTestReport::WriteFailed { detail: e.message() }
}

/// Classifies the self-test's read-back phase, fixing the verdict for
/// every possible outcome: reading back exactly the test value is a pass; a
/// different value is a mismatch, reported by the two lengths alone (never
/// the contents); absence despite the successful write is the store
/// consistency anomaly; and a store error is a read failure carrying its
/// description. The verdict depends on the read-back outcome alone:
/// `cleanup_ok` only records the cleanup removal's result and cannot change
/// which verdict is returned.
pub fn classify_readback(outcome: Result<Option<String>, CredentialError>, cleanup_ok: bool) -> (r:
    SelfTestReport)
    ensures
        (match outcome {
            Ok(Some(v)) => if v@ == "test-value"@ {
                r == (SelfTestReport::Pass { cleanup_ok })
            } else {
                (r matches SelfTestReport::Mismatch { expected_len, actual_len, cleanup_ok: c }
                    && expected_len == "test-value"@.len() && actual_len == v@.len() && c
                    == cleanup_ok)
            },
            Ok(None) => r == (SelfTestReport::MissingAfterWrite { cleanup_ok }),
            Err(e) => (r matches SelfTestReport::ReadFailed { detail, cleanup_ok: c } && detail@
                == e.message_view() && c == cleanup_ok),
        }),
{
    match outcome {
        Ok(Some(v)) => {
            let expected = "test-value".to_owned();
            if v == expected {
                SelfTestReport::Pass { cleanup_ok }
            } else {
                SelfTestReport::Mismatch {
                    expected_len: expected.as_str().unicode_len(),
                    actual_len: v.as_str().unicode_len(),
                    cleanup_ok,
                }
            }
        },
        Ok(None) => SelfTestReport::MissingAfterWrite { cleanup_ok },
        Err(e) => SelfTestReport::ReadFailed { detail: e.message(), cleanup_ok },
    }
}

impl CredentialStore {
    /// The vault's namespace.
    pub closed spec fn service_view(&self) -> Seq<char> {
        self.service_name@
    }

    /// The known provider identifiers, in their fixed order.
    pub closed spec fn providers_view(&self) -> Seq<Seq<char>> {
        self.providers@.map_values(|p: String| p@)
    }

    /// Whether the vault is backed by the in-process store.
    pub closed spec fn is_memory(&self) -> bool {
        self.backend is Memory
    }

    /// The contents of the backing store, when it is the in-process one.
    pub closed spec fn model(&self) -> Map<Seq<char>, Seq<char>> {
        self.backend->Memory_0.model()
    }

    /// Well-formedness: the namespace and every known provider identifier
    /// are non-empty.
    pub open spec fn wf(&self) -> bool {
        &&& self.service_view().len() > 0
        &&& forall|i: int|
            0 <= i < self.providers_view().len() ==> (#[trigger] self.providers_view()[i]).len()
                > 0
    }

    /// The configuration a vault never changes: its namespace, its provider
    /// set, and which kind of store backs it.
    pub open spec fn same_config(&self, other: &CredentialStore) -> bool {
        &&& self.service_view() == other.service_view()
        &&& self.providers_view() == other.providers_view()
        &&& self.is_memory() == other.is_memory()
    }

    /// Well-formedness depends only on the configuration, so it carries over
    /// to any vault with the same one.
    proof fn lemma_wf_from_config(a: CredentialStore, b: CredentialStore)
        requires
            a.wf(),
            a.same_config(&b),
        ensures
            b.wf(),
    {
        assert forall|i: int|
            0 <= i < b.providers_view().len() implies (#[trigger] b.providers_view()[i]).len()
            > 0 by {
            assert(a.providers_view()[i].len() > 0);
        }
    }

    /// The default provider set.
    fn default_providers() -> (r: Vec<String>)
        ensures
            r@.map_values(|p: String| p@) == seq!["openrouter"@, "gemini"@],
            forall|i: int| 0 <= i < r@.len() ==> (#[trigger] r@[i])@.len() > 0,
    {
        let mut providers: Vec<String> = Vec::new();
        providers.push("openrouter".to_owned());
        providers.push("gemini".to_owned());
        proof {
            reveal_strlit("openrouter");
            reveal_strlit("gemini");
            assert(providers@.map_values(|p: String| p@) =~= seq!["openrouter"@, "gemini"@]);
        }
        providers
    }

    /// Creates a vault over the platform secret store, scoped by the given
    /// namespace and knowing the default providers.
    pub fn new(service_name: String) -> (r: CredentialStore)
        requires
            service_name@.len() > 0,
        ensures
            r.wf(),
            !r.is_memory(),
            r.service_view() == service_name@,
            r.providers_view() == seq!["openrouter"@, "gemini"@],
    {
        Self::with_providers(service_name, Self::default_providers(), Backend::Platform)
    }

    /// Creates a vault with a caller-supplied provider set and store.
    pub fn with_providers(service_name: String, providers: Vec<String>, backend: Backend) -> (r:
        CredentialStore)
        requires
            service_name@.len() > 0,
            forall|i: int| 0 <= i < providers@.len() ==> (#[trigger] providers@[i])@.len() > 0,
        ensures
            r.wf(),
            r.service_view() == service_name@,
            r.providers_view() == providers@.map_values(|p: String| p@),
            r.is_memory() == (backend is Memory),
            r.is_memory() ==> r.model() == backend->Memory_0.model(),
    {
        let r = CredentialStore { service_name, providers, backend };
        proof {
            assert forall|i: int| 0 <= i < r.providers_view().len() implies (
            #[trigger] r.providers_view()[i]).len() > 0 by {
                assert(r.providers_view()[i] == providers@[i]@);
            }
        }
        r
    }

    /// Returns the secret stored for `provider`, or `None` when no entry
    /// exists. Read-only. An empty provider is rejected before any store
    /// access; any store failure other than "no such entry" is a
    /// `StoreError`.
    pub fn get_credential(&self, provider: &str) -> (r: Result<Option<String>, CredentialError>)
        requires
            self.wf(),
        ensures
            r == Err::<Option<String>, CredentialError>(CredentialError::InvalidProvider)
                <==> !provider_ok(provider@),
            self.is_memory() && provider_ok(provider@) ==> (r matches Ok(o) && opt_view(o)
                == model_lookup(self.model(), storage_key_spec(provider@))),
    {
        if provider.is_empty() {
            return Err(CredentialError::InvalidProvider);
        }
        let key = storage_key(provider);
        match &self.backend {
            Backend::Memory(mem) => Ok(mem.lookup(key.as_str())),
            Backend::Platform => {
                match entry_new(self.service_name.as_str(), key.as_str()) {
                    Ok(entry) => resolve_lookup(entry_get_password(&entry)),
                    Err(m) => store_failure(m),
                }
            },
        }
    }

    /// Stores `value` for `provider`, creating the entry or overwriting any
    /// previous value. An empty provider is rejected before any store
    /// access and leaves the vault untouched; the value itself is
    /// unconstrained.
    pub fn set_credential(&mut self, provider: &str, value: &str) -> (r: Result<
        (),
        CredentialError,
    >)
        requires
            old(self).wf(),
        ensures
            final(self).wf(),
            old(self).same_config(final(self)),
            r == Err::<(), CredentialError>(CredentialError::InvalidProvider) <==> !provider_ok(
                provider@,
            ),
            !provider_ok(provider@) ==> *final(self) == *old(self),
            !old(self).is_memory() ==> *final(self) == *old(self),
            old(self).is_memory() && provider_ok(provider@) ==> r == Ok::<(), CredentialError>(())
                && final(self).model() == old(self).model().insert(
                storage_key_spec(provider@),
                value@,
            ),
    {
        if provider.is_empty() {
            return Err(CredentialError::InvalidProvider);
        }
        let key = storage_key(provider);
        let r = match &mut self.backend {
            Backend::Memory(mem) => {
                mem.store(key.as_str(), value);
                Ok(())
            },
            Backend::Platform => {
                match entry_new(self.service_name.as_str(), key.as_str()) {
                    Ok(entry) => resolve_write(entry_set_password(&entry, value)),
                    Err(m) => store_failure(m),
                }
            },
        };
        proof {
            Self::lemma_wf_from_config(*old(self), *self);
        }
        r
    }

    /// Deletes the secret stored for `provider`. Idempotent: deleting an
    /// entry that does not exist is success, not an error.
    pub fn remove_credential(&mut self, provider: &str) -> (r: Result<(), CredentialError>)
        requires
            old(self).wf(),
        ensures
            final(self).wf(),
            old(self).same_config(final(self)),
            r == Err::<(), CredentialError>(CredentialError::InvalidProvider) <==> !provider_ok(
                provider@,
            ),
            !provider_ok(provider@) ==> *final(self) == *old(self),
            !old(self).is_memory() ==> *final(self) == *old(self),
            old(self).is_memory() && provider_ok(provider@) ==> r == Ok::<(), CredentialError>(())
                && final(self).model() == old(self).model().remove(storage_key_spec(provider@)),
    {
        if provider.is_empty() {
            return Err(CredentialError::InvalidProvider);
        }
        let key = storage_key(provider);
        let r = match &mut self.backend {
            Backend::Memory(mem) => {
                mem.erase(key.as_str());
                Ok(())
            },
            Backend::Platform => {
                match entry_new(self.service_name.as_str(), key.as_str()) {
                    Ok(entry) => resolve_removal(entry_delete(&entry)),
                    Err(m) => store_failure(m),
                }
            },
        };
        proof {
            Self::lemma_wf_from_config(*old(self), *self);
        }
        r
    }

    /// Whether a secret is stored for `provider`. Delegates to
    /// `get_credential`, so existence and value queries can never disagree.
    pub fn has_credential(&self, provider: &str) -> (r: Result<bool, CredentialError>)
        requires
            self.wf(),
        ensures
            r == Err::<bool, CredentialError>(CredentialError::InvalidProvider) <==> !provider_ok(
                provider@,
            ),
            self.is_memory() && provider_ok(provider@) ==> r == Ok::<bool, CredentialError>(
                self.model().contains_key(storage_key_spec(provider@)),
            ),
    {
        match self.get_credential(provider) {
            Ok(found) => Ok(found.is_some()),
            Err(e) => Err(e),
        }
    }

    /// Queries every provider the aggregate names and returns the snapshot.
    /// All-or-nothing: a per-provider "not found" is folded into `None`
    /// inside the aggregate, but any other store failure fails the whole
    /// call, and no partial aggregate is returned.
    ///
    /// The aggregate's shape is the `ApiKeys` record, which names the fixed
    /// pair `openrouter` and `gemini`, so this query ranges over exactly
    /// those two — whatever provider set the vault was created with. The
    /// set-driven operations are `has_any_credential` and
    /// `clear_all_credentials`, which range over the vault's own providers.
    pub fn get_all_credentials(&self) -> (r: Result<ApiKeys, CredentialError>)
        requires
            self.wf(),
        ensures
            self.is_memory() ==> (r matches Ok(ks) && opt_view(ks.openrouter) == model_lookup(
                self.model(),
                storage_key_spec("openrouter"@),
            ) && opt_view(ks.gemini) == model_lookup(self.model(), storage_key_spec("gemini"@))),
            r matches Err(e) ==> e matches CredentialError::StoreError(_),
    {
        proof {
            reveal_strlit("openrouter");
            reveal_strlit("gemini");
        }
        let openrouter = match self.get_credential("openrouter") {
            Ok(v) => v,
            Err(e) => return Err(e),
        };
        let gemini = match self.get_credential("gemini") {
            Ok(v) => v,
            Err(e) => return Err(e),
        };
        Ok(ApiKeys { openrouter, gemini })
    }

    /// Whether at least one known provider currently has a stored secret.
    /// A short-circuiting or across the providers in their fixed order; the
    /// first store failure encountered is propagated.
    pub fn has_any_credential(&self) -> (r: Result<bool, CredentialError>)
        requires
            self.wf(),
        ensures
            self.is_memory() ==> r == Ok::<bool, CredentialError>(
                exists|i: int|
                    0 <= i < self.providers_view().len() && #[trigger] self.model().contains_key(
                        storage_key_spec(self.providers_view()[i]),
                    ),
            ),
            r matches Err(e) ==> e matches CredentialError::StoreError(_),
    {
        let n = self.providers.len();
        let mut i: usize = 0;
        while i < n
            invariant
                self.wf(),
                n == self.providers@.len(),
                i <= n,
                self.is_memory() ==> forall|j: int|
                    0 <= j < i ==> !(#[trigger] self.model().contains_key(
                        storage_key_spec(self.providers_view()[j]),
                    )),
            decreases n - i,
        {
            proof {
                assert(self.providers_view()[i as int] == self.providers@[i as int]@);
            }
            match self.has_credential(self.providers[i].as_str()) {
                Ok(true) => return Ok(true),
                Ok(false) => {
                    i += 1;
                },
                Err(e) => return Err(e),
            }
        }
        Ok(false)
    }

    /// Removes every known provider's secret, best-effort: a per-provider
    /// removal failure is deliberately discarded and the remaining providers
    /// are still cleared. The goal state is "nothing stored", and a failure
    /// to remove part of an already-partially-cleared vault must not block
    /// clearing the rest; this is the one vault operation that never
    /// propagates an underlying store error.
    pub fn clear_all_credentials(&mut self) -> (r: Result<(), CredentialError>)
        requires
            old(self).wf(),
        ensures
            final(self).wf(),
            old(self).same_config(final(self)),
            r == Ok::<(), CredentialError>(()),
            !old(self).is_memory() ==> *final(self) == *old(self),
            old(self).is_memory() ==> forall|k: Seq<char>|
                #[trigger] final(self).model().contains_key(k) <==> (old(
                    self,
                ).model().contains_key(k) && !(exists|i: int|
                    0 <= i < old(self).providers_view().len() && k == #[trigger] storage_key_spec(
                        old(self).providers_view()[i],
                    ))),
    {
        let n = self.providers.len();
        let mut i: usize = 0;
        while i < n
            invariant
                self.wf(),
                old(self).same_config(self),
                n == self.providers@.len(),
                i <= n,
                !old(self).is_memory() ==> *self == *old(self),
                old(self).is_memory() ==> forall|k: Seq<char>|
                    #[trigger] self.model().contains_key(k) <==> (old(self).model().contains_key(k)
                        && !(exists|j: int|
                        0 <= j < i && k == #[trigger] storage_key_spec(
                            old(self).providers_view()[j],
                        ))),
            decreases n - i,
        {
            let p = self.providers[i].clone();
            proof {
                assert(p@ == old(self).providers_view()[i as int]);
            }
            let _ = self.remove_credential(p.as_str());
            i += 1;
        }
        Ok(())
    }

    /// Runs the end-to-end self-test against the backing store: store a
    /// reserved test credential, read it back, compare, and clean up.
    ///
    /// The protocol is sequential, single pass, with no retries: if the
    /// write fails, the diagnostic fails at once and no further phase runs.
    /// Otherwise the read-back has three distinct verdicts — intact,
    /// mismatched, or absent despite the successful write — and the cleanup
    /// removal is attempted regardless, its failure reported without
    /// changing the verdict already determined.
    pub fn test_keychain_access(&mut self) -> (r: SelfTestReport)
        requires
            old(self).wf(),
        ensures
            final(self).wf(),
            old(self).same_config(final(self)),
            !old(self).is_memory() ==> *final(self) == *old(self),
            old(self).is_memory() ==> (r matches SelfTestReport::Pass { cleanup_ok } && cleanup_ok
                == true),
            old(self).is_memory() ==> final(self).model() == old(self).model().remove(
                storage_key_spec("test-provider"@),
            ),
    {
        let test_provider = "test-provider";
        let test_value = "test-value";
        proof {
            reveal_strlit("test-provider");
        }
        let report = match self.set_credential(test_provider, test_value) {
            Err(e) => classify_write_failure(e),
            Ok(()) => {
                let outcome = self.get_credential(test_provider);
                // The cleanup removal is attempted exactly once, whatever
                // the read-back outcome was; its result only fills the
                // report's `cleanup_ok` field.
                let cleanup_ok = self.remove_credential(test_provider).is_ok();
                classify_readback(outcome, cleanup_ok)
            },
        };
        proof {
            Self::lemma_wf_from_config(*old(self), *self);
            if old(self).is_memory() {
                assert(self.model() =~= old(self).model().remove(
                    storage_key_spec("test-provider"@),
                ));
            }
        }
        report
    }
}

} // verus!
