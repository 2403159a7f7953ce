//! An in-memory secret store.
//!
//! The vault's semantics are stated against an abstract store model: a map
//! from storage keys to secret values, each as a sequence of characters.
//! `MemoryStore` realizes that model exactly, inside the process. It backs a
//! vault in tests and wherever no platform keychain should be touched, and it
//! is the store against which the vault's round-trip laws are proved.

use vstd::prelude::*;
use vstd::hash_map::StringHashMap;

verus! {

/// The view of an optional secret value: the characters, if one is present.
pub open spec fn opt_view(o: Option<String>) -> Option<Seq<char>> {
    match o {
        Some(s) => Some(s@),
        None => None,
    }
}

/// What a store model answers for a key: the value bound to it, if any.
pub open spec fn model_lookup(m: Map<Seq<char>, Seq<char>>, key: Seq<char>) -> Option<Seq<char>> {
    if m.contains_key(key) {
        Some(m[key])
    } else {
        None
    }
}

/// A secret store held entirely in process memory: at most one value per
/// storage key, with exact create/overwrite/delete semantics.
pub struct MemoryStore {
    table: StringHashMap<String>,
}

impl MemoryStore {
    /// The abstract contents of the store: storage key to secret value.
    pub closed spec fn model(&self) -> Map<Seq<char>, Seq<char>> {
        Map::new(
            |k: Seq<char>| self.table@.dom().contains(k),
            |k: Seq<char>| self.table@[k]@,
        )
    }

    /// Creates a store that holds nothing.
    pub fn new() -> (r: MemoryStore)
        ensures
            r.model() == Map::<Seq<char>, Seq<char>>::empty(),
    {
        let r = MemoryStore { table: StringHashMap::new() };
        proof {
            assert(r.model() =~= Map::<Seq<char>, Seq<char>>::empty());
        }
        r
    }

    /// Returns the value stored under `key`, if any.
    pub fn lookup(&self, key: &str) -> (r: Option<String>)
        ensures
            opt_view(r) == model_lookup(self.model(), key@),
    {
        match self.table.get(key) {
            Some(v) => Some(v.clone()),
            None => None,
        }
    }

    /// Binds `key` to `value`, creating the entry or overwriting the
    /// previous value.
    pub fn store(&mut self, key: &str, value: &str)
        ensures
            final(self).model() == old(self).model().insert(key@, value@),
    {
        self.table.insert(key.to_owned(), value.to_owned());
        proof {
            assert(final(self).model() =~= old(self).model().insert(key@, value@));
        }
    }

    /// Unbinds `key`; a key that is already absent stays absent.
    pub fn erase(&mut self, key: &str)
        ensures
            final(self).model() == old(self).model().remove(key@),
    {
        self.table.remove(key);
        proof {
            assert(final(self).model() =~= old(self).model().remove(key@));
        }
    }
}

} // verus!
