//! The cache-aside store layered over the two upstream lookups.
//!
//! A cache holds two namespaces: scalar entries written with a TTL and
//! overwritable at will, and a space of write-once fields mapping a release
//! tag to its version — justified because a released tag's version never
//! changes. The trait models an available store; an adapter around a real
//! networked store lives outside the verified boundary and absorbs its own
//! failures by degrading to a miss, which the resolver treats like an absent
//! cache.
//!
//! Writes are best-effort: a store may drop them (`stores_writes` is false),
//! and callers must stay correct, merely less efficient. `MemoryCache` is the
//! deterministic in-memory implementation used by tests to pin down both the
//! cache-present and the cache-absent paths.

use vstd::prelude::*;

verus! {

use crate::assoc::{
    lemma_pairs_map_push,
    lemma_triples_map_push,
    lookup,
    lookup2,
    pairs_map,
    triples_map,
};

/// A cache-aside key-value store with scalar and write-once namespaces.
pub trait Cache: Sized {
    /// The scalar entries the store currently holds. The default model is an
    /// empty store that drops writes, for adapters outside the verified
    /// boundary that do not model their contents.
    open spec fn scalars(&self) -> Map<Seq<char>, Seq<char>> {
        Map::empty()
    }

    /// The space/field entries the store currently holds.
    open spec fn fields(&self) -> Map<(Seq<char>, Seq<char>), Seq<char>> {
        Map::empty()
    }

    /// Whether writes to this store stick; a best-effort store may drop them.
    open spec fn stores_writes(&self) -> bool {
        false
    }

    /// Reads a scalar entry.
    fn get(&mut self, key: &str) -> (r: Option<String>)
        ensures
            final(self).scalars() == old(self).scalars(),
            final(self).fields() == old(self).fields(),
            final(self).stores_writes() == old(self).stores_writes(),
            r matches Some(v) ==> old(self).scalars().contains_pair(key@, v@),
            old(self).scalars().contains_key(key@) ==> r is Some,
    ;

    /// Writes a scalar entry with a time-to-live, overwriting any previous
    /// value, and hands the value back so the caller proceeds with it whether
    /// or not the write stuck.
    fn set_with_ttl(&mut self, key: &str, value: &str, ttl_seconds: u64) -> (r: String)
        ensures
            r@ == value@,
            final(self).fields() == old(self).fields(),
            final(self).stores_writes() == old(self).stores_writes(),
            final(self).scalars() == old(self).scalars().insert(key@, value@)
                || final(self).scalars() == old(self).scalars(),
            old(self).stores_writes()
                ==> final(self).scalars() == old(self).scalars().insert(key@, value@),
    ;

    /// Reads a field from a space.
    fn hash_get(&mut self, space: &str, field: &str) -> (r: Option<String>)
        ensures
            final(self).scalars() == old(self).scalars(),
            final(self).fields() == old(self).fields(),
            final(self).stores_writes() == old(self).stores_writes(),
            r matches Some(v) ==> old(self).fields().contains_pair((space@, field@), v@),
            old(self).fields().contains_key((space@, field@)) ==> r is Some,
    ;

    /// Writes a field into a space only if it is absent: an existing value is
    /// retained, even when the new value differs.
    fn hash_set_if_absent(&mut self, space: &str, field: &str, value: &str)
        ensures
            final(self).scalars() == old(self).scalars(),
            final(self).stores_writes() == old(self).stores_writes(),
            old(self).fields().contains_key((space@, field@))
                ==> final(self).fields() == old(self).fields(),
            !old(self).fields().contains_key((space@, field@))
                ==> (final(self).fields() == old(self).fields().insert((space@, field@), value@)
                || final(self).fields() == old(self).fields()),
            old(self).stores_writes() && !old(self).fields().contains_key((space@, field@))
                ==> final(self).fields() == old(self).fields().insert((space@, field@), value@),
    ;
}

/// A deterministic in-memory cache: every write sticks, entries never expire.
pub struct MemoryCache {
    scalar_entries: Vec<(String, String)>,
    field_entries: Vec<(String, String, String)>,
}

impl MemoryCache {
    /// An empty cache.
    pub fn new() -> (c: MemoryCache)
        ensures
            c.scalars() == Map::<Seq<char>, Seq<char>>::empty(),
            c.fields() == Map::<(Seq<char>, Seq<char>), Seq<char>>::empty(),
            c.stores_writes(),
    {
        MemoryCache { scalar_entries: Vec::new(), field_entries: Vec::new() }
    }
}

impl Cache for MemoryCache {
    closed spec fn scalars(&self) -> Map<Seq<char>, Seq<char>> {
        pairs_map(self.scalar_entries@)
    }

    closed spec fn fields(&self) -> Map<(Seq<char>, Seq<char>), Seq<char>> {
        triples_map(self.field_entries@)
    }

    closed spec fn stores_writes(&self) -> bool {
        true
    }

    fn get(&mut self, key: &str) -> (r: Option<String>) {
        lookup(&self.scalar_entries, key)
    }

    fn set_with_ttl(&mut self, key: &str, value: &str, ttl_seconds: u64) -> (r: String) {
        self.scalar_entries.push((key.to_owned(), value.to_owned()));
        proof {
            lemma_pairs_map_push(
                old(self).scalar_entries@,
                (self.scalar_entries@.last()),
            );
        }
        value.to_owned()
    }

    fn hash_get(&mut self, space: &str, field: &str) -> (r: Option<String>) {
        lookup2(&self.field_entries, space, field)
    }

    fn hash_set_if_absent(&mut self, space: &str, field: &str, value: &str) {
        let existing = lookup2(&self.field_entries, space, field);
        if existing.is_none() {
            self.field_entries.push((space.to_owned(), field.to_owned(), value.to_owned()));
            proof {
                lemma_triples_map_push(
                    old(self).field_entries@,
                    (self.field_entries@.last()),
                );
            }
        }
    }
}

} // verus!
