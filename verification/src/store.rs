//! The cache store: a concurrent map from stop identifier to [`Entry`],
//! modeled as a mathematical map from key to entry.
//!
//! The backing store is `dashmap::DashMap`, a sharded concurrent hash map
//! whose `insert` is atomic with respect to concurrent readers and writers of
//! the same key: no reader observes a torn write. Verus sees the map through
//! the contents function [`dash_contents`] and the trusted wrappers below.

use vstd::prelude::*;
use crate::entry::Entry;

verus! {

#[verifier::external_type_specification]
#[verifier::external_body]
#[verifier::reject_recursive_types(K)]
#[verifier::reject_recursive_types(V)]
#[verifier::reject_recursive_types(S)]
pub struct ExDashMap<K, V, S>(dashmap::DashMap<K, V, S>);

/// What the backing concurrent map currently holds, key by key.
pub uninterp spec fn dash_contents(m: dashmap::DashMap<u32, Entry>) -> Map<u32, Entry>;

/// The contents of a store that holds nothing.
pub open spec fn empty_contents() -> Map<u32, Entry> {
    Map::empty()
}

/// A mapping from stop identifier to the current [`Entry`] for that stop.
///
/// At most one entry is visible per key at any instant; a `put` replaces the
/// prior entry for its key wholesale. The store owns its entries: `get` hands
/// callers a copy, never a handle into the stored value.
pub struct CacheStore {
    /// The backing concurrent map. Treat it as the store's own: callers go
    /// through `get` and `put`, whose contracts speak of the map's contents.
    pub inner: dashmap::DashMap<u32, Entry>,
}

impl View for CacheStore {
    type V = Map<u32, Entry>;

    open spec fn view(&self) -> Map<u32, Entry> {
        dash_contents(self.inner)
    }
}

impl CacheStore {
    /// Relies on `dashmap::DashMap::new`: a freshly created map holds nothing.
    #[verifier::external_body]
    pub fn new() -> (s: CacheStore)
        ensures
            dash_contents(s.inner) == empty_contents(),
    {
        CacheStore { inner: dashmap::DashMap::new() }
    }

    /// Relies on `dashmap::DashMap::get`: returns the value currently held
    /// for the key, if any. The entry comes back as a copy, regardless of
    /// freshness: freshness is the caller's concern.
    #[verifier::external_body]
    pub fn get(&self, key: u32) -> (r: Option<Entry>)
        ensures
            r == if dash_contents(self.inner).contains_key(key) {
                Some(dash_contents(self.inner)[key])
            } else {
                None::<Entry>
            },
    {
        self.inner.get(&key).map(|guard| guard.value().duplicate())
    }

    /// Relies on `dashmap::DashMap::insert`: installs the value for the key,
    /// replacing any prior one, atomically with respect to concurrent
    /// accesses of the same key.
    #[verifier::external_body]
    pub fn put(&mut self, key: u32, entry: Entry)
        ensures
            dash_contents(final(self).inner) == dash_contents(old(self).inner).insert(key, entry),
    {
        self.inner.insert(key, entry);
    }

    /// Relies on `dashmap::DashMap::len`: the number of keys currently held.
    #[verifier::external_body]
    pub fn len(&self) -> (n: usize)
        ensures
            n == dash_contents(self.inner).dom().len(),
    {
        self.inner.len()
    }
}

/// A fresh store holds no key at all: in particular, any key that was never
/// inserted is absent from it.
pub proof fn lemma_fresh_store_absent(m: Map<u32, Entry>, key: u32)
    requires
        m == empty_contents(),
    ensures
        !m.contains_key(key),
{
}

/// A key that was never inserted stays absent: installing an entry for one
/// key leaves every other key absent if it was absent before. Together with
/// [`lemma_fresh_store_absent`] this says that `get` on a key never inserted
/// finds nothing, however many entries other keys received.
pub proof fn lemma_never_inserted_absent(m: Map<u32, Entry>, key: u32, other: u32, e: Entry)
    requires
        !m.contains_key(key),
        other != key,
    ensures
        !m.insert(other, e).contains_key(key),
{
}

/// A `put` followed immediately by a `get` on the same key (no intervening
/// `put`) finds exactly the just-inserted entry.
pub proof fn lemma_put_then_get(m: Map<u32, Entry>, key: u32, e: Entry)
    ensures
        m.insert(key, e).contains_key(key),
        m.insert(key, e)[key] == e,
{
}

} // verus!
