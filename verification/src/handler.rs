//! The read-through protocol: check the cache, and on a miss fold the
//! upstream fetch's outcome back into the store.
//!
//! Per request the protocol walks the states `CHECKING -> { HIT, MISS }` and
//! `MISS -> FETCHING -> { POPULATED, UPSTREAM_FAILED }`. [`lookup`] performs
//! `CHECKING`; the upstream fetch itself is the caller's (I/O) work, and
//! [`resolve_fetch`] takes its outcome and performs the `POPULATED` or
//! `UPSTREAM_FAILED` step. Staleness is checked here, not in the store, so
//! that what counts as a hit lives in one place whatever the backend; a
//! missing entry and an expired one are treated identically, as misses.

use vstd::prelude::*;
use crate::entry::Entry;
use crate::store::CacheStore;

verus! {

/// The reason an upstream fetch failed, as the transit client reported it:
/// a network, timeout or malformed-response failure, carried as a message.
#[derive(Debug)]
pub struct UpstreamError {
    pub message: String,
}

/// What a request can fail with. Both kinds are surfaced to the service
/// boundary unchanged; a cache miss or expiry is not an error.
#[derive(Debug)]
pub enum CacheServiceError {
    /// The upstream transit client failed. Not retried at this layer.
    UpstreamFetch(UpstreamError),
    /// The store failed to accept a new entry: an internal fault, not
    /// expected in normal operation.
    CacheInsert,
}

/// What consulting contents `m` for `key` at time `now` decides: the cached
/// payload when a fresh entry is present (a hit), and nothing when the key is
/// absent or its entry has expired (a miss).
pub open spec fn lookup_model(m: Map<u32, Entry>, key: u32, now: u64) -> Option<Seq<char>> {
    if m.contains_key(key) && !m[key].spec_is_expired(now) {
        Some(m[key].value@)
    } else {
        None
    }
}

/// `CHECKING`: consult the store. Returns the stored payload unchanged when
/// the entry for `key` exists and is still fresh at `now` (`HIT`), and `None`
/// when the key is absent or its entry has expired (`MISS`), in which case
/// the caller must fetch from upstream and hand the outcome to
/// [`resolve_fetch`]. The store's contents are never touched.
pub fn lookup(store: &CacheStore, key: u32, now: u64) -> (r: Option<String>)
    ensures
        match r {
            Some(p) => lookup_model(store@, key, now) == Some(p@),
            None => lookup_model(store@, key, now) is None,
        },
{
    match store.get(key) {
        Some(e) => {
            if e.is_expired(now) {
                None
            } else {
                Some(e.value)
            }
        },
        None => None,
    }
}

/// `FETCHING` resolved: fold the upstream outcome for `key` into the store.
/// On success the payload is stored as a fresh entry expiring at `now + ttl`
/// (`POPULATED`) and returned unchanged, replacing any prior entry for the
/// key wholesale; on failure the error is propagated unchanged and the store
/// is left exactly as it was (`UPSTREAM_FAILED`).
pub fn resolve_fetch(
    store: &mut CacheStore,
    key: u32,
    fetched: Result<String, UpstreamError>,
    now: u64,
    ttl: u64,
) -> (r: Result<String, CacheServiceError>)
    requires
        now + ttl <= u64::MAX,
    ensures
        fetched matches Ok(payload) ==> {
            &&& final(store)@ == old(store)@.insert(key, (Entry { value: payload, expires_at: (now + ttl) as u64 }))
            &&& r matches Ok(p) && p == payload
        },
        fetched matches Err(e) ==> {
            &&& final(store)@ == old(store)@
            &&& r matches Err(err) && err == CacheServiceError::UpstreamFetch(e)
        },
{
    match fetched {
        Ok(payload) => {
            let entry = Entry::create(payload.clone(), ttl, now);
            store.put(key, entry);
            Ok(payload)
        },
        Err(e) => Err(CacheServiceError::UpstreamFetch(e)),
    }
}

/// Refreshing an unexpired entry is never triggered: at any time strictly
/// inside the TTL window of the entry a key holds, consulting the cache is a
/// hit that returns the stored payload, so the upstream client is not
/// invoked, however often the lookup is repeated on unchanged contents.
pub proof fn lemma_fresh_hit_no_fetch(m: Map<u32, Entry>, key: u32, t0: u64, ttl: u64, now: u64)
    requires
        t0 + ttl <= u64::MAX,
        m.contains_key(key),
        m[key].expires_at == t0 + ttl,
        now < t0 + ttl,
    ensures
        lookup_model(m, key, now) == Some(m[key].value@),
{
}

/// Round trip: while it is fresh, a hit returns exactly the payload most
/// recently stored for that key, byte for byte.
pub proof fn lemma_hit_returns_last_stored(m: Map<u32, Entry>, key: u32, e: Entry, now: u64)
    requires
        !e.spec_is_expired(now),
    ensures
        lookup_model(m.insert(key, e), key, now) == Some(e.value@),
{
}

} // verus!
