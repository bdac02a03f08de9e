//! A single cached value together with its expiry timestamp.

use vstd::prelude::*;

verus! {

/// One cached payload for one stop, with the absolute time (in milliseconds)
/// after which it no longer counts as fresh.
///
/// An `Entry` is immutable once created: a refresh replaces the whole entry,
/// it never mutates `value` in place.
pub struct Entry {
    /// The opaque payload: the serialized arrival listing for one stop.
    pub value: String,
    /// Absolute timestamp (milliseconds) at and after which the entry is expired.
    pub expires_at: u64,
}

impl Entry {
    /// Whether the entry counts as expired at time `now`: it is expired
    /// exactly when `now` has reached `expires_at`.
    pub open spec fn spec_is_expired(self, now: u64) -> bool {
        now >= self.expires_at
    }

    /// Builds the entry that a fetch at time `now` stores: the payload itself,
    /// fresh until `now + ttl`.
    pub fn create(value: String, ttl: u64, now: u64) -> (e: Entry)
        requires
            now + ttl <= u64::MAX,
        ensures
            e.value == value,
            e.expires_at == now + ttl,
    {
        Entry { value, expires_at: now + ttl }
    }

    /// Freshness test: true exactly when `now` has reached the expiry time.
    pub fn is_expired(&self, now: u64) -> (r: bool)
        ensures
            r == self.spec_is_expired(now),
    {
        now >= self.expires_at
    }

    /// A copy of the entry. The store hands callers copies, never a handle
    /// into its own state.
    pub fn duplicate(&self) -> (e: Entry)
        ensures
            e.value == self.value,
            e.expires_at == self.expires_at,
    {
        Entry { value: self.value.clone(), expires_at: self.expires_at }
    }
}

/// An entry created with TTL `t` at time `t0` is fresh strictly before
/// `t0 + t` and expired from `t0 + t` on.
pub proof fn lemma_expiry_window(e: Entry, t0: u64, t: u64, now: u64)
    requires
        t0 + t <= u64::MAX,
        e.expires_at == t0 + t,
    ensures
        now < t0 + t ==> !e.spec_is_expired(now),
        now >= t0 + t ==> e.spec_is_expired(now),
{
}

} // verus!
