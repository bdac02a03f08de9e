//! An in-memory, time-to-live (TTL) cache for arrival data of transit stops.
//!
//! The crate fronts a slow upstream API: given a stop identifier it returns a
//! cached payload while one is still fresh, and otherwise asks the caller to
//! fetch from upstream, stores the fetched payload with an expiry, and hands
//! it back. Time is a plain millisecond count supplied by the caller, so the
//! whole entry lifecycle (fresh / expired), the store, and the read-through
//! protocol are verified.

pub mod entry;
pub mod handler;
pub mod store;

pub use entry::Entry;
pub use handler::CacheServiceError;
pub use handler::UpstreamError;
pub use store::CacheStore;
