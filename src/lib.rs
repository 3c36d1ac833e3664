//! A thread-safe key/value cache whose entries expire a fixed time after
//! they were written.  Expiry is lazy: stale entries stay in the map until
//! they are removed, overwritten or cleared, and reads simply skip them.
pub mod expiry;
pub mod cache;
pub mod laws;

pub use cache::{CachePoisonedError, CacheResult, HashCache, TimeSpan, READ_FAILURE, WRITE_FAILURE};
