//! The shared cache: the map behind a reader/writer lock, a fixed ttl, and a
//! monotonic clock that stamps each write.
use crate::expiry::{clear_entries, collect_live, key_model, lookup_live, remove_entry, store_entry};
use std::collections::HashMap;
use std::hash::Hash;
use std::sync::{RwLock, RwLockReadGuard, RwLockWriteGuard};
use std::time::{Duration, Instant};
use vstd::prelude::*;

verus! {

#[verifier::external_type_specification]
#[verifier::external_body]
pub struct ExInstant(Instant);

#[verifier::external_type_specification]
#[verifier::external_body]
#[verifier::reject_recursive_types(T)]
pub struct ExRwLock<T: ?Sized>(RwLock<T>);

#[verifier::external_type_specification]
#[verifier::external_body]
#[verifier::reject_recursive_types(T)]
pub struct ExRwLockReadGuard<'a, T: ?Sized>(RwLockReadGuard<'a, T>);

#[verifier::external_type_specification]
#[verifier::external_body]
#[verifier::reject_recursive_types(T)]
pub struct ExRwLockWriteGuard<'a, T: ?Sized + 'a>(RwLockWriteGuard<'a, T>);

/// Relies on Instant::now: a reading of the monotonic clock.
#[verifier::external_body]
fn clock_now() -> Instant {
    Instant::now()
}

/// Relies on Instant::elapsed: the time since `origin` was read.
#[verifier::external_body]
fn elapsed_since(origin: &Instant) -> Duration {
    origin.elapsed()
}

/// Relies on Duration::as_nanos: a duration as whole nanoseconds.
#[verifier::external_body]
fn duration_nanos(d: &Duration) -> u128 {
    d.as_nanos()
}

/// Relies on RwLock::new: an unlocked, unpoisoned lock around `v`.
#[verifier::external_body]
fn new_lock<S>(v: S) -> RwLock<S> {
    RwLock::new(v)
}

/// Relies on RwLock::read: shared access, or `None` where the lock is poisoned.
/// The calling thread must not hold a guard on the same lock already: std
/// leaves that case to panic or deadlock, and nothing here can rule it out.
#[verifier::external_body]
fn acquire_read<S>(l: &RwLock<S>) -> Option<RwLockReadGuard<'_, S>> {
    l.read().ok()
}

/// Relies on RwLock::write: exclusive access, or `None` where the lock is poisoned.
/// The calling thread must not hold a guard on the same lock already: std
/// leaves that case to panic or deadlock, and nothing here can rule it out.
#[verifier::external_body]
fn acquire_write<S>(l: &RwLock<S>) -> Option<RwLockWriteGuard<'_, S>> {
    l.write().ok()
}

/// Relies on RwLockReadGuard's Deref: the value that the guard protects.
#[verifier::external_body]
fn read_target<'a, 'b, S>(g: &'a RwLockReadGuard<'b, S>) -> &'a S {
    &**g
}

/// Relies on RwLockWriteGuard's DerefMut: the value that the guard protects.
#[verifier::external_body]
fn write_target<'a, 'b, S>(g: &'a mut RwLockWriteGuard<'b, S>) -> &'a mut S {
    &mut **g
}

/// The error of every operation on a cache whose lock was poisoned by a holder
/// that failed while holding it; the text says whether reading or writing failed.
#[derive(Debug)]
pub struct CachePoisonedError(pub &'static str);

/// The text of the error where shared (read) access failed.
pub const READ_FAILURE: &'static str = "Failed to acquire read guard for cache failed due to poisoning";

/// The text of the error where exclusive (write) access failed.
pub const WRITE_FAILURE: &'static str = "Failed to acquire write guard for cache failed due to poisoning";

impl CachePoisonedError {
    /// Whether shared (read) access failed.
    pub open spec fn is_read_failure(&self) -> bool {
        self.0 == READ_FAILURE
    }

    /// Whether exclusive (write) access failed.
    pub open spec fn is_write_failure(&self) -> bool {
        self.0 == WRITE_FAILURE
    }

    /// What failed.
    pub fn message(&self) -> (r: &'static str)
        ensures
            r == self.0,
    {
        self.0
    }
}

pub type CacheResult<T> = Result<T, CachePoisonedError>;

/// A span of time: whole seconds and the nanoseconds beyond them.
#[derive(Clone, Copy, Debug, PartialEq, Eq)]
pub struct TimeSpan {
    pub secs: u64,
    pub nanos: u32,
}

impl TimeSpan {
    /// The span in nanoseconds.
    pub open spec fn total_nanos(self) -> int {
        self.secs * 1_000_000_000 + self.nanos
    }

    /// `secs` seconds and `nanos` nanoseconds, the nanoseconds past a whole
    /// second carried into the seconds.
    pub fn new(secs: u64, nanos: u32) -> (r: TimeSpan)
        requires
            secs + nanos / 1_000_000_000 <= u64::MAX,
        ensures
            r.total_nanos() == secs * 1_000_000_000 + nanos,
            r.nanos < 1_000_000_000,
    {
        let carry: u32 = nanos / 1_000_000_000;
        let rest: u32 = nanos % 1_000_000_000;
        let r = TimeSpan { secs: secs + carry as u64, nanos: rest };
        assert(r.total_nanos() == secs * 1_000_000_000 + nanos) by (nonlinear_arith)
            requires
                carry == nanos / 1_000_000_000,
                rest == nanos % 1_000_000_000,
                r.secs == secs + carry,
                r.nanos == rest,
        ;
        r
    }

    /// A span of whole seconds.
    pub fn from_secs(secs: u64) -> (r: TimeSpan)
        ensures
            r.total_nanos() == secs * 1_000_000_000,
    {
        TimeSpan { secs, nanos: 0 }
    }

    /// The span in nanoseconds.
    pub fn as_nanos(&self) -> (r: u128)
        ensures
            r == self.total_nanos(),
    {
        assert(self.secs * 1_000_000_000 <= u64::MAX * 1_000_000_000) by (nonlinear_arith);
        (self.secs as u128) * 1_000_000_000 + self.nanos as u128
    }

    /// Whether the span is empty.
    pub fn is_zero(&self) -> (r: bool)
        ensures
            r == (self.total_nanos() == 0),
    {
        self.secs == 0 && self.nanos == 0
    }
}

/// A map from keys to values stamped with their write time (nanoseconds on
/// the cache's own clock), shared behind a reader/writer lock, with one ttl
/// for all entries.  A zero ttl means that entries never expire.
#[verifier::reject_recursive_types(K)]
#[verifier::reject_recursive_types(T)]
pub struct HashCache<K, T> {
    cache: RwLock<HashMap<K, (T, u128)>>,
    duration: TimeSpan,
    origin: Instant,
}

impl<K: Eq + Hash + Clone, T> HashCache<K, T> {
    /// The ttl in nanoseconds.
    pub closed spec fn ttl(&self) -> int {
        self.duration.total_nanos()
    }

    /// An empty cache whose entries expire `duration` after they are written.
    pub fn new(duration: TimeSpan) -> (r: HashCache<K, T>)
        ensures
            r.ttl() == duration.total_nanos(),
    {
        HashCache {
            cache: new_lock(HashMap::new()),
            duration: duration,
            origin: clock_now(),
        }
    }

    /// A cache holding `map` as it is, whose entries never expire.
    pub fn from_entries(map: HashMap<K, (T, u128)>) -> (r: HashCache<K, T>)
        ensures
            r.ttl() == 0,
    {
        HashCache { cache: new_lock(map), duration: TimeSpan::from_secs(0), origin: clock_now() }
    }

    /// Shared access to the raw map, expired entries included; fails only
    /// where the lock is poisoned, with the read failure.
    ///
    /// A thread must not take a guard on a cache while it still holds another
    /// guard on it (from `reader` or `writer`): the lock may then panic or
    /// deadlock.  Keeping to this is the caller's duty.
    pub fn reader(&self) -> (r: CacheResult<RwLockReadGuard<'_, HashMap<K, (T, u128)>>>)
        ensures
            r matches Err(e) ==> e.is_read_failure(),
    {
        match acquire_read(&self.cache) {
            Some(guard) => Ok(guard),
            None => Err(CachePoisonedError(READ_FAILURE)),
        }
    }

    /// Exclusive access to the raw map; fails only where the lock is
    /// poisoned, with the write failure.
    ///
    /// A thread must not take a guard on a cache while it still holds another
    /// guard on it (from `reader` or `writer`): the lock may then panic or
    /// deadlock.  Keeping to this is the caller's duty.
    pub fn writer(&self) -> (r: CacheResult<RwLockWriteGuard<'_, HashMap<K, (T, u128)>>>)
        ensures
            r matches Err(e) ==> e.is_write_failure(),
    {
        match acquire_write(&self.cache) {
            Some(guard) => Ok(guard),
            None => Err(CachePoisonedError(WRITE_FAILURE)),
        }
    }

    /// Whether entries never expire.
    fn ignore_dur(&self) -> (r: bool)
        ensures
            r == (self.ttl() == 0),
    {
        self.duration.is_zero()
    }

    /// The ttl in nanoseconds, zero where entries never expire.
    fn ttl_nanos(&self) -> (r: u128)
        ensures
            r == self.ttl(),
    {
        if self.ignore_dur() {
            0
        } else {
            self.duration.as_nanos()
        }
    }

    /// Nanoseconds since the cache was made.
    fn now_nanos(&self) -> u128 {
        let d = elapsed_since(&self.origin);
        duration_nanos(&d)
    }
}

impl<K: Eq + Hash + Clone, T: Clone> HashCache<K, T> {
    /// A copy of the value under `key` if it is present and not expired, as
    /// `lookup_live` finds it at the time of the call; fails only where the
    /// lock is poisoned.
    ///
    /// A thread must not take a guard on a cache while it still holds another
    /// guard on it (from `reader` or `writer`): the lock may then panic or
    /// deadlock.  Keeping to this is the caller's duty.
    pub fn get(&self, key: &K) -> (r: CacheResult<Option<T>>)
        requires
            key_model::<K>(),
        ensures
            r matches Err(e) ==> e.is_read_failure(),
    {
        let guard = match self.reader() {
            Ok(g) => g,
            Err(e) => return Err(e),
        };
        let map = read_target(&guard);
        Ok(lookup_live(map, key, self.ttl_nanos(), self.now_nanos()))
    }

    /// A copy of every entry that is not expired, as `collect_live` finds
    /// them at the time of the call; fails only where the lock is poisoned.
    ///
    /// A thread must not take a guard on a cache while it still holds another
    /// guard on it (from `reader` or `writer`): the lock may then panic or
    /// deadlock.  Keeping to this is the caller's duty.
    pub fn get_all(&self) -> (r: CacheResult<HashMap<K, T>>)
        requires
            key_model::<K>(),
        ensures
            r matches Err(e) ==> e.is_read_failure(),
    {
        let guard = match self.reader() {
            Ok(g) => g,
            Err(e) => return Err(e),
        };
        let map = read_target(&guard);
        Ok(collect_live(map, self.ttl_nanos(), self.now_nanos()))
    }

    /// Writes a copy of `val` under `key`, stamped now, over any entry there;
    /// returns the value it replaced, expired or not (see `store_entry`).
    /// Fails only where the lock is poisoned.
    ///
    /// A thread must not take a guard on a cache while it still holds another
    /// guard on it (from `reader` or `writer`): the lock may then panic or
    /// deadlock.  Keeping to this is the caller's duty.
    pub fn insert(&self, key: K, val: &T) -> (r: CacheResult<Option<T>>)
        requires
            key_model::<K>(),
        ensures
            r matches Err(e) ==> e.is_write_failure(),
    {
        let mut guard = match self.writer() {
            Ok(g) => g,
            Err(e) => return Err(e),
        };
        let now = self.now_nanos();
        let map = write_target(&mut guard);
        Ok(store_entry(map, key, val, now))
    }

    /// Deletes the entry under `key`, expired or not, and returns its value
    /// (see `remove_entry`); an absent key gives `Ok(None)`.  Fails only
    /// where the lock is poisoned.
    ///
    /// A thread must not take a guard on a cache while it still holds another
    /// guard on it (from `reader` or `writer`): the lock may then panic or
    /// deadlock.  Keeping to this is the caller's duty.
    pub fn remove(&self, key: &K) -> (r: CacheResult<Option<T>>)
        requires
            key_model::<K>(),
        ensures
            r matches Err(e) ==> e.is_write_failure(),
    {
        let mut guard = match self.writer() {
            Ok(g) => g,
            Err(e) => return Err(e),
        };
        let map = write_target(&mut guard);
        Ok(remove_entry(map, key))
    }

    /// Deletes every entry, expired or not (see `clear_entries`).  Fails only
    /// where the lock is poisoned.
    ///
    /// A thread must not take a guard on a cache while it still holds another
    /// guard on it (from `reader` or `writer`): the lock may then panic or
    /// deadlock.  Keeping to this is the caller's duty.
    pub fn clear(&self) -> (r: CacheResult<()>)
        ensures
            r matches Err(e) ==> e.is_write_failure(),
    {
        let mut guard = match self.writer() {
            Ok(g) => g,
            Err(e) => return Err(e),
        };
        let map = write_target(&mut guard);
        clear_entries(map);
        Ok(())
    }
}

} // verus!
