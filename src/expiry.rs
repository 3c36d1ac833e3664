//! The cache's logic over a plain map from keys to (value, write time),
//! with the time of each operation passed in as nanoseconds.
use std::collections::HashMap;
use std::hash::Hash;
use vstd::prelude::*;
use vstd::pervasive::{cloned, strictly_cloned};
use vstd::std_specs::hash::obeys_key_model;
use vstd::std_specs::iter::IteratorSpec;

verus! {

broadcast use vstd::std_specs::hash::group_hash_axioms;

/// Keys that hash deterministically, compare equal only to themselves and
/// clone to themselves.
pub open spec fn key_model<K: Clone>() -> bool {
    &&& obeys_key_model::<K>()
    &&& forall|a: K, b: K| #[trigger] strictly_cloned(a, b) ==> a == b
}

/// How long ago `stamp` was, seen at `now`; a stamp from the future is zero old.
pub open spec fn age(stamp: u128, now: u128) -> int {
    if now >= stamp {
        now - stamp
    } else {
        0
    }
}

/// A zero ttl means that entries never expire; otherwise an entry lives while
/// its age is at most the ttl.
pub open spec fn is_live(ttl: u128, stamp: u128, now: u128) -> bool {
    ttl == 0 || age(stamp, now) <= ttl
}

/// The value stored under `key`, expired or not.
pub open spec fn stored_value<K, T>(m: Map<K, (T, u128)>, key: K) -> Option<T> {
    if m.contains_key(key) {
        Some(m[key].0)
    } else {
        None
    }
}

/// The value that a read of `key` at `now` sees.
pub open spec fn live_value<K, T>(m: Map<K, (T, u128)>, key: K, ttl: u128, now: u128) -> Option<T> {
    if m.contains_key(key) && is_live(ttl, m[key].1, now) {
        Some(m[key].0)
    } else {
        None
    }
}

/// Every entry that a read at `now` sees.
pub open spec fn live_view<K, T>(m: Map<K, (T, u128)>, ttl: u128, now: u128) -> Map<K, T> {
    Map::new(|k: K| m.contains_key(k) && is_live(ttl, m[k].1, now), |k: K| m[k].0)
}

/// `r` is a copy of `o`, made by `clone`.
pub open spec fn option_cloned<T: Clone>(o: Option<T>, r: Option<T>) -> bool {
    match (o, r) {
        (Some(a), Some(b)) => cloned(a, b),
        (None, None) => true,
        _ => false,
    }
}

/// Whether an entry written at `stamp` is still readable at `now`.
pub fn entry_is_live(ttl: u128, stamp: u128, now: u128) -> (r: bool)
    ensures
        r == is_live(ttl, stamp, now),
{
    ttl == 0 || now < stamp || now - stamp <= ttl
}

/// A copy of the value under `key`, if it is present and still live at `now`.
pub fn lookup_live<K: Eq + Hash + Clone, T: Clone>(
    map: &HashMap<K, (T, u128)>,
    key: &K,
    ttl: u128,
    now: u128,
) -> (r: Option<T>)
    requires
        key_model::<K>(),
    ensures
        option_cloned(live_value(map@, *key, ttl, now), r),
{
    match map.get(key) {
        Some(entry) => {
            if entry_is_live(ttl, entry.1, now) {
                Some(entry.0.clone())
            } else {
                None
            }
        },
        None => None,
    }
}

/// A copy of every entry that is still live at `now`, keyed by copies of the keys.
pub fn collect_live<K: Eq + Hash + Clone, T: Clone>(
    map: &HashMap<K, (T, u128)>,
    ttl: u128,
    now: u128,
) -> (r: HashMap<K, T>)
    requires
        key_model::<K>(),
    ensures
        r@.dom() == live_view(map@, ttl, now).dom(),
        forall|k: K| #[trigger] r@.contains_key(k) ==> cloned(map@[k].0, r@[k]),
{
    let mut res: HashMap<K, T> = HashMap::new();
    let ghost items = vstd::std_specs::hash::spec_hash_map_iter(map).remaining();
    for pair in iter: map.iter()
        invariant
            key_model::<K>(),
            iter.seq() == items,
            forall|k: K| #[trigger]
                res@.contains_key(k) ==> live_view(map@, ttl, now).contains_key(k) && cloned(
                    map@[k].0,
                    res@[k],
                ),
            forall|j: int|
                0 <= j < iter.index() && live_view(map@, ttl, now).contains_key(
                    *(#[trigger] iter.seq()[j]).0,
                ) ==> res@.contains_key(*iter.seq()[j].0),
        ensures
            res@.dom() == live_view(map@, ttl, now).dom(),
    {
        let (k, entry) = pair;
        proof {
            assert(pair == items[iter.index() as int]);
            assert(map@.contains_key(*k) && map@[*k] == *entry);
        }
        if entry_is_live(ttl, entry.1, now) {
            let key = k.clone();
            assert(key == *k) by {
                if key != *k {
                    assert(strictly_cloned(*k, key));
                }
            }
            let val = entry.0.clone();
            assert(cloned(entry.0, val));
            res.insert(key, val);
        }
    }
    res
}

/// Writes `val` under `key` with the write time `now`, whether or not an entry
/// was there, expired or live; returns a copy of the value it replaced.
pub fn store_entry<K: Eq + Hash + Clone, T: Clone>(
    map: &mut HashMap<K, (T, u128)>,
    key: K,
    val: &T,
    now: u128,
) -> (r: Option<T>)
    requires
        key_model::<K>(),
    ensures
        exists|v: T| cloned(*val, v) && final(map)@ == #[trigger] old(map)@.insert(key, (v, now)),
        r == stored_value(old(map)@, key),
{
    let v = val.clone();
    assert(cloned(*val, v));
    let prev = map.insert(key, (v, now));
    match prev {
        Some(entry) => Some(entry.0),
        None => None,
    }
}

/// Deletes the entry under `key`, expired or live; returns its value.
pub fn remove_entry<K: Eq + Hash + Clone, T>(map: &mut HashMap<K, (T, u128)>, key: &K) -> (r: Option<T>)
    requires
        key_model::<K>(),
    ensures
        final(map)@ == old(map)@.remove(*key),
        r == stored_value(old(map)@, *key),
{
    match map.remove(key) {
        Some(entry) => Some(entry.0),
        None => None,
    }
}

/// Deletes every entry, expired or live.
pub fn clear_entries<K, T>(map: &mut HashMap<K, (T, u128)>)
    ensures
        final(map)@ == Map::<K, (T, u128)>::empty(),
{
    map.clear();
}

} // verus!
