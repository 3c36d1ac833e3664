//! Laws of the cache's model, stated over the spec functions that the
//! operations' contracts use.
use crate::expiry::{age, live_value, live_view, stored_value};
use vstd::prelude::*;

verus! {

/// With a zero ttl an entry, once written, is read back at any later time,
/// however long after its write.
pub proof fn lemma_never_expires<K, T>(m: Map<K, (T, u128)>, key: K, v: T, written: u128, now: u128)
    ensures
        live_value(m.insert(key, (v, written)), key, 0, now) == Some(v),
{
}

/// With a ttl `d > 0` an entry is read back while its age is at most `d`, and
/// not once its age exceeds `d`, with no removal in between.
pub proof fn lemma_expires_after_ttl<K, T>(
    m: Map<K, (T, u128)>,
    key: K,
    v: T,
    written: u128,
    d: u128,
    now: u128,
)
    requires
        d > 0,
    ensures
        age(written, now) <= d ==> live_value(m.insert(key, (v, written)), key, d, now) == Some(v),
        age(written, now) > d ==> live_value(m.insert(key, (v, written)), key, d, now) is None,
{
}

/// Writing a key twice leaves one entry, the second value with the second
/// stamp; the second write finds the first value, expired or not.
pub proof fn lemma_insert_overwrites<K, T>(
    m: Map<K, (T, u128)>,
    key: K,
    v1: T,
    t1: u128,
    v2: T,
    t2: u128,
)
    ensures
        stored_value(m.insert(key, (v1, t1)), key) == Some(v1),
        m.insert(key, (v1, t1)).insert(key, (v2, t2)) == m.insert(key, (v2, t2)),
        m.insert(key, (v2, t2))[key] == (v2, t2),
        m.insert(key, (v2, t2)).dom() == m.dom().insert(key),
{
    assert(m.insert(key, (v1, t1)).insert(key, (v2, t2)) =~= m.insert(key, (v2, t2)));
}

/// Removing an absent key finds nothing and leaves the map as it was.
pub proof fn lemma_remove_absent<K, T>(m: Map<K, (T, u128)>, key: K)
    requires
        !m.contains_key(key),
    ensures
        stored_value(m, key) is None,
        m.remove(key) == m,
{
    assert(m.remove(key) =~= m);
}

/// After a clear, reading every live entry finds none, and reading any one
/// key finds nothing.
pub proof fn lemma_cleared_view_is_empty<K, T>(key: K, ttl: u128, now: u128)
    ensures
        live_view(Map::<K, (T, u128)>::empty(), ttl, now) == Map::<K, T>::empty(),
        live_value(Map::<K, (T, u128)>::empty(), key, ttl, now) is None,
{
    assert(live_view(Map::<K, (T, u128)>::empty(), ttl, now) =~= Map::<K, T>::empty());
}

/// Reading every live entry skips all that are older than a nonzero ttl, and
/// with a zero ttl keeps every entry.
pub proof fn lemma_view_respects_ttl<K, T>(m: Map<K, (T, u128)>, ttl: u128, now: u128)
    ensures
        ttl != 0 ==> forall|k: K| #[trigger]
            live_view(m, ttl, now).contains_key(k) ==> age(m[k].1, now) <= ttl,
        forall|k: K| #[trigger]
            live_view(m, ttl, now).contains_key(k) ==> live_view(m, ttl, now)[k] == m[k].0,
        live_view(m, 0, now).dom() == m.dom(),
{
    assert(live_view(m, 0, now).dom() =~= m.dom());
}

} // verus!
