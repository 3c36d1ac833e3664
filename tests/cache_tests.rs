use hash_cache::expiry::{clear_entries, collect_live, entry_is_live, lookup_live, remove_entry, store_entry};
use hash_cache::{CachePoisonedError, HashCache, TimeSpan, READ_FAILURE, WRITE_FAILURE};
use std::collections::HashMap;

const SEC: u128 = 1_000_000_000;

#[test]
fn test_write_then_read() {
    let cache: HashCache<&str, Vec<u8>> = HashCache::new(TimeSpan::new(5, 0));
    let val = vec![1, 2, 3];
    let _ = cache.insert("3", &val);
    assert_eq!(Some(val), cache.get(&"3").unwrap());
}

#[test]
fn stale_entry_is_hidden_but_kept() {
    let mut map: HashMap<&str, (Vec<u8>, u128)> = HashMap::new();
    assert_eq!(store_entry(&mut map, "3", &vec![1, 2, 3], 0), None);
    assert_eq!(lookup_live(&map, &"3", 5 * SEC, 0), Some(vec![1, 2, 3]));
    assert_eq!(lookup_live(&map, &"3", 5 * SEC, 6 * SEC), None);
    assert!(collect_live(&map, 5 * SEC, 6 * SEC).is_empty());
    assert_eq!(map.get("3"), Some(&(vec![1, 2, 3], 0)));
}

#[test]
fn entry_at_exactly_ttl_is_live() {
    assert!(entry_is_live(5 * SEC, 0, 5 * SEC));
    assert!(!entry_is_live(5 * SEC, 0, 5 * SEC + 1));
    assert!(entry_is_live(0, 0, u128::MAX));
    assert!(entry_is_live(1, 10, 3));
}

#[test]
fn zero_ttl_never_expires() {
    let mut map: HashMap<u32, (String, u128)> = HashMap::new();
    store_entry(&mut map, 7, &"seven".to_string(), 1);
    store_entry(&mut map, 8, &"eight".to_string(), 2);
    assert_eq!(lookup_live(&map, &7, 0, u128::MAX), Some("seven".to_string()));
    let all = collect_live(&map, 0, u128::MAX);
    assert_eq!(all.len(), 2);
    assert_eq!(all.get(&8), Some(&"eight".to_string()));

    let cache: HashCache<u32, String> = HashCache::new(TimeSpan::from_secs(0));
    cache.insert(1, &"one".to_string()).unwrap();
    assert_eq!(cache.get(&1).unwrap(), Some("one".to_string()));
}

#[test]
fn get_all_keeps_only_fresh_entries() {
    let mut map: HashMap<u32, (u64, u128)> = HashMap::new();
    store_entry(&mut map, 1, &10, 0);
    store_entry(&mut map, 2, &20, 4 * SEC);
    let live = collect_live(&map, 5 * SEC, 6 * SEC);
    assert_eq!(live.len(), 1);
    assert_eq!(live.get(&2), Some(&20));
    assert_eq!(collect_live(&map, 0, 6 * SEC).len(), 2);
}

#[test]
fn second_insert_returns_first_value_even_if_expired() {
    let mut map: HashMap<u32, (u64, u128)> = HashMap::new();
    store_entry(&mut map, 1, &10, 0);
    assert_eq!(store_entry(&mut map, 1, &11, 100 * SEC), Some(10));
    assert_eq!(map.len(), 1);
    assert_eq!(map.get(&1), Some(&(11, 100 * SEC)));

    let cache: HashCache<&str, u64> = HashCache::new(TimeSpan::new(60, 0));
    assert_eq!(cache.insert("k", &1).unwrap(), None);
    assert_eq!(cache.insert("k", &2).unwrap(), Some(1));
    assert_eq!(cache.get(&"k").unwrap(), Some(2));
    assert_eq!(cache.reader().unwrap().len(), 1);
}

#[test]
fn remove_absent_key_is_ok_none() {
    let cache: HashCache<&str, u64> = HashCache::new(TimeSpan::from_secs(5));
    assert!(matches!(cache.remove(&"nope"), Ok(None)));
    cache.insert("a", &3).unwrap();
    assert_eq!(cache.remove(&"a").unwrap(), Some(3));
    assert_eq!(cache.get(&"a").unwrap(), None);

    let mut map: HashMap<u32, (u64, u128)> = HashMap::new();
    assert_eq!(remove_entry(&mut map, &4), None);
}

#[test]
fn clear_then_get_all_is_empty() {
    let cache: HashCache<u32, u64> = HashCache::new(TimeSpan::from_secs(5));
    cache.insert(1, &1).unwrap();
    cache.insert(2, &2).unwrap();
    assert_eq!(cache.get_all().unwrap().len(), 2);
    cache.clear().unwrap();
    assert!(cache.get_all().unwrap().is_empty());
}

#[test]
fn readers_share_the_lock() {
    let cache: HashCache<u32, u64> = HashCache::new(TimeSpan::from_secs(5));
    cache.insert(1, &1).unwrap();
    let first = cache.reader().unwrap();
    let second = cache.reader().unwrap();
    assert_eq!(cache.get(&1).unwrap(), Some(1));
    assert_eq!(first.len(), second.len());
    drop(first);
    drop(second);
    cache.writer().unwrap().clear();
    assert_eq!(cache.get(&1).unwrap(), None);
}

#[test]
fn entries_given_up_front_never_expire() {
    let mut map: HashMap<u32, (u64, u128)> = HashMap::new();
    map.insert(5, (50, 0));
    let cache = HashCache::from_entries(map);
    assert_eq!(cache.get(&5).unwrap(), Some(50));
}

#[test]
fn time_span_carries_nanoseconds() {
    let span = TimeSpan::new(1, 1_500_000_000);
    assert_eq!(span.secs, 2);
    assert_eq!(span.nanos, 500_000_000);
    assert_eq!(span.as_nanos(), 2_500_000_000);
    assert!(TimeSpan::new(0, 0).is_zero());
    assert!(!TimeSpan::from_secs(5).is_zero());
    assert_eq!(TimeSpan::from_secs(5).as_nanos(), 5 * SEC);
}

#[test]
fn poisoning_errors_name_the_access() {
    let read = CachePoisonedError(READ_FAILURE);
    let write = CachePoisonedError(WRITE_FAILURE);
    assert_eq!(
        read.message(),
        "Failed to acquire read guard for cache failed due to poisoning"
    );
    assert_eq!(
        write.message(),
        "Failed to acquire write guard for cache failed due to poisoning"
    );
    assert_ne!(read.message(), write.message());
}

#[test]
fn clear_entries_drops_stale_and_fresh() {
    let mut map: HashMap<u32, (u64, u128)> = HashMap::new();
    store_entry(&mut map, 1, &10, 0);
    store_entry(&mut map, 2, &20, 9 * SEC);
    clear_entries(&mut map);
    assert!(map.is_empty());
    clear_entries(&mut map);
    assert!(map.is_empty());
    assert_eq!(lookup_live(&map, &2, 0, 9 * SEC), None);
    assert!(collect_live(&map, 0, 9 * SEC).is_empty());
}
