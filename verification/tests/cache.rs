use rusty_lru::facade;
use rusty_lru::CacheError;
use rusty_lru::HashableObject;
use rusty_lru::ObjectLruCache;

/// Resolves a probe key against the store the way the command layer does:
/// scan the hash pre-filter's candidates and ask the foreign equality
/// predicate about each. Here handle identity stands in for that predicate.
fn resolve(cache: &ObjectLruCache, key: &HashableObject) -> Option<usize> {
    let mut from: usize = 0;
    while let Some(i) = cache.next_candidate(key.hash, from) {
        let stored = cache.key_at(i);
        let verdict = HashableObject::eq_from_foreign(Some(stored.handle == key.handle));
        if verdict.unwrap() {
            return Some(i);
        }
        from = i + 1;
    }
    None
}

#[test]
fn test() {
    // A key snapshots exactly the hash the foreign runtime reported.
    let nil = HashableObject::from_foreign_hash(0, Some(4)).unwrap();
    let hash1 = 4i64;
    let hash2 = nil.hash;
    assert_eq!(hash1, hash2);

    // Create a cache and make sure it works.
    let mut cache = ObjectLruCache::new(2);
    let key1 = HashableObject::from_foreign_hash(1, Some(100)).unwrap();
    let key2 = HashableObject::from_foreign_hash(2, Some(200)).unwrap();

    let val1 = 11u64;
    let val2 = 12u64;

    let hit = resolve(&cache, &key1);
    assert_eq!(facade::store(&mut cache, hit, key1, val1), None);
    // Returns the old value if there was one.
    let hit = resolve(&cache, &key1);
    assert_eq!(facade::store(&mut cache, hit, key1, val2), Some(val1));
    assert_eq!(facade::has_key(resolve(&cache, &key1)), true);

    // These have different caching behaviours, but should all return the same.
    let hit = resolve(&cache, &key2);
    assert_eq!(facade::load(&mut cache, hit), None);
    assert_eq!(facade::peek(&cache, resolve(&cache, &key2)), None);
    let hit = resolve(&cache, &key2);
    assert_eq!(facade::delete(&mut cache, hit), None);

    let hit = resolve(&cache, &key1);
    assert_eq!(facade::load(&mut cache, hit), Some(val2));
    assert_eq!(facade::peek(&cache, resolve(&cache, &key1)), Some(val2));
    let hit = resolve(&cache, &key1);
    assert_eq!(facade::delete(&mut cache, hit), Some(val2));
    let hit = resolve(&cache, &key1);
    assert_eq!(facade::delete(&mut cache, hit), None);
    assert_eq!(facade::peek(&cache, resolve(&cache, &key1)), None);
}

#[test]
fn empty_store_queries() {
    let mut cache = ObjectLruCache::new(3);
    assert!(cache.is_empty());
    assert_eq!(cache.len(), 0);
    assert_eq!(cache.capacity(), 3);
    assert_eq!(cache.pop_lru(), None);
    assert_eq!(cache.peek_lru(), None);
    assert_eq!(cache.pairs(), Vec::new());
    assert_eq!(cache.keys(), Vec::<u64>::new());
    assert_eq!(cache.values(), Vec::<u64>::new());
}

#[test]
fn snapshots_in_recency_order() {
    let mut cache = ObjectLruCache::new(4);
    let ka = HashableObject::from_foreign_hash(1, Some(10)).unwrap();
    let kb = HashableObject::from_foreign_hash(2, Some(20)).unwrap();
    let kc = HashableObject::from_foreign_hash(3, Some(30)).unwrap();
    let hit = resolve(&cache, &ka);
    facade::store(&mut cache, hit, ka, 100);
    let hit = resolve(&cache, &kb);
    facade::store(&mut cache, hit, kb, 200);
    let hit = resolve(&cache, &kc);
    facade::store(&mut cache, hit, kc, 300);
    // Most recently used first.
    assert_eq!(cache.pairs(), vec![(3, 300), (2, 200), (1, 100)]);
    assert_eq!(cache.keys(), vec![3, 2, 1]);
    assert_eq!(cache.values(), vec![300, 200, 100]);
    // A hit get reorders the snapshots; a peek does not.
    let hit = resolve(&cache, &kb);
    assert_eq!(facade::load(&mut cache, hit), Some(200));
    assert_eq!(cache.keys(), vec![2, 3, 1]);
    assert_eq!(facade::peek(&cache, resolve(&cache, &ka)), Some(100));
    assert_eq!(cache.keys(), vec![2, 3, 1]);
}

#[test]
fn delete_keeps_order_of_rest() {
    let mut cache = ObjectLruCache::new(4);
    let ka = HashableObject::from_foreign_hash(1, Some(10)).unwrap();
    let kb = HashableObject::from_foreign_hash(2, Some(20)).unwrap();
    let kc = HashableObject::from_foreign_hash(3, Some(30)).unwrap();
    let hit = resolve(&cache, &ka);
    facade::store(&mut cache, hit, ka, 100);
    let hit = resolve(&cache, &kb);
    facade::store(&mut cache, hit, kb, 200);
    let hit = resolve(&cache, &kc);
    facade::store(&mut cache, hit, kc, 300);
    let hit = resolve(&cache, &kb);
    assert_eq!(facade::delete(&mut cache, hit), Some(200));
    assert_eq!(cache.keys(), vec![3, 1]);
    assert_eq!(cache.len(), 2);
}

#[test]
fn unbounded_store_grows_freely() {
    let mut cache = ObjectLruCache::unbounded();
    for n in 0..100u64 {
        let k = HashableObject::from_foreign_hash(n, Some(n as i64)).unwrap();
        let hit = resolve(&cache, &k);
        assert_eq!(facade::store(&mut cache, hit, k, n + 1000), None);
    }
    assert_eq!(cache.len(), 100);
    // The first insertion is now least recently used.
    assert_eq!(cache.peek_lru().unwrap().value, 1000);
}

#[test]
fn capacity_zero_store_retains_nothing() {
    let mut cache = ObjectLruCache::new(0);
    let k = HashableObject::from_foreign_hash(1, Some(10)).unwrap();
    let hit = resolve(&cache, &k);
    assert_eq!(facade::store(&mut cache, hit, k, 100), None);
    assert!(cache.is_empty());
    assert_eq!(facade::peek(&cache, resolve(&cache, &k)), None);
}

#[test]
fn new_cache_capacity_policy() {
    let bounded = facade::new_cache(Some(2)).unwrap();
    assert_eq!(bounded.capacity(), 2);
    let unbounded = facade::new_cache(None).unwrap();
    assert_eq!(unbounded.capacity(), usize::MAX);
    assert!(matches!(facade::new_cache(Some(-1)), Err(CacheError::InvalidCapacity)));
    assert!(matches!(facade::new_cache(Some(i64::MIN)), Err(CacheError::InvalidCapacity)));
}

#[test]
fn foreign_failures_propagate() {
    // A raising foreign hash aborts key construction.
    assert_eq!(
        HashableObject::from_foreign_hash(1, None).unwrap_err(),
        CacheError::HashComputationFailed,
    );
    // A raising foreign equality predicate aborts the lookup.
    assert_eq!(
        HashableObject::eq_from_foreign(None).unwrap_err(),
        CacheError::EqualityTestFailed,
    );
    assert_eq!(HashableObject::eq_from_foreign(Some(true)), Ok(true));
    assert_eq!(HashableObject::eq_from_foreign(Some(false)), Ok(false));
}
