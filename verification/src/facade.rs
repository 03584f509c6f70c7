use vstd::prelude::*;

use crate::error::CacheError;
use crate::key::HashableObject;
use crate::store::CacheEntry;
use crate::store::ObjectLruCache;
use crate::store::insert_order;
use crate::store::promote_order;

verus! {

// The operation surface the command layer drives. Each keyed operation takes
// the lookup's resolution — `Some(i)` when the foreign equality predicate
// accepted the stored key at recency index `i`, `None` when no stored key
// was accepted — and turns a miss into an absence value, never an error.
// The caller obtains the resolution by scanning with
// `ObjectLruCache::next_candidate` and asking the foreign predicate about
// each candidate; a foreign failure on that path aborts the operation before
// any of these run, so an aborted operation leaves no partial mutation.
/// Creates a store from a requested capacity: no request means unbounded,
/// a negative request or one beyond the machine word is refused as
/// `InvalidCapacity`, anything else bounds the store.
pub fn new_cache(requested: Option<i64>) -> (r: Result<ObjectLruCache, CacheError>)
    ensures
        match requested {
            None => r matches Ok(c) && c@.len() == 0 && c.cap() == usize::MAX && c.inv(),
            Some(n) => if 0 <= n <= usize::MAX {
                r matches Ok(c) && c@.len() == 0 && c.cap() == n && c.inv()
            } else {
                r == Err::<ObjectLruCache, CacheError>(CacheError::InvalidCapacity)
            },
        },
{
    match requested {
        None => Ok(ObjectLruCache::unbounded()),
        Some(n) => {
            if n < 0 {
                Err(CacheError::InvalidCapacity)
            } else if n as u64 > usize::MAX as u64 {
                Err(CacheError::InvalidCapacity)
            } else {
                Ok(ObjectLruCache::new(n as usize))
            }
        },
    }
}

/// Lookup with promotion: on a hit the entry becomes most recently used and
/// its value is returned; a miss returns nothing and mutates nothing.
pub fn load(cache: &mut ObjectLruCache, hit: Option<usize>) -> (r: Option<u64>)
    requires
        hit matches Some(i) ==> i < old(cache)@.len(),
    ensures
        match hit {
            Some(i) => r == Some(old(cache)@[i as int].value) && final(cache)@ == promote_order(
                old(cache)@,
                i as int,
            ),
            None => r == None::<u64> && final(cache)@ == old(cache)@,
        },
        final(cache)@.len() == old(cache)@.len(),
        final(cache).cap() == old(cache).cap(),
        old(cache).inv() ==> final(cache).inv(),
{
    match hit {
        Some(i) => Some(cache.get_at(i)),
        None => None,
    }
}

/// Insert or replace: the affected entry becomes most recently used either
/// way. A replacement returns the displaced value and keeps the stored key;
/// a fresh insert returns nothing and, in the same atomic step, evicts the
/// least recently used entry if the store was full.
pub fn store(cache: &mut ObjectLruCache, hit: Option<usize>, key: HashableObject, value: u64) -> (r:
    Option<u64>)
    requires
        old(cache).inv(),
        hit matches Some(i) ==> i < old(cache)@.len(),
    ensures
        match hit {
            Some(i) => r == Some(old(cache)@[i as int].value) && final(cache)@ == promote_order(
                old(cache)@.update(
                    i as int,
                    (CacheEntry { key: old(cache)@[i as int].key, value }),
                ),
                i as int,
            ),
            None => r == None::<u64> && final(cache)@ == insert_order(
                old(cache)@,
                old(cache).cap(),
                (CacheEntry { key, value }),
            ),
        },
        final(cache).cap() == old(cache).cap(),
        final(cache).inv(),
{
    match hit {
        Some(i) => Some(cache.put_replace(i, value)),
        None => {
            let _evicted = cache.put_insert(key, value);
            None
        },
    }
}

/// Explicit removal: on a hit the entry is removed and its value returned,
/// leaving the recency order of the remaining entries unchanged; a miss
/// returns nothing and mutates nothing.
pub fn delete(cache: &mut ObjectLruCache, hit: Option<usize>) -> (r: Option<u64>)
    requires
        hit matches Some(i) ==> i < old(cache)@.len(),
    ensures
        match hit {
            Some(i) => r == Some(old(cache)@[i as int].value) && final(cache)@ == old(
                cache,
            )@.remove(i as int),
            None => r == None::<u64> && final(cache)@ == old(cache)@,
        },
        final(cache).cap() == old(cache).cap(),
        old(cache).inv() ==> final(cache).inv(),
{
    match hit {
        Some(i) => Some(cache.delete_at(i)),
        None => None,
    }
}

/// Lookup without promotion: reads the value of a hit but never touches the
/// recency order, so a peek can never change which entry is evicted next.
pub fn peek(cache: &ObjectLruCache, hit: Option<usize>) -> (r: Option<u64>)
    requires
        hit matches Some(i) ==> i < cache@.len(),
    ensures
        match hit {
            Some(i) => r == Some(cache@[i as int].value),
            None => r == None::<u64>,
        },
{
    match hit {
        Some(i) => Some(cache.peek_at(i)),
        None => None,
    }
}

/// Presence test: a key is contained exactly when the lookup resolved to a
/// hit; no mutation.
pub fn has_key(hit: Option<usize>) -> (r: bool)
    ensures
        r == (hit matches Some(_)),
{
    match hit {
        Some(_) => true,
        None => false,
    }
}

} // verus!
