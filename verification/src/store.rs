use vstd::prelude::*;

use crate::key::HashableObject;

verus! {

/// One cached association: a key (handle plus snapshotted foreign hash) and
/// the handle of the cached value.
#[derive(Clone, Copy, PartialEq, Eq, Structural, Debug)]
pub struct CacheEntry {
    pub key: HashableObject,
    pub value: u64,
}

/// The bounded least-recently-used store.
///
/// Entries are kept in recency order, most recently used first: the view is
/// the sequence of entries with index 0 the most recently used and the last
/// index the least recently used, a strict total order with no ties.
///
/// The store never consults the foreign runtime itself: lookups resolve
/// foreign equality outside the store (see [`Self::next_candidate`] and the
/// facade), and each operation here is one atomic step. A foreign callback
/// that re-enters the cache therefore runs between steps, never inside one,
/// and can observe only a consistent store.
pub struct ObjectLruCache {
    entries: Vec<CacheEntry>,
    capacity: usize,
}

/// The recency order after promoting the entry at index `i` to most recently
/// used; the relative order of all other entries is kept.
pub open spec fn promote_order(s: Seq<CacheEntry>, i: int) -> Seq<CacheEntry> {
    seq![s[i]] + s.subrange(0, i) + s.subrange(i + 1, s.len() as int)
}

/// The recency order after inserting `e` as most recently used into a store
/// of capacity `c`: the insert and any eviction it forces are one atomic
/// step, so the bound is never exceeded even transiently. With capacity 0
/// the inserted entry is itself immediately evicted.
pub open spec fn insert_order(s: Seq<CacheEntry>, c: nat, e: CacheEntry) -> Seq<CacheEntry> {
    if c == 0 {
        s
    } else if s.len() < c {
        seq![e] + s
    } else {
        seq![e] + s.drop_last()
    }
}

/// The entry evicted by inserting `e` into a store of capacity `c`: the
/// least recently used entry when the store is full, the fresh entry itself
/// when the capacity is 0, and nothing otherwise.
pub open spec fn insert_evicted(s: Seq<CacheEntry>, c: nat, e: CacheEntry) -> Option<CacheEntry> {
    if c == 0 {
        Some(e)
    } else if s.len() < c {
        None
    } else {
        Some(s.last())
    }
}

impl View for ObjectLruCache {
    type V = Seq<CacheEntry>;

    closed spec fn view(&self) -> Seq<CacheEntry> {
        self.entries@
    }
}

impl ObjectLruCache {
    /// The configured capacity; `usize::MAX` stands for an unbounded store.
    pub closed spec fn cap(self) -> nat {
        self.capacity as nat
    }

    /// The store's invariant: the size never exceeds the configured
    /// capacity. Constructors establish it and every operation preserves it.
    pub open spec fn inv(self) -> bool {
        self@.len() <= self.cap()
    }

    /// Creates an empty store bounded by `capacity`.
    pub fn new(capacity: usize) -> (r: ObjectLruCache)
        ensures
            r@.len() == 0,
            r.cap() == capacity,
            r.inv(),
    {
        ObjectLruCache { entries: Vec::new(), capacity }
    }

    /// Creates an empty store with no practical bound.
    pub fn unbounded() -> (r: ObjectLruCache)
        ensures
            r@.len() == 0,
            r.cap() == usize::MAX,
            r.inv(),
    {
        ObjectLruCache { entries: Vec::new(), capacity: usize::MAX }
    }

    /// The number of entries currently stored.
    pub fn len(&self) -> (n: usize)
        ensures
            n == self@.len(),
    {
        self.entries.len()
    }

    /// Whether the store holds no entries.
    pub fn is_empty(&self) -> (r: bool)
        ensures
            r == (self@.len() == 0),
    {
        self.entries.is_empty()
    }

    /// The configured capacity.
    pub fn capacity(&self) -> (c: usize)
        ensures
            c == self.cap(),
    {
        self.capacity
    }

    /// The key stored at recency index `i`, for the caller resolving a
    /// lookup: its handle is what the foreign equality predicate is asked
    /// about.
    pub fn key_at(&self, i: usize) -> (k: HashableObject)
        requires
            i < self@.len(),
        ensures
            k == self@[i as int].key,
    {
        self.entries[i].key
    }

    /// Reads the value at recency index `i` without promoting it: peeking
    /// takes the store by shared reference, so it cannot disturb the recency
    /// order at all.
    pub fn peek_at(&self, i: usize) -> (value: u64)
        requires
            i < self@.len(),
        ensures
            value == self@[i as int].value,
    {
        self.entries[i].value
    }

    /// Reads the value at recency index `i` and promotes that entry to most
    /// recently used; the relative order of every other entry is kept.
    pub fn get_at(&mut self, i: usize) -> (value: u64)
        requires
            i < old(self)@.len(),
        ensures
            value == old(self)@[i as int].value,
            final(self)@ == promote_order(old(self)@, i as int),
            final(self)@.len() == old(self)@.len(),
            final(self).cap() == old(self).cap(),
            old(self).inv() ==> final(self).inv(),
    {
        let e = self.entries.remove(i);
        self.entries.insert(0, e);
        proof {
            assert(self.entries@ =~= promote_order(old(self)@, i as int));
        }
        e.value
    }

    /// Replaces the value of the entry at recency index `i` and promotes the
    /// entry, keeping its stored key; returns the displaced value. This is
    /// the path a `put` takes when the foreign predicate found the key
    /// already present.
    pub fn put_replace(&mut self, i: usize, value: u64) -> (prev: u64)
        requires
            i < old(self)@.len(),
        ensures
            prev == old(self)@[i as int].value,
            final(self)@ == promote_order(
                old(self)@.update(i as int, (CacheEntry { key: old(self)@[i as int].key, value })),
                i as int,
            ),
            final(self)@.len() == old(self)@.len(),
            final(self).cap() == old(self).cap(),
            old(self).inv() ==> final(self).inv(),
    {
        let mut e = self.entries.remove(i);
        let prev = e.value;
        e.value = value;
        self.entries.insert(0, e);
        proof {
            let updated = old(self)@.update(
                i as int,
                (CacheEntry { key: old(self)@[i as int].key, value }),
            );
            assert(self.entries@ =~= promote_order(updated, i as int));
        }
        prev
    }

    /// Inserts a fresh entry as most recently used; this is the path a `put`
    /// takes when the foreign predicate found no equal key. If the store is
    /// full the least recently used entry is evicted in the same step, so
    /// the capacity bound is never exceeded even transiently; the evicted
    /// entry is returned so the caller can release its handles. A capacity-0
    /// store retains nothing: the fresh entry is itself the eviction victim.
    pub fn put_insert(&mut self, key: HashableObject, value: u64) -> (evicted: Option<CacheEntry>)
        requires
            old(self).inv(),
        ensures
            final(self)@ == insert_order(old(self)@, old(self).cap(), (CacheEntry { key, value })),
            evicted == insert_evicted(old(self)@, old(self).cap(), (CacheEntry { key, value })),
            final(self).cap() == old(self).cap(),
            final(self).inv(),
    {
        let e = CacheEntry { key, value };
        if self.capacity == 0 {
            return Some(e);
        }
        let evicted: Option<CacheEntry> = if self.entries.len() >= self.capacity {
            self.entries.pop()
        } else {
            None
        };
        self.entries.insert(0, e);
        proof {
            assert(self.entries@ =~= insert_order(old(self)@, old(self).cap(), e));
        }
        evicted
    }

    /// Removes the entry at recency index `i` and returns its value; the
    /// recency order of the remaining entries is unchanged. This is the path
    /// an explicit `delete` takes once the foreign predicate has located the
    /// key.
    pub fn delete_at(&mut self, i: usize) -> (value: u64)
        requires
            i < old(self)@.len(),
        ensures
            value == old(self)@[i as int].value,
            final(self)@ == old(self)@.remove(i as int),
            final(self).cap() == old(self).cap(),
            old(self).inv() ==> final(self).inv(),
    {
        let e = self.entries.remove(i);
        e.value
    }

    /// Removes and returns the least recently used entry, or nothing from an
    /// empty store.
    pub fn pop_lru(&mut self) -> (r: Option<CacheEntry>)
        ensures
            old(self)@.len() == 0 ==> r == None::<CacheEntry> && final(self)@ == old(self)@,
            old(self)@.len() > 0 ==> r == Some(old(self)@.last()) && final(self)@ == old(
                self,
            )@.drop_last(),
            final(self).cap() == old(self).cap(),
            old(self).inv() ==> final(self).inv(),
    {
        self.entries.pop()
    }

    /// Returns the least recently used entry without removing or promoting
    /// it, or nothing from an empty store.
    pub fn peek_lru(&self) -> (r: Option<CacheEntry>)
        ensures
            self@.len() == 0 ==> r == None::<CacheEntry>,
            self@.len() > 0 ==> r == Some(self@.last()),
    {
        if self.entries.len() == 0 {
            None
        } else {
            Some(self.entries[self.entries.len() - 1])
        }
    }

    /// Changes the capacity bound. If the store holds more than `new_cap`
    /// entries, least recently used entries are evicted until the size meets
    /// the new bound, so exactly the `new_cap` most recently used entries
    /// survive a shrink.
    pub fn resize(&mut self, new_cap: usize)
        ensures
            final(self).cap() == new_cap,
            final(self)@ == if old(self)@.len() <= new_cap {
                old(self)@
            } else {
                old(self)@.subrange(0, new_cap as int)
            },
            final(self).inv(),
    {
        self.entries.truncate(new_cap);
        self.capacity = new_cap;
    }

    /// Removes every entry; the capacity bound is kept.
    pub fn clear(&mut self)
        ensures
            final(self)@ == Seq::<CacheEntry>::empty(),
            final(self)@.len() == 0,
            final(self).cap() == old(self).cap(),
            final(self).inv(),
    {
        self.entries.clear();
    }

    /// The hash pre-filter of a lookup: scanning from recency index `start`,
    /// returns the first index whose stored key snapshotted the probe's
    /// hash, or nothing if no later entry did. The caller asks the foreign
    /// equality predicate about the candidate's handle and, on a `false`
    /// verdict, resumes the scan just past it — hash equality alone never
    /// identifies an entry.
    pub fn next_candidate(&self, hash: i64, start: usize) -> (r: Option<usize>)
        ensures
            match r {
                Some(i) => start <= i < self@.len() && self@[i as int].key.hash == hash && (forall|j: int|
                    start <= j < i ==> self@[j].key.hash != hash),
                None => forall|j: int| start <= j < self@.len() ==> self@[j].key.hash != hash,
            },
    {
        let mut i: usize = start;
        while i < self.entries.len()
            invariant
                start <= i,
                forall|j: int| start <= j < i ==> self@[j].key.hash != hash,
            decreases self@.len() - i,
        {
            if self.entries[i].key.hash == hash {
                return Some(i);
            }
            i = i + 1;
        }
        None
    }

    /// A snapshot of all entries as (key handle, value handle) pairs in
    /// recency order, most recently used first. Iteration hands out this
    /// snapshot rather than a live view, so a foreign callback that mutates
    /// the store mid-iteration cannot disturb the enumeration.
    pub fn pairs(&self) -> (r: Vec<(u64, u64)>)
        ensures
            r@.len() == self@.len(),
            forall|i: int|
                0 <= i < r@.len() ==> r@[i] == (self@[i].key.handle, self@[i].value),
    {
        let mut r: Vec<(u64, u64)> = Vec::new();
        let mut i: usize = 0;
        while i < self.entries.len()
            invariant
                i <= self@.len(),
                r@.len() == i,
                forall|j: int| 0 <= j < i ==> r@[j] == (self@[j].key.handle, self@[j].value),
            decreases self@.len() - i,
        {
            r.push((self.entries[i].key.handle, self.entries[i].value));
            i = i + 1;
        }
        r
    }

    /// A snapshot of all key handles in recency order, most recently used
    /// first.
    pub fn keys(&self) -> (r: Vec<u64>)
        ensures
            r@.len() == self@.len(),
            forall|i: int| 0 <= i < r@.len() ==> r@[i] == self@[i].key.handle,
    {
        let mut r: Vec<u64> = Vec::new();
        let mut i: usize = 0;
        while i < self.entries.len()
            invariant
                i <= self@.len(),
                r@.len() == i,
                forall|j: int| 0 <= j < i ==> r@[j] == self@[j].key.handle,
            decreases self@.len() - i,
        {
            r.push(self.entries[i].key.handle);
            i = i + 1;
        }
        r
    }

    /// A snapshot of all value handles in recency order, most recently used
    /// first.
    pub fn values(&self) -> (r: Vec<u64>)
        ensures
            r@.len() == self@.len(),
            forall|i: int| 0 <= i < r@.len() ==> r@[i] == self@[i].value,
    {
        let mut r: Vec<u64> = Vec::new();
        let mut i: usize = 0;
        while i < self.entries.len()
            invariant
                i <= self@.len(),
                r@.len() == i,
                forall|j: int| 0 <= j < i ==> r@[j] == self@[j].value,
            decreases self@.len() - i,
        {
            r.push(self.entries[i].value);
            i = i + 1;
        }
        r
    }
}

} // verus!
