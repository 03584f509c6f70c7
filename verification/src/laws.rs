use vstd::prelude::*;

use crate::key::HashableObject;
use crate::store::CacheEntry;
use crate::store::insert_evicted;
use crate::store::insert_order;
use crate::store::promote_order;

verus! {

// The store-wide guarantees that relate several operations. Each is stated
// over the order-transition functions that the operations' own contracts
// use, so together with those contracts it holds of the executable store.
// The size bound itself needs no law here: `ObjectLruCache::inv` is
// established by both constructors and stands in the postcondition of every
// mutating operation.
/// Promoting the entry that is already most recently used changes nothing,
/// so a lookup that resolves to index 0 leaves the whole order as it was.
pub proof fn lemma_promote_mru_is_noop(s: Seq<CacheEntry>)
    requires
        s.len() > 0,
    ensures
        promote_order(s, 0) == s,
{
    assert(promote_order(s, 0) =~= s);
}

/// A `put` that inserts leaves the fresh key and value as the most recently
/// used entry whenever the store can retain anything at all. With
/// `lemma_promote_mru_is_noop`, a `get` that then resolves to that entry
/// returns the value just put and keeps it most recently used.
pub proof fn lemma_put_insert_leaves_mru(s: Seq<CacheEntry>, c: nat, k: HashableObject, v: u64)
    requires
        0 < c,
    ensures
        insert_order(s, c, (CacheEntry { key: k, value: v })).len() > 0,
        insert_order(s, c, (CacheEntry { key: k, value: v }))[0] == (CacheEntry {
            key: k,
            value: v,
        }),
{
}

/// A `put` that replaces leaves the stored key — the one the foreign
/// predicate accepted for the probe — with the fresh value as the most
/// recently used entry; with `lemma_promote_mru_is_noop`, a `get` that then
/// resolves to it returns the value just put and keeps it most recently
/// used.
pub proof fn lemma_put_replace_leaves_mru(s: Seq<CacheEntry>, i: int, v: u64)
    requires
        0 <= i < s.len(),
    ensures
        promote_order(s.update(i, (CacheEntry { key: s[i].key, value: v })), i).len() == s.len(),
        promote_order(s.update(i, (CacheEntry { key: s[i].key, value: v })), i)[0] == (CacheEntry {
            key: s[i].key,
            value: v,
        }),
{
}

/// An insert into a full store evicts exactly the entry that was least
/// recently used immediately before: that entry is the one returned as
/// evicted, every other entry survives shifted one place toward the least
/// recently used end, and the size stays at capacity.
pub proof fn lemma_full_insert_evicts_lru(s: Seq<CacheEntry>, c: nat, e: CacheEntry)
    requires
        s.len() == c,
        0 < c,
    ensures
        insert_evicted(s, c, e) == Some(s.last()),
        insert_order(s, c, e).len() == c,
        insert_order(s, c, e)[0] == e,
        forall|j: int| 0 <= j < c - 1 ==> insert_order(s, c, e)[j + 1] == s[j],
{
}

/// Promotion is the only way the next eviction victim moves: promoting any
/// entry other than the current least recently used keeps the victim, while
/// promoting the least recently used entry of a store with more than one
/// entry hands the victim role to its neighbour. A peek, which promotes
/// nothing, therefore never changes the outcome of a following `pop_lru`,
/// whereas a hit `get` on the victim does.
pub proof fn lemma_promotion_moves_victim(s: Seq<CacheEntry>, i: int)
    requires
        0 <= i < s.len(),
    ensures
        promote_order(s, i).len() == s.len(),
        i < s.len() - 1 ==> promote_order(s, i).last() == s.last(),
        i == s.len() - 1 && s.len() > 1 ==> promote_order(s, i).last() == s[s.len() - 2],
{
    if i < s.len() - 1 {
        assert(promote_order(s, i).last() == s.subrange(i + 1, s.len() as int).last());
    }
}

/// Keys whose snapshotted hashes collide but whose handles the foreign
/// predicate keeps apart stay distinct entries: an insert whose lookup
/// resolved to a miss keeps every existing entry — the colliding one
/// included — beside the fresh one, merging and evicting nothing while the
/// store is below capacity.
pub proof fn lemma_collision_keeps_both(s: Seq<CacheEntry>, c: nat, e: CacheEntry, i: int)
    requires
        s.len() < c,
        0 <= i < s.len(),
        s[i].key.hash == e.key.hash,
    ensures
        insert_evicted(s, c, e) == None::<CacheEntry>,
        insert_order(s, c, e).len() == s.len() + 1,
        insert_order(s, c, e)[0] == e,
        insert_order(s, c, e)[i + 1] == s[i],
        forall|j: int| 0 <= j < s.len() ==> insert_order(s, c, e)[j + 1] == s[j],
{
}

} // verus!
