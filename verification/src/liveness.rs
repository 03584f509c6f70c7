use vstd::prelude::*;

use crate::store::CacheEntry;
use crate::store::ObjectLruCache;

verus! {

/// The handles a store's contents keep alive, two per entry in recency
/// order: each entry contributes its key's handle and then its value handle.
pub open spec fn retained(s: Seq<CacheEntry>) -> Seq<u64>
    decreases s.len(),
{
    if s.len() == 0 {
        Seq::<u64>::empty()
    } else {
        retained(s.drop_last()) + seq![s.last().key.handle, s.last().value]
    }
}

impl ObjectLruCache {
    /// The complete enumeration the foreign collector's reachability scan
    /// needs: every handle the store currently retains, as either a key's
    /// handle or a value, each slot reported exactly once. The caller marks
    /// each listed handle reachable; a handle missing from this list could
    /// be reclaimed while still cached, so completeness is the contract.
    pub fn retained_handles(&self) -> (r: Vec<u64>)
        ensures
            r@ == retained(self@),
            r@.len() == 2 * self@.len(),
    {
        let mut r: Vec<u64> = Vec::new();
        let mut i: usize = 0;
        while i < self.len()
            invariant
                i <= self@.len(),
                r@ == retained(self@.subrange(0, i as int)),
                r@.len() == 2 * i,
            decreases self@.len() - i,
        {
            let k = self.key_at(i);
            r.push(k.handle);
            r.push(self.peek_at(i));
            proof {
                let pre = self@.subrange(0, i as int);
                let post = self@.subrange(0, i as int + 1);
                assert(post.drop_last() =~= pre);
                assert(post.last() == self@[i as int]);
                assert(r@ =~= retained(pre) + seq![self@[i as int].key.handle, self@[i as int].value]);
            }
            i = i + 1;
        }
        proof {
            assert(self@.subrange(0, self@.len() as int) =~= self@);
        }
        r
    }
}

/// The liveness scan is complete and reports nothing stale: a handle appears
/// in the enumeration of `s` exactly when some entry of `s` retains it, as
/// its key's handle or as its value.
pub proof fn lemma_scan_complete(s: Seq<CacheEntry>)
    ensures
        forall|h: u64|
            retained(s).contains(h) <==> (exists|i: int|
                0 <= i < s.len() && (s[i].key.handle == h || s[i].value == h)),
    decreases s.len(),
{
    if s.len() == 0 {
        assert(forall|h: u64| !retained(s).contains(h));
    } else {
        lemma_scan_complete(s.drop_last());
        let prefix = s.drop_last();
        let pair = seq![s.last().key.handle, s.last().value];
        assert(retained(s) == retained(prefix) + pair);
        assert forall|h: u64|
            retained(s).contains(h) <==> (exists|i: int|
                0 <= i < s.len() && (s[i].key.handle == h || s[i].value == h)) by {
            if retained(s).contains(h) {
                let j = choose|j: int| 0 <= j < retained(s).len() && retained(s)[j] == h;
                if j < retained(prefix).len() {
                    assert(retained(prefix)[j] == h);
                    assert(retained(prefix).contains(h));
                    let i = choose|i: int|
                        0 <= i < prefix.len() && (prefix[i].key.handle == h || prefix[i].value == h);
                    assert(s[i] == prefix[i]);
                } else {
                    assert(pair[j - retained(prefix).len()] == h);
                    assert(s[s.len() - 1].key.handle == h || s[s.len() - 1].value == h);
                }
            }
            if exists|i: int| 0 <= i < s.len() && (s[i].key.handle == h || s[i].value == h) {
                let i = choose|i: int|
                    0 <= i < s.len() && (s[i].key.handle == h || s[i].value == h);
                if i < s.len() - 1 {
                    assert(prefix[i] == s[i]);
                    assert(retained(prefix).contains(h));
                    let j = choose|j: int|
                        0 <= j < retained(prefix).len() && retained(prefix)[j] == h;
                    assert(retained(s)[j] == h);
                } else {
                    if s[i].key.handle == h {
                        assert(retained(s)[retained(prefix).len() as int] == h);
                    } else {
                        assert(retained(s)[retained(prefix).len() as int + 1] == h);
                    }
                }
            }
        }
    }
}

} // verus!
