use vstd::prelude::*;

use crate::error::CacheError;

verus! {

/// A cache key: an opaque handle into the foreign runtime, paired with the
/// foreign hash value snapshotted once when the key was constructed.
///
/// The snapshot serves only as a pre-filter during lookup: two keys are the
/// same entry exactly when the foreign equality predicate says their handles
/// are equal, which equal snapshots do not imply. The foreign object is
/// assumed not to change its hash while it is cached; the hash is never
/// re-queried after construction.
#[derive(Clone, Copy, PartialEq, Eq, Structural, Debug)]
pub struct HashableObject {
    /// Opaque reference to an object owned by the foreign runtime's heap.
    pub handle: u64,
    /// The foreign runtime's hash of `handle`, captured at construction.
    pub hash: i64,
}

impl HashableObject {
    /// Builds a key from the outcome of the one foreign hash call made for
    /// it. The caller performs that call and hands the outcome in: `Some`
    /// carries the returned hash, `None` records that the foreign code
    /// raised, which aborts key construction (and with it whichever cache
    /// operation needed the key) rather than being swallowed.
    pub fn from_foreign_hash(handle: u64, foreign_hash: Option<i64>) -> (r: Result<
        HashableObject,
        CacheError,
    >)
        ensures
            match foreign_hash {
                Some(h) => r == Ok::<HashableObject, CacheError>(
                    (HashableObject { handle, hash: h }),
                ),
                None => r == Err::<HashableObject, CacheError>(CacheError::HashComputationFailed),
            },
    {
        match foreign_hash {
            Some(h) => Ok(HashableObject { handle, hash: h }),
            None => Err(CacheError::HashComputationFailed),
        }
    }

    /// Interprets the outcome of one foreign equality call between a probe
    /// key's handle and a stored key's handle: `Some` carries the verdict,
    /// `None` records that the foreign predicate raised, which aborts the
    /// enclosing lookup.
    pub fn eq_from_foreign(outcome: Option<bool>) -> (r: Result<bool, CacheError>)
        ensures
            match outcome {
                Some(b) => r == Ok::<bool, CacheError>(b),
                None => r == Err::<bool, CacheError>(CacheError::EqualityTestFailed),
            },
    {
        match outcome {
            Some(b) => Ok(b),
            None => Err(CacheError::EqualityTestFailed),
        }
    }
}

} // verus!
