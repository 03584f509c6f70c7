use vstd::prelude::*;

verus! {

/// The failures a cache operation can surface to its caller.
///
/// Absence of a key is never an error: lookups report a miss through
/// `Option::None`. Errors arise only from the foreign runtime refusing to
/// answer, or from a nonsensical capacity request.
#[derive(Clone, Copy, PartialEq, Eq, Structural, Debug)]
pub enum CacheError {
    /// The foreign hash computation for a key raised instead of returning an
    /// integer; the operation that needed the key is aborted.
    HashComputationFailed,
    /// The foreign equality predicate raised instead of returning a verdict;
    /// the lookup that consulted it is aborted.
    EqualityTestFailed,
    /// A requested capacity is negative or does not fit the machine word.
    InvalidCapacity,
}

} // verus!
