//! A bounded least-recently-used cache whose keys and values are opaque
//! handles into a foreign managed-object runtime.
//!
//! The foreign runtime owns the objects behind the handles: it alone can hash
//! a handle, test two handles for equality, and reclaim objects it believes
//! unreachable. The cache therefore
//!
//! - snapshots the foreign hash once per key ([`key::HashableObject`]) and
//!   uses it only as a bucket pre-filter,
//! - takes every foreign hash or equality outcome as a plain value, so that
//!   each store operation is an atomic, verified step between foreign calls
//!   ([`store::ObjectLruCache`], [`facade`]), and
//! - enumerates every retained handle for the foreign collector's
//!   reachability scan ([`liveness`]).

pub mod error;
pub mod facade;
pub mod key;
pub mod laws;
pub mod liveness;
pub mod store;

pub use error::CacheError;
pub use key::HashableObject;
pub use store::CacheEntry;
pub use store::ObjectLruCache;
