//! Support layer for a native zero-knowledge proof engine.
//!
//! The library owns the data handling around invoking the engine: resolving
//! and caching the structured reference string (SRS), the length-prefixed
//! buffer protocol that moves variable-length data across the call boundary,
//! and the decomposition of a proving response into public inputs and raw
//! proof material. The engine calls themselves, the network and file I/O
//! that feed the SRS resolution, and the foreign-memory handling live in the
//! surrounding application code; everything here is plain verified Rust over
//! byte vectors.

use vstd::prelude::*;

pub mod cache;
pub mod codec;
pub mod prove;
pub mod srs;
pub mod utils;

verus! {

/// Circuit metrics reported by the native engine's circuit-size inspection
/// call: the total constraint count and the proving subgroup size.
#[derive(Debug)]
pub struct CircuitSizes {
    pub total: u32,
    pub subgroup: u32,
}

/// Every way a request to the support layer can fail.
///
/// All failures surface as typed results to the immediate caller; no stage
/// substitutes zeroed, default, or partial data for an expected result.
#[derive(Clone, Copy, Debug, PartialEq, Eq, Structural)]
pub enum BbError {
    /// A fetch failed or returned a non-success status; retryable.
    NetworkError,
    /// A local SRS file is missing, unreadable, or malformed.
    LocalFileError,
    /// A requested point count exceeds the stored point count.
    RangeError,
    /// A decoded native buffer misses its expected prefix, is truncated, or
    /// is not a multiple of the element size.
    MalformedResponse,
    /// A read-only access was attempted before the cache was populated.
    NotInitialized,
    /// An opaque failure signaled by the native engine itself.
    NativeCallFailure,
}

} // verus!
