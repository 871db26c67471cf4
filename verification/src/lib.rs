//! Core of a sentence-embedding pipeline: it turns tokenized texts into
//! padded, mask-consistent numeric batches for an opaque transformer model,
//! with proofs of the layout invariants a correct embedding depends on —
//! shape equality across the three grids, the padding sentinel beyond each
//! sequence, silent truncation at the configured cap, padding-neutral row
//! content, and the per-row mask counts that mean pooling divides by. The
//! engine's two-state lifecycle (unloaded, then loaded for good) guards every
//! call. The floating-point stages — the forward pass, pooling, L2
//! normalization and cosine similarity — belong to the host layer around
//! this library.

use vstd::prelude::*;

pub mod batch;
pub mod engine;
pub mod errors;
pub mod tokens;

verus! {

/// Width of one embedding vector produced by the default model family.
pub const HIDDEN_SIZE: usize = 384;

/// Longest token sequence the batch builder will lay out; longer
/// sequences are truncated, never rejected.
pub const MAX_SEQUENCE_LENGTH: usize = 256;

/// How per-token vectors are collapsed into one vector per text.
#[derive(Debug, Clone, Copy, PartialEq, Eq, Structural)]
pub enum PoolingStrategy {
    /// Mask-weighted mean over all real token positions.
    Mean,
    /// The first token's vector alone.
    Cls,
}

} // verus!
