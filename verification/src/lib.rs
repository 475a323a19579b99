//! Similarity-scoring core for a vector search engine.
//!
//! The library covers the byte-quantized metric kernels (dot product, cosine,
//! Euclidean) together with the capability-gated dispatch among their
//! accelerated variants, the structured recommendation query and its merge
//! algorithm, and the generic fallible transformation of a query's reference
//! vectors.

pub mod cosine;
pub mod dot;
pub mod euclid;
pub mod issues;
pub mod metric;
pub mod query;
pub mod snapshot;
pub mod types;
