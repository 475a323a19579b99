//! The uniform metric capability and its three byte-quantized impls.
//!
//! A `Metric` supplies the distance kind it represents, a similarity kernel,
//! and the one-time `preprocess` transformation applied when a vector is
//! stored. The similarity takes the machine's capability record and picks
//! the fastest kernel variant whose preconditions hold: the wide path needs
//! all of its instruction-set extensions and a long enough vector, the
//! narrow and mobile paths their own extension and a lower length threshold,
//! and the scalar kernel is always correct. Every path returns the one
//! specification value, so the choice is invisible in the result.

use vstd::prelude::*;

use crate::cosine::{avx_cosine_similarity_bytes, cosine_similarity_bytes,
    neon_cosine_similarity_bytes, spec_cosine, sse_cosine_similarity_bytes};
use crate::dot::{avx_dot_similarity_bytes, dot_similarity_bytes, lemma_dot_bounds,
    neon_dot_similarity_bytes, spec_dot, sse_dot_similarity_bytes};
use crate::euclid::{avx_euclid_similarity_bytes, euclid_similarity_bytes,
    lemma_sq_euclid_bounds, neon_euclid_similarity_bytes, spec_sq_euclid,
    sse_euclid_similarity_bytes};
use crate::types::{CpuFeatures, Distance, Score, MAX_ACCUM_DIM, MIN_DIM_SIZE_AVX,
    MIN_DIM_SIZE_SIMD};

verus! {

/// The capability every distance family implements. Callers are generic
/// over it, so the rest of the engine never branches on which metric a
/// collection was configured with.
pub trait Metric: Sized {
    /// The distance kind this metric stands for.
    spec fn spec_distance() -> Distance;

    /// The exact value every kernel variant of this metric returns.
    spec fn spec_similarity(s1: Seq<u8>, s2: Seq<u8>) -> Score;

    /// The model of the one-time storage transformation.
    spec fn spec_preprocess(s: Seq<u8>) -> Seq<u8>;

    fn distance() -> (d: Distance)
        ensures
            d == Self::spec_distance(),
    ;

    fn similarity(features: &CpuFeatures, v1: &Vec<u8>, v2: &Vec<u8>) -> (r: Score)
        requires
            v1@.len() == v2@.len(),
            v1@.len() <= MAX_ACCUM_DIM,
        ensures
            r == Self::spec_similarity(v1@, v2@),
    ;

    fn preprocess(vector: Vec<u8>) -> (r: Vec<u8>)
        ensures
            r@ == Self::spec_preprocess(vector@),
    ;
}

/// The cosine distance family.
pub struct CosineMetric;

/// The dot-product distance family.
pub struct DotProductMetric;

/// The Euclidean distance family.
pub struct EuclidMetric;

impl Metric for CosineMetric {
    open spec fn spec_distance() -> Distance {
        Distance::Cosine
    }

    open spec fn spec_similarity(s1: Seq<u8>, s2: Seq<u8>) -> Score {
        spec_cosine(s1, s2)
    }

    open spec fn spec_preprocess(s: Seq<u8>) -> Seq<u8> {
        s
    }

    fn distance() -> (d: Distance) {
        Distance::Cosine
    }

    fn similarity(features: &CpuFeatures, v1: &Vec<u8>, v2: &Vec<u8>) -> (r: Score) {
        if features.avx && features.avx2 && features.fma && v1.len() >= MIN_DIM_SIZE_AVX {
            avx_cosine_similarity_bytes(v1, v2)
        } else if features.sse && features.sse2 && v1.len() >= MIN_DIM_SIZE_SIMD {
            sse_cosine_similarity_bytes(v1, v2)
        } else if features.neon && v1.len() >= MIN_DIM_SIZE_SIMD {
            neon_cosine_similarity_bytes(v1, v2)
        } else {
            cosine_similarity_bytes(v1, v2)
        }
    }

    fn preprocess(vector: Vec<u8>) -> (r: Vec<u8>) {
        vector
    }
}

impl Metric for DotProductMetric {
    open spec fn spec_distance() -> Distance {
        Distance::Dot
    }

    open spec fn spec_similarity(s1: Seq<u8>, s2: Seq<u8>) -> Score {
        Score::Integer(spec_dot(s1, s2) as i64)
    }

    open spec fn spec_preprocess(s: Seq<u8>) -> Seq<u8> {
        s
    }

    fn distance() -> (d: Distance) {
        Distance::Dot
    }

    fn similarity(features: &CpuFeatures, v1: &Vec<u8>, v2: &Vec<u8>) -> (r: Score) {
        proof {
            lemma_dot_bounds(v1@, v2@);
        }
        let s: i64 = if features.avx && features.avx2 && features.fma && v1.len()
            >= MIN_DIM_SIZE_AVX {
            avx_dot_similarity_bytes(v1, v2)
        } else if features.sse && features.sse2 && v1.len() >= MIN_DIM_SIZE_SIMD {
            sse_dot_similarity_bytes(v1, v2)
        } else if features.neon && v1.len() >= MIN_DIM_SIZE_SIMD {
            neon_dot_similarity_bytes(v1, v2)
        } else {
            dot_similarity_bytes(v1, v2)
        };
        Score::Integer(s)
    }

    fn preprocess(vector: Vec<u8>) -> (r: Vec<u8>) {
        vector
    }
}

impl Metric for EuclidMetric {
    open spec fn spec_distance() -> Distance {
        Distance::Euclid
    }

    open spec fn spec_similarity(s1: Seq<u8>, s2: Seq<u8>) -> Score {
        Score::Integer((-spec_sq_euclid(s1, s2)) as i64)
    }

    open spec fn spec_preprocess(s: Seq<u8>) -> Seq<u8> {
        s
    }

    fn distance() -> (d: Distance) {
        Distance::Euclid
    }

    fn similarity(features: &CpuFeatures, v1: &Vec<u8>, v2: &Vec<u8>) -> (r: Score) {
        proof {
            lemma_sq_euclid_bounds(v1@, v2@);
        }
        let s: i64 = if features.avx && features.avx2 && features.fma && v1.len()
            >= MIN_DIM_SIZE_AVX {
            avx_euclid_similarity_bytes(v1, v2)
        } else if features.sse && features.sse2 && v1.len() >= MIN_DIM_SIZE_SIMD {
            sse_euclid_similarity_bytes(v1, v2)
        } else if features.neon && v1.len() >= MIN_DIM_SIZE_SIMD {
            neon_euclid_similarity_bytes(v1, v2)
        } else {
            euclid_similarity_bytes(v1, v2)
        };
        Score::Integer(s)
    }

    fn preprocess(vector: Vec<u8>) -> (r: Vec<u8>) {
        vector
    }
}

/// Preprocessing is idempotent for the cosine family: it may be applied
/// lazily, so a second application must not change the stored vector.
pub proof fn lemma_cosine_preprocess_idempotent(s: Seq<u8>)
    ensures
        CosineMetric::spec_preprocess(CosineMetric::spec_preprocess(s))
            == CosineMetric::spec_preprocess(s),
{
}

/// Preprocessing is idempotent for the dot-product family.
pub proof fn lemma_dot_preprocess_idempotent(s: Seq<u8>)
    ensures
        DotProductMetric::spec_preprocess(DotProductMetric::spec_preprocess(s))
            == DotProductMetric::spec_preprocess(s),
{
}

/// Preprocessing is idempotent for the Euclidean family.
pub proof fn lemma_euclid_preprocess_idempotent(s: Seq<u8>)
    ensures
        EuclidMetric::spec_preprocess(EuclidMetric::spec_preprocess(s))
            == EuclidMetric::spec_preprocess(s),
{
}

} // verus!
