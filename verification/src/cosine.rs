//! Cosine kernels for byte-quantized vectors.
//!
//! Byte vectors are not normalized at storage time (quantization would
//! destroy the precision), so the kernel computes the dot product and both
//! self dot products in one pass and reports the exact components of the
//! quotient `dot / sqrt(norm1 * norm2)`. When either norm is zero the vector
//! has no meaningful direction and the similarity is defined to be exactly
//! zero.

use vstd::prelude::*;

use crate::dot::{dot_block4, dot_block8, dot_step, lemma_byte_product_bound, lemma_dot_bounds,
    spec_dot};
use crate::types::{Score, MAX_ACCUM_DIM};

verus! {

/// The exact cosine similarity of two byte sequences: zero when either norm
/// vanishes, otherwise the components of `dot / sqrt(norm1 * norm2)`.
pub open spec fn spec_cosine(s1: Seq<u8>, s2: Seq<u8>) -> Score {
    if spec_dot(s1, s1) == 0 || spec_dot(s2, s2) == 0 {
        Score::Integer(0)
    } else {
        Score::Quotient {
            dot: spec_dot(s1, s2) as i64,
            norm_product: (spec_dot(s1, s1) * spec_dot(s2, s2)) as u64,
        }
    }
}

/// A byte sequence has zero self dot product exactly when every element is
/// zero.
pub proof fn lemma_zero_norm(s: Seq<u8>)
    ensures
        spec_dot(s, s) == 0 <==> (forall|i: int| 0 <= i < s.len() ==> s[i] == 0),
    decreases s.len(),
{
    if s.len() == 0 {
    } else {
        let d = s.drop_last();
        lemma_zero_norm(d);
        lemma_dot_bounds(d, d);
        lemma_byte_product_bound(s.last(), s.last());
        assert(s.last() * s.last() == 0 <==> s.last() == 0) by (nonlinear_arith);
        if spec_dot(s, s) == 0 {
            assert(forall|i: int| 0 <= i < d.len() ==> d[i] == s[i]);
            assert(forall|i: int| 0 <= i < s.len() ==> s[i] == 0);
        } else {
            if forall|i: int| 0 <= i < s.len() ==> s[i] == 0 {
                assert(forall|i: int| 0 <= i < d.len() ==> d[i] == 0);
                assert(spec_dot(s, s) == 0);
            }
        }
    }
}

/// Cosine similarity with a zero vector on either side is exactly zero.
pub proof fn lemma_cosine_zero_vector(s1: Seq<u8>, s2: Seq<u8>)
    requires
        (forall|i: int| 0 <= i < s1.len() ==> s1[i] == 0) || (forall|i: int|
            0 <= i < s2.len() ==> s2[i] == 0),
    ensures
        spec_cosine(s1, s2) == Score::Integer(0),
{
    lemma_zero_norm(s1);
    lemma_zero_norm(s2);
}

/// Builds the cosine score from the three accumulated sums.
fn cosine_from_sums(dot: i32, norm1: i32, norm2: i32, Ghost(s1): Ghost<Seq<u8>>, Ghost(
    s2,
): Ghost<Seq<u8>>) -> (r: Score)
    requires
        dot == spec_dot(s1, s2),
        norm1 == spec_dot(s1, s1),
        norm2 == spec_dot(s2, s2),
        0 <= norm1 <= 2147450625,
        0 <= norm2 <= 2147450625,
    ensures
        r == spec_cosine(s1, s2),
{
    if norm1 == 0 || norm2 == 0 {
        Score::Integer(0)
    } else {
        proof {
            assert(0 <= (norm1 as int) * (norm2 as int) <= 2147450625 * 2147450625)
                by (nonlinear_arith)
                requires
                    0 <= norm1 <= 2147450625,
                    0 <= norm2 <= 2147450625,
            ;
        }
        Score::Quotient { dot: dot as i64, norm_product: (norm1 as u64) * (norm2 as u64) }
    }
}

/// Scalar cosine kernel: the reference the accelerated paths are held to.
pub fn cosine_similarity_bytes(v1: &Vec<u8>, v2: &Vec<u8>) -> (r: Score)
    requires
        v1@.len() == v2@.len(),
        v1@.len() <= MAX_ACCUM_DIM,
    ensures
        r == spec_cosine(v1@, v2@),
{
    let n = v1.len();
    let mut dot: i32 = 0;
    let mut norm1: i32 = 0;
    let mut norm2: i32 = 0;
    let mut i: usize = 0;
    while i < n
        invariant
            n == v1@.len(),
            n == v2@.len(),
            n <= MAX_ACCUM_DIM,
            i <= n,
            dot == spec_dot(v1@.take(i as int), v2@.take(i as int)),
            norm1 == spec_dot(v1@.take(i as int), v1@.take(i as int)),
            norm2 == spec_dot(v2@.take(i as int), v2@.take(i as int)),
        decreases n - i,
    {
        dot = dot_step(v1, v2, i, dot);
        norm1 = dot_step(v1, v1, i, norm1);
        norm2 = dot_step(v2, v2, i, norm2);
        i = i + 1;
    }
    proof {
        assert(v1@.take(n as int) =~= v1@);
        assert(v2@.take(n as int) =~= v2@);
        lemma_dot_bounds(v1@, v1@);
        lemma_dot_bounds(v2@, v2@);
    }
    cosine_from_sums(dot, norm1, norm2, Ghost(v1@), Ghost(v2@))
}

/// Wide-path cosine kernel: eight lanes of each of the three sums per
/// iteration, with a scalar tail.
pub fn avx_cosine_similarity_bytes(v1: &Vec<u8>, v2: &Vec<u8>) -> (r: Score)
    requires
        v1@.len() == v2@.len(),
        v1@.len() <= MAX_ACCUM_DIM,
    ensures
        r == spec_cosine(v1@, v2@),
{
    let n = v1.len();
    let mut dot: i32 = 0;
    let mut norm1: i32 = 0;
    let mut norm2: i32 = 0;
    let mut i: usize = 0;
    while i + 8 <= n
        invariant
            n == v1@.len(),
            n == v2@.len(),
            n <= MAX_ACCUM_DIM,
            i <= n,
            dot == spec_dot(v1@.take(i as int), v2@.take(i as int)),
            norm1 == spec_dot(v1@.take(i as int), v1@.take(i as int)),
            norm2 == spec_dot(v2@.take(i as int), v2@.take(i as int)),
        decreases n - i,
    {
        dot = dot_block8(v1, v2, i, dot);
        norm1 = dot_block8(v1, v1, i, norm1);
        norm2 = dot_block8(v2, v2, i, norm2);
        i = i + 8;
    }
    while i < n
        invariant
            n == v1@.len(),
            n == v2@.len(),
            n <= MAX_ACCUM_DIM,
            i <= n,
            dot == spec_dot(v1@.take(i as int), v2@.take(i as int)),
            norm1 == spec_dot(v1@.take(i as int), v1@.take(i as int)),
            norm2 == spec_dot(v2@.take(i as int), v2@.take(i as int)),
        decreases n - i,
    {
        dot = dot_step(v1, v2, i, dot);
        norm1 = dot_step(v1, v1, i, norm1);
        norm2 = dot_step(v2, v2, i, norm2);
        i = i + 1;
    }
    proof {
        assert(v1@.take(n as int) =~= v1@);
        assert(v2@.take(n as int) =~= v2@);
        lemma_dot_bounds(v1@, v1@);
        lemma_dot_bounds(v2@, v2@);
    }
    cosine_from_sums(dot, norm1, norm2, Ghost(v1@), Ghost(v2@))
}

/// Narrow-path cosine kernel: four lanes of each of the three sums per
/// iteration, with a scalar tail.
pub fn sse_cosine_similarity_bytes(v1: &Vec<u8>, v2: &Vec<u8>) -> (r: Score)
    requires
        v1@.len() == v2@.len(),
        v1@.len() <= MAX_ACCUM_DIM,
    ensures
        r == spec_cosine(v1@, v2@),
{
    let n = v1.len();
    let mut dot: i32 = 0;
    let mut norm1: i32 = 0;
    let mut norm2: i32 = 0;
    let mut i: usize = 0;
    while i + 4 <= n
        invariant
            n == v1@.len(),
            n == v2@.len(),
            n <= MAX_ACCUM_DIM,
            i <= n,
            dot == spec_dot(v1@.take(i as int), v2@.take(i as int)),
            norm1 == spec_dot(v1@.take(i as int), v1@.take(i as int)),
            norm2 == spec_dot(v2@.take(i as int), v2@.take(i as int)),
        decreases n - i,
    {
        dot = dot_block4(v1, v2, i, dot);
        norm1 = dot_block4(v1, v1, i, norm1);
        norm2 = dot_block4(v2, v2, i, norm2);
        i = i + 4;
    }
    while i < n
        invariant
            n == v1@.len(),
            n == v2@.len(),
            n <= MAX_ACCUM_DIM,
            i <= n,
            dot == spec_dot(v1@.take(i as int), v2@.take(i as int)),
            norm1 == spec_dot(v1@.take(i as int), v1@.take(i as int)),
            norm2 == spec_dot(v2@.take(i as int), v2@.take(i as int)),
        decreases n - i,
    {
        dot = dot_step(v1, v2, i, dot);
        norm1 = dot_step(v1, v1, i, norm1);
        norm2 = dot_step(v2, v2, i, norm2);
        i = i + 1;
    }
    proof {
        assert(v1@.take(n as int) =~= v1@);
        assert(v2@.take(n as int) =~= v2@);
        lemma_dot_bounds(v1@, v1@);
        lemma_dot_bounds(v2@, v2@);
    }
    cosine_from_sums(dot, norm1, norm2, Ghost(v1@), Ghost(v2@))
}

/// Mobile-architecture cosine kernel: four lanes of each of the three sums
/// per iteration, with a scalar tail.
pub fn neon_cosine_similarity_bytes(v1: &Vec<u8>, v2: &Vec<u8>) -> (r: Score)
    requires
        v1@.len() == v2@.len(),
        v1@.len() <= MAX_ACCUM_DIM,
    ensures
        r == spec_cosine(v1@, v2@),
{
    let n = v1.len();
    let mut dot: i32 = 0;
    let mut norm1: i32 = 0;
    let mut norm2: i32 = 0;
    let mut i: usize = 0;
    while i + 4 <= n
        invariant
            n == v1@.len(),
            n == v2@.len(),
            n <= MAX_ACCUM_DIM,
            i <= n,
            dot == spec_dot(v1@.take(i as int), v2@.take(i as int)),
            norm1 == spec_dot(v1@.take(i as int), v1@.take(i as int)),
            norm2 == spec_dot(v2@.take(i as int), v2@.take(i as int)),
        decreases n - i,
    {
        dot = dot_block4(v1, v2, i, dot);
        norm1 = dot_block4(v1, v1, i, norm1);
        norm2 = dot_block4(v2, v2, i, norm2);
        i = i + 4;
    }
    while i < n
        invariant
            n == v1@.len(),
            n == v2@.len(),
            n <= MAX_ACCUM_DIM,
            i <= n,
            dot == spec_dot(v1@.take(i as int), v2@.take(i as int)),
            norm1 == spec_dot(v1@.take(i as int), v1@.take(i as int)),
            norm2 == spec_dot(v2@.take(i as int), v2@.take(i as int)),
        decreases n - i,
    {
        dot = dot_step(v1, v2, i, dot);
        norm1 = dot_step(v1, v1, i, norm1);
        norm2 = dot_step(v2, v2, i, norm2);
        i = i + 1;
    }
    proof {
        assert(v1@.take(n as int) =~= v1@);
        assert(v2@.take(n as int) =~= v2@);
        lemma_dot_bounds(v1@, v1@);
        lemma_dot_bounds(v2@, v2@);
    }
    cosine_from_sums(dot, norm1, norm2, Ghost(v1@), Ghost(v2@))
}

} // verus!
