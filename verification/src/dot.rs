//! Dot-product kernels for byte-quantized vectors.
//!
//! The scalar kernel is the reference implementation; the accelerated
//! variants model the wide (256-bit class), narrow (128-bit class) and
//! mobile-architecture paths by accumulating a block of widened products per
//! iteration. Every variant is proved to return `spec_dot` of its inputs, so
//! all paths are interchangeable bit for bit.

use vstd::prelude::*;

use crate::types::MAX_ACCUM_DIM;

verus! {

/// The dot product of two byte sequences, over their common prefix.
pub open spec fn spec_dot(s1: Seq<u8>, s2: Seq<u8>) -> int
    decreases s1.len(),
{
    if s1.len() == 0 || s2.len() == 0 {
        0
    } else {
        spec_dot(s1.drop_last(), s2.drop_last()) + s1.last() * s2.last()
    }
}

/// A product of two bytes lies in `[0, 255 * 255]`.
pub proof fn lemma_byte_product_bound(a: u8, b: u8)
    ensures
        0 <= a * b <= 65025,
{
    assert(0 <= a * b <= 65025) by (nonlinear_arith)
        requires
            0 <= a <= 255,
            0 <= b <= 255,
    ;
}

/// Extending the compared prefix by one element adds that element's product.
pub proof fn lemma_dot_take_step(s1: Seq<u8>, s2: Seq<u8>, i: int)
    requires
        0 <= i < s1.len(),
        i < s2.len(),
    ensures
        spec_dot(s1.take(i + 1), s2.take(i + 1)) == spec_dot(s1.take(i), s2.take(i)) + s1[i]
            * s2[i],
{
    let t1 = s1.take(i + 1);
    let t2 = s2.take(i + 1);
    assert(t1.drop_last() =~= s1.take(i));
    assert(t2.drop_last() =~= s2.take(i));
    assert(t1.last() == s1[i]);
    assert(t2.last() == s2[i]);
}

/// The dot product of equal-length prefixes is nonnegative and at most
/// `255 * 255` per element.
pub proof fn lemma_dot_bounds(s1: Seq<u8>, s2: Seq<u8>)
    ensures
        0 <= spec_dot(s1, s2) <= s1.len() * 65025,
    decreases s1.len(),
{
    if s1.len() == 0 || s2.len() == 0 {
    } else {
        lemma_dot_bounds(s1.drop_last(), s2.drop_last());
        lemma_byte_product_bound(s1.last(), s2.last());
    }
}

/// One widened byte product, exact in `i32`.
fn byte_product(a: u8, b: u8) -> (r: i32)
    ensures
        r == a * b,
        0 <= r <= 65025,
{
    proof {
        lemma_byte_product_bound(a, b);
    }
    (a as i32) * (b as i32)
}

/// Accumulates one element into a running dot product.
pub(crate) fn dot_step(v1: &Vec<u8>, v2: &Vec<u8>, i: usize, acc: i32) -> (r: i32)
    requires
        v1@.len() == v2@.len(),
        v1@.len() <= MAX_ACCUM_DIM,
        i < v1@.len(),
        acc == spec_dot(v1@.take(i as int), v2@.take(i as int)),
    ensures
        r == spec_dot(v1@.take(i as int + 1), v2@.take(i as int + 1)),
{
    proof {
        lemma_dot_take_step(v1@, v2@, i as int);
        lemma_dot_bounds(v1@.take(i as int), v2@.take(i as int));
        lemma_dot_bounds(v1@.take(i as int + 1), v2@.take(i as int + 1));
    }
    let p = byte_product(v1[i], v2[i]);
    acc + p
}

/// Accumulates a block of four adjacent products, as one 128-bit-class
/// vector operation would.
pub(crate) fn dot_block4(v1: &Vec<u8>, v2: &Vec<u8>, i: usize, acc: i32) -> (r: i32)
    requires
        v1@.len() == v2@.len(),
        v1@.len() <= MAX_ACCUM_DIM,
        i + 4 <= v1@.len(),
        acc == spec_dot(v1@.take(i as int), v2@.take(i as int)),
    ensures
        r == spec_dot(v1@.take(i as int + 4), v2@.take(i as int + 4)),
{
    proof {
        lemma_dot_take_step(v1@, v2@, i as int);
        lemma_dot_take_step(v1@, v2@, i as int + 1);
        lemma_dot_take_step(v1@, v2@, i as int + 2);
        lemma_dot_take_step(v1@, v2@, i as int + 3);
        lemma_dot_bounds(v1@.take(i as int), v2@.take(i as int));
        lemma_dot_bounds(v1@.take(i as int + 4), v2@.take(i as int + 4));
    }
    let p0 = byte_product(v1[i], v2[i]);
    let p1 = byte_product(v1[i + 1], v2[i + 1]);
    let p2 = byte_product(v1[i + 2], v2[i + 2]);
    let p3 = byte_product(v1[i + 3], v2[i + 3]);
    acc + ((p0 + p1) + (p2 + p3))
}

/// Accumulates a block of eight adjacent products, as one 256-bit-class
/// vector operation would.
pub(crate) fn dot_block8(v1: &Vec<u8>, v2: &Vec<u8>, i: usize, acc: i32) -> (r: i32)
    requires
        v1@.len() == v2@.len(),
        v1@.len() <= MAX_ACCUM_DIM,
        i + 8 <= v1@.len(),
        acc == spec_dot(v1@.take(i as int), v2@.take(i as int)),
    ensures
        r == spec_dot(v1@.take(i as int + 8), v2@.take(i as int + 8)),
{
    let mid = dot_block4(v1, v2, i, acc);
    dot_block4(v1, v2, i + 4, mid)
}

/// Scalar dot-product kernel: the reference the accelerated paths are held
/// to.
pub fn dot_similarity_bytes(v1: &Vec<u8>, v2: &Vec<u8>) -> (r: i64)
    requires
        v1@.len() == v2@.len(),
        v1@.len() <= MAX_ACCUM_DIM,
    ensures
        r == spec_dot(v1@, v2@),
{
    let n = v1.len();
    let mut acc: i32 = 0;
    let mut i: usize = 0;
    while i < n
        invariant
            n == v1@.len(),
            n == v2@.len(),
            n <= MAX_ACCUM_DIM,
            i <= n,
            acc == spec_dot(v1@.take(i as int), v2@.take(i as int)),
        decreases n - i,
    {
        acc = dot_step(v1, v2, i, acc);
        i = i + 1;
    }
    proof {
        assert(v1@.take(n as int) =~= v1@);
        assert(v2@.take(n as int) =~= v2@);
    }
    acc as i64
}

/// Wide-path dot-product kernel: eight widened products per iteration, with
/// a scalar tail.
pub fn avx_dot_similarity_bytes(v1: &Vec<u8>, v2: &Vec<u8>) -> (r: i64)
    requires
        v1@.len() == v2@.len(),
        v1@.len() <= MAX_ACCUM_DIM,
    ensures
        r == spec_dot(v1@, v2@),
{
    let n = v1.len();
    let mut acc: i32 = 0;
    let mut i: usize = 0;
    while i + 8 <= n
        invariant
            n == v1@.len(),
            n == v2@.len(),
            n <= MAX_ACCUM_DIM,
            i <= n,
            acc == spec_dot(v1@.take(i as int), v2@.take(i as int)),
        decreases n - i,
    {
        acc = dot_block8(v1, v2, i, acc);
        i = i + 8;
    }
    while i < n
        invariant
            n == v1@.len(),
            n == v2@.len(),
            n <= MAX_ACCUM_DIM,
            i <= n,
            acc == spec_dot(v1@.take(i as int), v2@.take(i as int)),
        decreases n - i,
    {
        acc = dot_step(v1, v2, i, acc);
        i = i + 1;
    }
    proof {
        assert(v1@.take(n as int) =~= v1@);
        assert(v2@.take(n as int) =~= v2@);
    }
    acc as i64
}

/// Narrow-path dot-product kernel: four widened products per iteration, with
/// a scalar tail.
pub fn sse_dot_similarity_bytes(v1: &Vec<u8>, v2: &Vec<u8>) -> (r: i64)
    requires
        v1@.len() == v2@.len(),
        v1@.len() <= MAX_ACCUM_DIM,
    ensures
        r == spec_dot(v1@, v2@),
{
    let n = v1.len();
    let mut acc: i32 = 0;
    let mut i: usize = 0;
    while i + 4 <= n
        invariant
            n == v1@.len(),
            n == v2@.len(),
            n <= MAX_ACCUM_DIM,
            i <= n,
            acc == spec_dot(v1@.take(i as int), v2@.take(i as int)),
        decreases n - i,
    {
        acc = dot_block4(v1, v2, i, acc);
        i = i + 4;
    }
    while i < n
        invariant
            n == v1@.len(),
            n == v2@.len(),
            n <= MAX_ACCUM_DIM,
            i <= n,
            acc == spec_dot(v1@.take(i as int), v2@.take(i as int)),
        decreases n - i,
    {
        acc = dot_step(v1, v2, i, acc);
        i = i + 1;
    }
    proof {
        assert(v1@.take(n as int) =~= v1@);
        assert(v2@.take(n as int) =~= v2@);
    }
    acc as i64
}

/// Mobile-architecture dot-product kernel: four widened products per
/// iteration, with a scalar tail.
pub fn neon_dot_similarity_bytes(v1: &Vec<u8>, v2: &Vec<u8>) -> (r: i64)
    requires
        v1@.len() == v2@.len(),
        v1@.len() <= MAX_ACCUM_DIM,
    ensures
        r == spec_dot(v1@, v2@),
{
    let n = v1.len();
    let mut acc: i32 = 0;
    let mut i: usize = 0;
    while i + 4 <= n
        invariant
            n == v1@.len(),
            n == v2@.len(),
            n <= MAX_ACCUM_DIM,
            i <= n,
            acc == spec_dot(v1@.take(i as int), v2@.take(i as int)),
        decreases n - i,
    {
        acc = dot_block4(v1, v2, i, acc);
        i = i + 4;
    }
    while i < n
        invariant
            n == v1@.len(),
            n == v2@.len(),
            n <= MAX_ACCUM_DIM,
            i <= n,
            acc == spec_dot(v1@.take(i as int), v2@.take(i as int)),
        decreases n - i,
    {
        acc = dot_step(v1, v2, i, acc);
        i = i + 1;
    }
    proof {
        assert(v1@.take(n as int) =~= v1@);
        assert(v2@.take(n as int) =~= v2@);
    }
    acc as i64
}

} // verus!
