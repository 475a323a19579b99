//! Shared types of the scoring core: the distance-kind enumeration, the CPU
//! capability record consulted by the kernel dispatch, and the exact score
//! representation produced by the byte-quantized kernels.

use vstd::prelude::*;

verus! {

/// Which similarity family a collection was configured with. Carried in the
/// collection configuration and fixed for the collection's lifetime.
#[derive(Clone, Copy, Debug, PartialEq, Eq, Structural)]
pub enum Distance {
    Cosine,
    Euclid,
    Dot,
}

/// The CPU capabilities that gate the accelerated kernel paths. Detection is
/// environment-dependent, so callers probe the machine (outside this library)
/// and hand the result in; every kernel path is proved to return the same
/// value, so the scores do not depend on which flags are set.
#[derive(Clone, Copy, Debug, PartialEq, Eq, Structural)]
pub struct CpuFeatures {
    pub avx: bool,
    pub avx2: bool,
    pub fma: bool,
    pub sse: bool,
    pub sse2: bool,
    pub neon: bool,
}

impl CpuFeatures {
    /// A capability record with every flag cleared: forces the scalar path.
    pub fn none() -> (r: CpuFeatures)
        ensures
            r == (CpuFeatures {
                avx: false,
                avx2: false,
                fma: false,
                sse: false,
                sse2: false,
                neon: false,
            }),
    {
        CpuFeatures { avx: false, avx2: false, fma: false, sse: false, sse2: false, neon: false }
    }
}

/// The exact value of a byte-quantized similarity. Integer-valued metrics
/// (dot product, negated squared Euclidean distance) report their sum
/// directly; cosine reports the integer components of its quotient, whose
/// real value is `dot / sqrt(norm_product)`. Higher compares better on the
/// real axis in every case.
#[derive(Clone, Copy, Debug, PartialEq, Eq, Structural)]
pub enum Score {
    /// An exactly representable integer score.
    Integer(i64),
    /// The value `dot / sqrt(norm_product)`, with `norm_product > 0`.
    Quotient { dot: i64, norm_product: u64 },
}

/// The byte a widened element value quantizes to: clamped into `[0, 255]`.
pub open spec fn spec_quantize(x: i64) -> u8 {
    if x < 0 {
        0
    } else if x > 255 {
        255
    } else {
        x as u8
    }
}

/// Clamps one widened element value into the byte range, as the storage
/// layer does when it quantizes a vector for the byte-quantized kernels.
pub fn quantize_to_byte(x: i64) -> (r: u8)
    ensures
        r == spec_quantize(x),
{
    if x < 0 {
        0
    } else if x > 255 {
        255
    } else {
        x as u8
    }
}

/// Quantizes a whole vector of widened element values, in order.
pub fn quantize_vector(v: &Vec<i64>) -> (r: Vec<u8>)
    ensures
        r@.len() == v@.len(),
        forall|i: int| 0 <= i < v@.len() ==> r@[i] == spec_quantize(#[trigger] v@[i]),
{
    let n = v.len();
    let mut r: Vec<u8> = Vec::new();
    let mut i: usize = 0;
    while i < n
        invariant
            n == v@.len(),
            i <= n,
            r@.len() == i,
            forall|j: int| 0 <= j < i ==> r@[j] == spec_quantize(#[trigger] v@[j]),
        decreases n - i,
    {
        r.push(quantize_to_byte(v[i]));
        i = i + 1;
    }
    r
}

/// Minimum vector length for the narrow (128-bit class) accelerated paths:
/// shorter vectors do not amortize their setup cost.
pub const MIN_DIM_SIZE_SIMD: usize = 16;

/// Minimum vector length for the wide (256-bit class) accelerated path.
pub const MIN_DIM_SIZE_AVX: usize = 32;

/// Largest vector length for which a sum of per-element values bounded by
/// `255 * 255` is guaranteed to fit in the `i32` accumulator the kernels use.
pub const MAX_ACCUM_DIM: usize = 33025;

} // verus!
