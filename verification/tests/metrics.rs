use vector_scoring::cosine::{
    avx_cosine_similarity_bytes, cosine_similarity_bytes, neon_cosine_similarity_bytes,
    sse_cosine_similarity_bytes,
};
use vector_scoring::dot::{
    avx_dot_similarity_bytes, dot_similarity_bytes, neon_dot_similarity_bytes,
    sse_dot_similarity_bytes,
};
use vector_scoring::euclid::{
    avx_euclid_similarity_bytes, euclid_similarity_bytes, neon_euclid_similarity_bytes,
    sse_euclid_similarity_bytes,
};
use vector_scoring::metric::{CosineMetric, DotProductMetric, EuclidMetric, Metric};
use vector_scoring::types::{quantize_to_byte, quantize_vector, CpuFeatures, Distance, Score};

/// Renders an exact score on the real axis, as the engine does.
fn as_f32(s: &Score) -> f32 {
    match s {
        Score::Integer(v) => *v as f32,
        Score::Quotient { dot, norm_product } => *dot as f32 / (*norm_product as f32).sqrt(),
    }
}

/// A deterministic byte vector of the given length.
fn sample(len: usize, salt: u8) -> Vec<u8> {
    (0..len)
        .map(|i| ((i as u32 * 37 + salt as u32 * 101 + 13) % 256) as u8)
        .collect()
}

fn all_features() -> CpuFeatures {
    CpuFeatures {
        avx: true,
        avx2: true,
        fma: true,
        sse: true,
        sse2: true,
        neon: true,
    }
}

#[test]
fn test_zero() {
    let v1: Vec<u8> = vec![0, 0, 0, 0, 0, 0, 0, 0];
    let v2: Vec<u8> = vec![255, 255, 0, 254, 253, 252, 251, 250];

    assert_eq!(as_f32(&cosine_similarity_bytes(&v1, &v2)), 0.0);
    assert_eq!(as_f32(&cosine_similarity_bytes(&v2, &v1)), 0.0);
    assert_eq!(as_f32(&cosine_similarity_bytes(&v1, &v1)), 0.0);
}

#[test]
fn test_conversion_to_bytes() {
    let dense_vector: Vec<f32> = vec![-10.0, 1.0, 2.0, 3.0, 255., 300.];
    let widened: Vec<i64> = dense_vector.iter().map(|x| *x as i64).collect();
    let preprocessed_vector = EuclidMetric::preprocess(quantize_vector(&widened));
    let expected: Vec<u8> = vec![0, 1, 2, 3, 255, 255];
    assert_eq!(preprocessed_vector, expected);
}

#[test]
fn quantize_clamps_into_byte_range() {
    assert_eq!(quantize_to_byte(-1), 0);
    assert_eq!(quantize_to_byte(0), 0);
    assert_eq!(quantize_to_byte(255), 255);
    assert_eq!(quantize_to_byte(256), 255);
    assert_eq!(quantize_to_byte(i64::MIN), 0);
    assert_eq!(quantize_to_byte(i64::MAX), 255);
}

#[test]
fn dot_exact_value() {
    let v1: Vec<u8> = vec![1, 2, 3];
    let v2: Vec<u8> = vec![4, 5, 6];
    assert_eq!(dot_similarity_bytes(&v1, &v2), 4 + 10 + 18);
}

#[test]
fn euclid_exact_value() {
    let v1: Vec<u8> = vec![1, 2, 3];
    let v2: Vec<u8> = vec![4, 5, 7];
    assert_eq!(euclid_similarity_bytes(&v1, &v2), -(9 + 9 + 16));
}

#[test]
fn cosine_exact_components() {
    let v1: Vec<u8> = vec![3, 0];
    let v2: Vec<u8> = vec![3, 4];
    assert_eq!(
        cosine_similarity_bytes(&v1, &v2),
        Score::Quotient {
            dot: 9,
            norm_product: 9 * 25,
        }
    );
}

// Every accelerated path must agree with the scalar kernel, at the length
// thresholds themselves and above them.
#[test]
fn accelerated_paths_match_scalar() {
    for &len in &[0usize, 1, 3, 4, 5, 7, 8, 15, 16, 17, 31, 32, 33, 40, 100] {
        let v1 = sample(len, 1);
        let v2 = sample(len, 2);

        let d = dot_similarity_bytes(&v1, &v2);
        assert_eq!(avx_dot_similarity_bytes(&v1, &v2), d);
        assert_eq!(sse_dot_similarity_bytes(&v1, &v2), d);
        assert_eq!(neon_dot_similarity_bytes(&v1, &v2), d);

        let e = euclid_similarity_bytes(&v1, &v2);
        assert_eq!(avx_euclid_similarity_bytes(&v1, &v2), e);
        assert_eq!(sse_euclid_similarity_bytes(&v1, &v2), e);
        assert_eq!(neon_euclid_similarity_bytes(&v1, &v2), e);

        let c = cosine_similarity_bytes(&v1, &v2);
        assert_eq!(avx_cosine_similarity_bytes(&v1, &v2), c);
        assert_eq!(sse_cosine_similarity_bytes(&v1, &v2), c);
        assert_eq!(neon_cosine_similarity_bytes(&v1, &v2), c);
    }
}

// Whatever capabilities are reported, the dispatched similarity equals the
// scalar kernel's value.
#[test]
fn dispatch_is_capability_invariant() {
    let feature_sets = [
        CpuFeatures::none(),
        CpuFeatures {
            avx: false,
            avx2: false,
            fma: false,
            sse: true,
            sse2: true,
            neon: false,
        },
        CpuFeatures {
            avx: false,
            avx2: false,
            fma: false,
            sse: false,
            sse2: false,
            neon: true,
        },
        all_features(),
    ];
    for &len in &[7usize, 16, 32, 64] {
        let v1 = sample(len, 3);
        let v2 = sample(len, 4);
        for f in &feature_sets {
            assert_eq!(
                DotProductMetric::similarity(f, &v1, &v2),
                Score::Integer(dot_similarity_bytes(&v1, &v2))
            );
            assert_eq!(
                EuclidMetric::similarity(f, &v1, &v2),
                Score::Integer(euclid_similarity_bytes(&v1, &v2))
            );
            assert_eq!(CosineMetric::similarity(f, &v1, &v2), cosine_similarity_bytes(&v1, &v2));
        }
    }
}

#[test]
fn distance_kinds() {
    assert_eq!(CosineMetric::distance(), Distance::Cosine);
    assert_eq!(DotProductMetric::distance(), Distance::Dot);
    assert_eq!(EuclidMetric::distance(), Distance::Euclid);
}

// Preprocessing byte vectors is the identity for every metric of this core,
// so applying it twice equals applying it once.
#[test]
fn preprocess_is_idempotent() {
    let v = sample(20, 5);
    assert_eq!(CosineMetric::preprocess(v.clone()), v);
    assert_eq!(CosineMetric::preprocess(CosineMetric::preprocess(v.clone())), v);
    assert_eq!(DotProductMetric::preprocess(DotProductMetric::preprocess(v.clone())), v);
    assert_eq!(EuclidMetric::preprocess(EuclidMetric::preprocess(v.clone())), v);
}
