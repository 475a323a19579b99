use vector_scoring::query::{merge_similarities, merged_le, Extended, MergedScore, RecoQuery};

/// The engine's bounded squashing function: strictly increasing, maps the
/// real axis into (0, 1), and sends the below-everything element to 0.
fn scaled_fast_sigmoid(x: f32) -> f32 {
    if x == f32::NEG_INFINITY {
        return 0.0;
    }
    0.5 * (x / (1.0 + x.abs()) + 1.0)
}

/// Renders a merged result on the bounded score axis.
fn render(m: &MergedScore) -> f32 {
    match m {
        MergedScore::Positive(v) => scaled_fast_sigmoid(*v as f32),
        MergedScore::Negative(Extended::Value(v)) => -scaled_fast_sigmoid(*v as f32),
        MergedScore::Negative(Extended::NegInfinity) => -0.0,
    }
}

fn score(positives: Vec<i64>, negatives: Vec<i64>) -> MergedScore {
    RecoQuery::new(positives, negatives).score_by(|x: &i64| *x)
}

#[test]
fn score_query_higher_positive() {
    assert_eq!(score(vec![42], vec![4]), MergedScore::Positive(42));
}

#[test]
fn score_query_higher_negative() {
    assert_eq!(score(vec![4], vec![42]), MergedScore::Negative(Extended::Value(42)));
}

#[test]
fn score_query_negative_zero() {
    assert_eq!(score(vec![-1], vec![0]), MergedScore::Negative(Extended::Value(0)));
}

#[test]
fn score_query_positive_zero() {
    assert_eq!(score(vec![0], vec![-1]), MergedScore::Positive(0));
}

#[test]
fn score_query_both_under_zero() {
    assert_eq!(score(vec![-42], vec![-84]), MergedScore::Positive(-42));
}

#[test]
fn score_query_both_under_zero_but_negative_is_higher() {
    assert_eq!(score(vec![-84], vec![-42]), MergedScore::Negative(Extended::Value(-42)));
}

#[test]
fn score_query_multiple_with_negative_best() {
    assert_eq!(score(vec![1, 2, 3], vec![4, 5, 6]), MergedScore::Negative(Extended::Value(6)));
}

#[test]
fn score_query_multiple_with_positive_best() {
    assert_eq!(score(vec![10, 2, 3], vec![4, 5, 6]), MergedScore::Positive(10));
}

// A tie between the best positive and the best negative goes to the
// negative side.
#[test]
fn score_query_tie_goes_negative() {
    assert_eq!(score(vec![7], vec![7]), MergedScore::Negative(Extended::Value(7)));
}

// With both lists empty the negatives win by default, with the
// below-everything maximum; the rendered score is a bounded non-positive
// constant.
#[test]
fn score_query_both_empty() {
    let m = score(vec![], vec![]);
    assert_eq!(m, MergedScore::Negative(Extended::NegInfinity));
    assert!(render(&m) <= 0.0);
    assert!(render(&m).is_finite());
}

#[test]
fn merge_matches_score_by() {
    let ps: Vec<i64> = vec![1, 9, 4];
    let ns: Vec<i64> = vec![3, 11];
    assert_eq!(
        merge_similarities(&ps, &ns),
        RecoQuery::new(ps.clone(), ns.clone()).score_by(|x: &i64| *x)
    );
}

// Positive-only queries order like the raw similarities once rendered.
#[test]
fn positive_only_preserves_order() {
    let pairs: [(i64, i64); 4] = [(3, 7), (-5, 2), (-9, -4), (0, 1)];
    for &(a, b) in &pairs {
        let ra = render(&score(vec![a], vec![]));
        let rb = render(&score(vec![b], vec![]));
        assert!(ra < rb);
        assert!(ra > 0.0 && rb > 0.0);
    }
}

// Negative-only queries order in reverse of the raw similarities once
// rendered, and stay strictly negative.
#[test]
fn negative_only_inverts_order() {
    let pairs: [(i64, i64); 4] = [(3, 7), (-5, 2), (-9, -4), (0, 1)];
    for &(a, b) in &pairs {
        let ra = render(&score(vec![], vec![a]));
        let rb = render(&score(vec![], vec![b]));
        assert!(ra > rb);
        assert!(ra < 0.0 && rb < 0.0);
    }
}

// Any result where the positive side won renders at least as high as any
// result where the negative side won.
#[test]
fn positive_side_outranks_negative_side() {
    let winners = [
        score(vec![-100], vec![]),
        score(vec![5, -3], vec![2]),
        score(vec![80], vec![79]),
    ];
    let losers = [
        score(vec![], vec![-100]),
        score(vec![2], vec![5]),
        score(vec![], vec![]),
    ];
    for w in &winners {
        assert!(matches!(w, MergedScore::Positive(_)));
        for l in &losers {
            assert!(matches!(l, MergedScore::Negative(_)));
            assert!(render(w) >= render(l));
        }
    }
}

// The executable comparator orders merged results exactly as their
// renderings on the bounded float axis.
#[test]
fn merged_le_matches_rendered_order() {
    let samples = [
        score(vec![], vec![]),
        score(vec![5], vec![]),
        score(vec![-3], vec![]),
        score(vec![], vec![7]),
        score(vec![], vec![-2]),
        score(vec![4], vec![1]),
        score(vec![1], vec![4]),
    ];
    for a in &samples {
        for b in &samples {
            assert_eq!(merged_le(a, b), render(a) <= render(b));
        }
    }
}

#[test]
fn new_keeps_lists() {
    let q = RecoQuery::new(vec![1u8, 2], vec![3u8]);
    assert_eq!(q.positives, vec![1, 2]);
    assert_eq!(q.negatives, vec![3]);
}

#[test]
fn flat_iter_chains_positives_then_negatives() {
    let q = RecoQuery::new(vec![vec![1u8], vec![2u8]], vec![vec![3u8]]);
    let flat = q.flat_iter();
    assert_eq!(flat, vec![&vec![1u8], &vec![2u8], &vec![3u8]]);
}

#[test]
fn transform_rewrites_every_vector_in_order() {
    let q = RecoQuery::new(vec![1i64, 2], vec![3i64]);
    let r: Result<RecoQuery<i64>, ()> = q.transform(|x: i64| Ok(x * 10));
    let q2 = r.unwrap();
    assert_eq!(q2.positives, vec![10, 20]);
    assert_eq!(q2.negatives, vec![30]);
}

// One failing element fails the whole transformation, with that element's
// error and no partial query.
#[test]
fn transform_fails_whole_query_on_one_error() {
    let q = RecoQuery::new(vec![1i64, -2, 3], vec![4i64]);
    let r: Result<RecoQuery<i64>, String> = q.transform(|x: i64| {
        if x < 0 {
            Err(format!("negative reference: {}", x))
        } else {
            Ok(x)
        }
    });
    assert_eq!(r, Err(String::from("negative reference: -2")));
}

#[test]
fn transform_fails_on_negative_list_error_too() {
    let q = RecoQuery::new(vec![1i64], vec![-7i64]);
    let r: Result<RecoQuery<i64>, i64> = q.transform(|x: i64| if x < 0 { Err(x) } else { Ok(x) });
    assert_eq!(r, Err(-7));
}
