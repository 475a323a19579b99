//! The structured recommendation query and its merge algorithm.
//!
//! A `RecoQuery` holds positive exemplars (what the candidate should
//! resemble) and negative exemplars (what it should not). Scoring reduces
//! the per-exemplar similarities to one comparable value: take the maximum
//! similarity on each side, and let the positive side win only when it
//! strictly exceeds the negative side (ties go to the negatives).
//!
//! The engine renders a merged result on a bounded axis by applying a
//! strictly increasing squashing function to the winning maximum and
//! negating it when the negative side won. That rendering is monotone, so
//! this library keeps the result exact — the winning side plus its raw
//! maximum — and `score_le` spells out how rendered results compare:
//! within the positive side by the maximum, within the negative side in
//! reverse, and every negative-side result below every positive-side one.

use vstd::prelude::*;

verus! {

/// A similarity value extended with the below-everything element used when
/// an exemplar list is empty.
#[derive(Clone, Copy, Debug, PartialEq, Eq, Structural)]
pub enum Extended {
    NegInfinity,
    Value(i64),
}

/// The exact outcome of merging a query's similarities: which side won and
/// the winning maximum. The positive side only wins with at least one
/// exemplar, so it always carries a finite maximum.
#[derive(Clone, Copy, Debug, PartialEq, Eq, Structural)]
pub enum MergedScore {
    Positive(i64),
    Negative(Extended),
}

/// The order of the extended similarity axis.
pub open spec fn ext_le(a: Extended, b: Extended) -> bool {
    match (a, b) {
        (Extended::NegInfinity, _) => true,
        (Extended::Value(x), Extended::Value(y)) => x <= y,
        (Extended::Value(_), Extended::NegInfinity) => false,
    }
}

/// Strict order of the extended similarity axis.
pub open spec fn ext_lt(a: Extended, b: Extended) -> bool {
    !ext_le(b, a)
}

/// The maximum of a similarity list, or `NegInfinity` for an empty list.
pub open spec fn spec_max(s: Seq<i64>) -> Extended
    decreases s.len(),
{
    if s.len() == 0 {
        Extended::NegInfinity
    } else {
        let rest = spec_max(s.drop_last());
        if ext_le(rest, Extended::Value(s.last())) {
            Extended::Value(s.last())
        } else {
            rest
        }
    }
}

/// The merge rule: the positive side wins exactly when its maximum strictly
/// exceeds the negative side's maximum.
pub open spec fn spec_merge(ps: Seq<i64>, ns: Seq<i64>) -> MergedScore {
    let mp = spec_max(ps);
    let mn = spec_max(ns);
    match mp {
        Extended::Value(p) => if ext_lt(mn, mp) {
            MergedScore::Positive(p)
        } else {
            MergedScore::Negative(mn)
        },
        Extended::NegInfinity => MergedScore::Negative(mn),
    }
}

/// How merged results compare once rendered on the bounded score axis: a
/// positive-side result is the squashed winning maximum (increasing in it),
/// a negative-side result is its negation (decreasing in it, and below
/// every positive-side result).
pub open spec fn score_le(a: MergedScore, b: MergedScore) -> bool {
    match (a, b) {
        (MergedScore::Negative(x), MergedScore::Negative(y)) => ext_le(y, x),
        (MergedScore::Negative(_), MergedScore::Positive(_)) => true,
        (MergedScore::Positive(_), MergedScore::Negative(_)) => false,
        (MergedScore::Positive(x), MergedScore::Positive(y)) => x <= y,
    }
}

/// How two merged results compare once rendered on the bounded score axis.
pub fn merged_le(a: &MergedScore, b: &MergedScore) -> (r: bool)
    ensures
        r == score_le(*a, *b),
{
    match (a, b) {
        (MergedScore::Negative(x), MergedScore::Negative(y)) => !ext_less(x, y),
        (MergedScore::Negative(_), MergedScore::Positive(_)) => true,
        (MergedScore::Positive(_), MergedScore::Negative(_)) => false,
        (MergedScore::Positive(x), MergedScore::Positive(y)) => x <= y,
    }
}

/// Appending one element to a list replaces the maximum when the element is
/// at least as large.
proof fn lemma_max_take_step(s: Seq<i64>, i: int)
    requires
        0 <= i < s.len(),
    ensures
        spec_max(s.take(i + 1)) == (if ext_le(spec_max(s.take(i)), Extended::Value(s[i])) {
            Extended::Value(s[i])
        } else {
            spec_max(s.take(i))
        }),
{
    assert(s.take(i + 1).drop_last() =~= s.take(i));
    assert(s.take(i + 1).last() == s[i]);
}

/// The maximum of a similarity list, `NegInfinity` when it is empty.
fn max_of(s: &Vec<i64>) -> (r: Extended)
    ensures
        r == spec_max(s@),
{
    let n = s.len();
    let mut r = Extended::NegInfinity;
    let mut i: usize = 0;
    while i < n
        invariant
            n == s@.len(),
            i <= n,
            r == spec_max(s@.take(i as int)),
        decreases n - i,
    {
        proof {
            lemma_max_take_step(s@, i as int);
        }
        let v = s[i];
        r = match r {
            Extended::NegInfinity => Extended::Value(v),
            Extended::Value(x) => if x <= v {
                Extended::Value(v)
            } else {
                Extended::Value(x)
            },
        };
        i = i + 1;
    }
    proof {
        assert(s@.take(n as int) =~= s@);
    }
    r
}

/// Strict comparison on the extended similarity axis.
fn ext_less(a: &Extended, b: &Extended) -> (r: bool)
    ensures
        r == ext_lt(*a, *b),
{
    match (a, b) {
        (Extended::NegInfinity, Extended::Value(_)) => true,
        (Extended::Value(x), Extended::Value(y)) => x < y,
        (_, Extended::NegInfinity) => false,
    }
}

/// Reduces the two similarity lists of a query to one merged result, per
/// the merge rule: maximum of each side, positive side wins only on strict
/// excess.
pub fn merge_similarities(positives: &Vec<i64>, negatives: &Vec<i64>) -> (r: MergedScore)
    ensures
        r == spec_merge(positives@, negatives@),
{
    let max_positive = max_of(positives);
    let max_negative = max_of(negatives);
    match max_positive {
        Extended::Value(p) => {
            if ext_less(&max_negative, &max_positive) {
                MergedScore::Positive(p)
            } else {
                MergedScore::Negative(max_negative)
            }
        },
        Extended::NegInfinity => MergedScore::Negative(max_negative),
    }
}

/// A structured query: candidates should resemble the positive exemplars
/// and differ from the negative ones. Either list may be empty. The query
/// is immutable for the lifetime of one search.
#[derive(Debug, Clone, PartialEq)]
pub struct RecoQuery<T> {
    pub positives: Vec<T>,
    pub negatives: Vec<T>,
}

impl<T> RecoQuery<T> {
    pub fn new(positives: Vec<T>, negatives: Vec<T>) -> (q: RecoQuery<T>)
        ensures
            q.positives@ == positives@,
            q.negatives@ == negatives@,
    {
        RecoQuery { positives, negatives }
    }

    /// All reference vectors of the query, positives first, in order.
    pub fn flat_iter(&self) -> (r: Vec<&T>)
        ensures
            r@.len() == self.positives@.len() + self.negatives@.len(),
            forall|i: int|
                0 <= i < self.positives@.len() ==> r@[i] == self.positives@[i],
            forall|i: int|
                self.positives@.len() <= i < r@.len() ==> r@[i] == self.negatives@[i
                    - self.positives@.len()],
    {
        let mut r: Vec<&T> = Vec::new();
        let mut i: usize = 0;
        while i < self.positives.len()
            invariant
                i <= self.positives@.len(),
                r@.len() == i,
                forall|j: int| 0 <= j < i ==> r@[j] == self.positives@[j],
            decreases self.positives@.len() - i,
        {
            r.push(&self.positives[i]);
            i = i + 1;
        }
        let mut k: usize = 0;
        while k < self.negatives.len()
            invariant
                k <= self.negatives@.len(),
                r@.len() == self.positives@.len() + k,
                forall|j: int| 0 <= j < self.positives@.len() ==> r@[j] == self.positives@[j],
                forall|j: int|
                    self.positives@.len() <= j < r@.len() ==> r@[j] == self.negatives@[j
                        - self.positives@.len()],
            decreases self.negatives@.len() - k,
        {
            r.push(&self.negatives[k]);
            k = k + 1;
        }
        r
    }

    /// Scores the candidate bound into `similarity` against this query:
    /// applies the function to every exemplar and merges the two sides.
    pub fn score_by<F: Fn(&T) -> i64>(&self, similarity: F) -> (r: MergedScore)
        requires
            forall|i: int|
                0 <= i < self.positives@.len() ==> call_requires(
                    similarity,
                    (&self.positives@[i],),
                ),
            forall|i: int|
                0 <= i < self.negatives@.len() ==> call_requires(
                    similarity,
                    (&self.negatives@[i],),
                ),
        ensures
            exists|ps: Seq<i64>, ns: Seq<i64>|
                {
                    &&& ps.len() == self.positives@.len()
                    &&& ns.len() == self.negatives@.len()
                    &&& (forall|i: int|
                        0 <= i < ps.len() ==> call_ensures(
                            similarity,
                            (&self.positives@[i],),
                            #[trigger] ps[i],
                        ))
                    &&& (forall|i: int|
                        0 <= i < ns.len() ==> call_ensures(
                            similarity,
                            (&self.negatives@[i],),
                            #[trigger] ns[i],
                        ))
                    &&& r == spec_merge(ps, ns)
                },
    {
        let mut ps: Vec<i64> = Vec::new();
        let mut i: usize = 0;
        while i < self.positives.len()
            invariant
                forall|j: int|
                    0 <= j < self.positives@.len() ==> call_requires(
                        similarity,
                        (&self.positives@[j],),
                    ),
                i <= self.positives@.len(),
                ps@.len() == i,
                forall|j: int|
                    0 <= j < i ==> call_ensures(similarity, (&self.positives@[j],), #[trigger] ps@[j]),
            decreases self.positives@.len() - i,
        {
            let s = similarity(&self.positives[i]);
            ps.push(s);
            i = i + 1;
        }
        let mut ns: Vec<i64> = Vec::new();
        let mut k: usize = 0;
        while k < self.negatives.len()
            invariant
                forall|j: int|
                    0 <= j < self.negatives@.len() ==> call_requires(
                        similarity,
                        (&self.negatives@[j],),
                    ),
                k <= self.negatives@.len(),
                ns@.len() == k,
                forall|j: int|
                    0 <= j < k ==> call_ensures(similarity, (&self.negatives@[j],), #[trigger] ns@[j]),
            decreases self.negatives@.len() - k,
        {
            let s = similarity(&self.negatives[k]);
            ns.push(s);
            k = k + 1;
        }
        let r = merge_similarities(&ps, &ns);
        proof {
            let psg = ps@;
            let nsg = ns@;
            assert({
                &&& psg.len() == self.positives@.len()
                &&& nsg.len() == self.negatives@.len()
                &&& (forall|i: int|
                    0 <= i < psg.len() ==> call_ensures(
                        similarity,
                        (&self.positives@[i],),
                        #[trigger] psg[i],
                    ))
                &&& (forall|i: int|
                    0 <= i < nsg.len() ==> call_ensures(
                        similarity,
                        (&self.negatives@[i],),
                        #[trigger] nsg[i],
                    ))
                &&& r == spec_merge(psg, nsg)
            });
        }
        r
    }

    /// Rewrites every reference vector of the query through the fallible
    /// function `f`, preserving the variant shape and the order of both
    /// lists. If any single element fails, the whole transformation fails
    /// with that error and no partial query is produced.
    #[verifier::loop_isolation(false)]
    pub fn transform<U, E, F: Fn(T) -> Result<U, E>>(self, f: F) -> (r: Result<RecoQuery<U>, E>)
        requires
            forall|i: int|
                0 <= i < self.positives@.len() ==> call_requires(f, (self.positives@[i],)),
            forall|i: int|
                0 <= i < self.negatives@.len() ==> call_requires(f, (self.negatives@[i],)),
        ensures
            match r {
                Ok(q) => {
                    &&& q.positives@.len() == self.positives@.len()
                    &&& q.negatives@.len() == self.negatives@.len()
                    &&& (forall|i: int|
                        0 <= i < q.positives@.len() ==> call_ensures(
                            f,
                            (self.positives@[i],),
                            Ok(#[trigger] q.positives@[i]),
                        ))
                    &&& (forall|i: int|
                        0 <= i < q.negatives@.len() ==> call_ensures(
                            f,
                            (self.negatives@[i],),
                            Ok(#[trigger] q.negatives@[i]),
                        ))
                },
                Err(e) => exists|t: T|
                    #[trigger] call_ensures(f, (t,), Err(e)) && (self.positives@.contains(t)
                        || self.negatives@.contains(t)),
            },
    {
        let ghost orig_p = self.positives@;
        let ghost orig_n = self.negatives@;
        let RecoQuery { positives, negatives } = self;
        let mut positives = positives;
        let mut negatives = negatives;
        let mut new_p: Vec<U> = Vec::new();
        while positives.len() > 0
            invariant
                new_p@.len() + positives@.len() == orig_p.len(),
                positives@ == orig_p.skip(new_p@.len() as int),
                forall|i: int| 0 <= i < orig_p.len() ==> call_requires(f, (orig_p[i],)),
                forall|i: int|
                    0 <= i < new_p@.len() ==> call_ensures(
                        f,
                        (orig_p[i],),
                        Ok(#[trigger] new_p@[i]),
                    ),
            decreases positives@.len(),
        {
            let ghost k = new_p@.len() as int;
            let elem = positives.remove(0);
            proof {
                assert(elem == orig_p[k]);
                assert(positives@ =~= orig_p.skip(k + 1));
            }
            match f(elem) {
                Ok(u) => {
                    new_p.push(u);
                },
                Err(e) => {
                    let err_out: Result<RecoQuery<U>, E> = Err(e);
                    proof {
                        assert(err_out matches Err(e2) && call_ensures(f, (orig_p[k],), Err::<U, E>(e2))
                            && orig_p.contains(orig_p[k]));
                    }
                    return err_out;
                },
            }
        }
        let mut new_n: Vec<U> = Vec::new();
        while negatives.len() > 0
            invariant
                new_n@.len() + negatives@.len() == orig_n.len(),
                negatives@ == orig_n.skip(new_n@.len() as int),
                forall|i: int| 0 <= i < orig_n.len() ==> call_requires(f, (orig_n[i],)),
                forall|i: int|
                    0 <= i < new_n@.len() ==> call_ensures(
                        f,
                        (orig_n[i],),
                        Ok(#[trigger] new_n@[i]),
                    ),
            decreases negatives@.len(),
        {
            let ghost k = new_n@.len() as int;
            let elem = negatives.remove(0);
            proof {
                assert(elem == orig_n[k]);
                assert(negatives@ =~= orig_n.skip(k + 1));
            }
            match f(elem) {
                Ok(u) => {
                    new_n.push(u);
                },
                Err(e) => {
                    let err_out: Result<RecoQuery<U>, E> = Err(e);
                    proof {
                        assert(err_out matches Err(e2) && call_ensures(f, (orig_n[k],), Err::<U, E>(e2))
                            && orig_n.contains(orig_n[k]));
                    }
                    return err_out;
                },
            }
        }
        Ok(RecoQuery { positives: new_p, negatives: new_n })
    }
}

/// With one positive exemplar `a` and one negative exemplar `b`, the merge
/// falls on the negative side exactly when `b >= a`.
pub proof fn lemma_single_pair_sign(a: i64, b: i64)
    ensures
        spec_merge(seq![a], seq![b]) is Negative <==> b >= a,
{
    assert(seq![a].drop_last() =~= Seq::<i64>::empty());
    assert(seq![b].drop_last() =~= Seq::<i64>::empty());
    assert(spec_max(Seq::<i64>::empty()) == Extended::NegInfinity);
    assert(spec_max(seq![a]) == Extended::Value(a));
    assert(spec_max(seq![b]) == Extended::Value(b));
}

/// For single-exemplar positive-only queries, merged results order exactly
/// as the raw similarities: the bounded rendering is increasing.
pub proof fn lemma_positive_only_preserves_order(a: i64, b: i64)
    ensures
        score_le(
            spec_merge(seq![a], Seq::<i64>::empty()),
            spec_merge(seq![b], Seq::<i64>::empty()),
        ) <==> a <= b,
{
    assert(seq![a].drop_last() =~= Seq::<i64>::empty());
    assert(seq![b].drop_last() =~= Seq::<i64>::empty());
    assert(spec_max(Seq::<i64>::empty()) == Extended::NegInfinity);
    assert(spec_max(seq![a]) == Extended::Value(a));
    assert(spec_max(seq![b]) == Extended::Value(b));
}

/// For single-exemplar negative-only queries, merged results order in
/// reverse of the raw similarities.
pub proof fn lemma_negative_only_inverts_order(a: i64, b: i64)
    ensures
        score_le(
            spec_merge(Seq::<i64>::empty(), seq![a]),
            spec_merge(Seq::<i64>::empty(), seq![b]),
        ) <==> b <= a,
{
    assert(seq![a].drop_last() =~= Seq::<i64>::empty());
    assert(seq![b].drop_last() =~= Seq::<i64>::empty());
    assert(spec_max(Seq::<i64>::empty()) == Extended::NegInfinity);
    assert(spec_max(seq![a]) == Extended::Value(a));
    assert(spec_max(seq![b]) == Extended::Value(b));
}

/// A nonempty similarity list has a finite maximum.
proof fn lemma_max_nonempty_is_value(s: Seq<i64>)
    requires
        s.len() > 0,
    ensures
        spec_max(s) is Value,
    decreases s.len(),
{
    if s.len() == 1 {
        assert(spec_max(s.drop_last()) == Extended::NegInfinity);
    } else {
        lemma_max_nonempty_is_value(s.drop_last());
    }
}

/// For positive-only queries the merge reduces to the single strongest
/// exemplar: two results order exactly as the maxima of the raw
/// similarities.
pub proof fn lemma_positive_only_orders_by_strongest(ps1: Seq<i64>, ps2: Seq<i64>)
    requires
        ps1.len() > 0,
        ps2.len() > 0,
    ensures
        score_le(spec_merge(ps1, Seq::<i64>::empty()), spec_merge(ps2, Seq::<i64>::empty()))
            <==> ext_le(spec_max(ps1), spec_max(ps2)),
{
    lemma_max_nonempty_is_value(ps1);
    lemma_max_nonempty_is_value(ps2);
    assert(spec_max(Seq::<i64>::empty()) == Extended::NegInfinity);
}

/// For negative-only queries the merge lands on the negative side with the
/// single strongest exemplar, and two results order in reverse of the
/// maxima of the raw similarities.
pub proof fn lemma_negative_only_inverts_strongest(ns1: Seq<i64>, ns2: Seq<i64>)
    ensures
        spec_merge(Seq::<i64>::empty(), ns1) == MergedScore::Negative(spec_max(ns1)),
        score_le(spec_merge(Seq::<i64>::empty(), ns1), spec_merge(Seq::<i64>::empty(), ns2))
            <==> ext_le(spec_max(ns2), spec_max(ns1)),
{
    assert(spec_max(Seq::<i64>::empty()) == Extended::NegInfinity);
}

/// A result where the positive side won is never below a result where the
/// negative side won, whatever the exemplar sets were.
pub proof fn lemma_positive_side_outranks_negative(
    ps1: Seq<i64>,
    ns1: Seq<i64>,
    ps2: Seq<i64>,
    ns2: Seq<i64>,
)
    requires
        spec_merge(ps1, ns1) is Positive,
        spec_merge(ps2, ns2) is Negative,
    ensures
        score_le(spec_merge(ps2, ns2), spec_merge(ps1, ns1)),
{
}

/// A query with both lists empty merges to the negative side's default:
/// the negatives win with their below-everything maximum.
pub proof fn lemma_empty_query_defaults_negative()
    ensures
        spec_merge(Seq::<i64>::empty(), Seq::<i64>::empty()) == MergedScore::Negative(
            Extended::NegInfinity,
        ),
{
}

} // verus!
