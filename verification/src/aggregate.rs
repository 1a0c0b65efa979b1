//! Reduction of a reading sequence to the single weighted-sum score, and
//! the laws that hold of it: the score is exactly the sum of the stress
//! contributions, and the order of summation does not matter.

use vstd::prelude::*;
use vstd::arithmetic::mul::{lemma_mul_nonnegative, lemma_mul_upper_bound};
use vstd::seq_lib::lemma_fold_right_permutation;
use crate::metrics::MetricReading;

verus! {

/// The stress contribution of one reading: value times weight. With both
/// factors in micro-units the product is in pico-units.
pub open spec fn contribution_of(r: MetricReading) -> int {
    r.value * r.weight
}

/// The weighted sum over a sequence of readings, in pico-units.
pub open spec fn sum_contrib(s: Seq<MetricReading>) -> int
    decreases s.len(),
{
    if s.len() == 0 {
        0
    } else {
        sum_contrib(s.drop_last()) + contribution_of(s.last())
    }
}

/// No contribution is negative.
pub proof fn lemma_contribution_nonneg(r: MetricReading)
    ensures
        contribution_of(r) >= 0,
{
    lemma_mul_nonnegative(r.value as int, r.weight as int);
}

/// No contribution exceeds what two 64-bit factors can produce, which
/// always fits a `u128` value.
pub proof fn lemma_contribution_bound(r: MetricReading)
    ensures
        0 <= contribution_of(r) <= u64::MAX * u64::MAX,
{
    lemma_mul_nonnegative(r.value as int, r.weight as int);
    lemma_mul_upper_bound(r.value as int, u64::MAX as int, r.weight as int, u64::MAX as int);
}

/// The sum over a prefix never exceeds the sum over the whole sequence.
pub proof fn lemma_sum_contrib_prefix(s: Seq<MetricReading>, i: int)
    requires
        0 <= i <= s.len(),
    ensures
        sum_contrib(s.take(i)) <= sum_contrib(s),
    decreases s.len() - i,
{
    if i == s.len() {
        assert(s.take(i) =~= s);
    } else {
        assert(s.take(i + 1).drop_last() =~= s.take(i));
        assert(s.take(i + 1).last() == s[i]);
        lemma_contribution_nonneg(s[i]);
        lemma_sum_contrib_prefix(s, i + 1);
    }
}

/// Folding the contributions to the right from any start value yields that
/// start value plus the weighted sum.
proof fn lemma_sum_contrib_fold(s: Seq<MetricReading>, b: int)
    ensures
        s.fold_right(|r: MetricReading, acc: int| acc + contribution_of(r), b) == b + sum_contrib(
            s,
        ),
    decreases s.len(),
{
    if s.len() != 0 {
        lemma_sum_contrib_fold(s.drop_last(), b + contribution_of(s.last()));
    }
}

/// Order of summation does not matter: two reading sequences that are
/// rearrangements of one another have the same weighted sum. Together with
/// the `aggregate` contract this makes the reduction associative and
/// commutative in the stated, exact sense.
pub proof fn lemma_sum_contrib_permutation(s1: Seq<MetricReading>, s2: Seq<MetricReading>)
    requires
        s1.to_multiset() == s2.to_multiset(),
    ensures
        sum_contrib(s1) == sum_contrib(s2),
{
    let f = |r: MetricReading, acc: int| acc + contribution_of(r);
    lemma_sum_contrib_fold(s1, 0);
    lemma_sum_contrib_fold(s2, 0);
    lemma_fold_right_permutation(s1, s2, f, 0);
}

/// The stress contribution of one reading, in pico-units.
pub fn contribution(r: &MetricReading) -> (c: u128)
    ensures
        c == contribution_of(*r),
{
    proof {
        lemma_contribution_bound(*r);
    }
    (r.value as u128) * (r.weight as u128)
}

/// Reduces a reading sequence to the quality-metric score: the exact sum of
/// all stress contributions, in pico-units. Empty input yields zero. `None`
/// exactly when the mathematical sum does not fit a `u128` value.
pub fn aggregate(readings: &Vec<MetricReading>) -> (r: Option<u128>)
    ensures
        match r {
            Some(t) => t == sum_contrib(readings@),
            None => sum_contrib(readings@) > u128::MAX,
        },
        r is Some <==> sum_contrib(readings@) <= u128::MAX,
{
    let mut total: u128 = 0;
    let mut i: usize = 0;
    while i < readings.len()
        invariant
            0 <= i <= readings@.len(),
            total as int == sum_contrib(readings@.take(i as int)),
        decreases readings@.len() - i,
    {
        let c = contribution(&readings[i]);
        proof {
            assert(readings@.take(i as int + 1).drop_last() =~= readings@.take(i as int));
            assert(readings@.take(i as int + 1).last() == readings@[i as int]);
        }
        if c > u128::MAX - total {
            proof {
                lemma_sum_contrib_prefix(readings@, i as int + 1);
            }
            return None;
        }
        total = total + c;
        i = i + 1;
    }
    proof {
        assert(readings@.take(readings@.len() as int) =~= readings@);
    }
    Some(total)
}

} // verus!
