//! The plan of the overflow-safe mean.
//!
//! The mean of a long sequence is formed without ever adding more than two
//! numbers of the size of the inputs: neighbours are halved and added, the
//! sequence of these half sums is reduced in the same way, and a value that
//! found no neighbour is folded into the result with the weight of one value
//! among all. The arithmetic itself is done on binary64 numbers by the
//! caller, one step at a time; which step comes next is decided here, and it
//! is proved here that the steps, carried out exactly, give the arithmetic
//! mean.

use vstd::prelude::*;

verus! {

/// How the mean of a sequence of a given length is formed.
#[derive(Clone, Copy, Debug, PartialEq, Eq, Structural)]
pub enum FoldStep {
    /// There is no value and no mean.
    Empty,
    /// There is one value: it is the mean.
    Single,
    /// There are two values: the mean is half the first plus half the second.
    Pair,
    /// There are `2 * pairs` values, more than two. The mean is that of the
    /// half sums of the pairs `(2 * i, 2 * i + 1)`.
    Even { pairs: usize },
    /// There are `2 * pairs + 1` values, more than two. With `partial` the
    /// mean of the half sums of the pairs and `last` the last value, the mean
    /// is `(partial * weight + last) / count`, where `weight` is `2 * pairs`
    /// and `count` is `2 * pairs + 1`.
    Odd { pairs: usize, weight: usize, count: usize },
}

/// The step for a sequence of `len` values.
pub open spec fn step_of(len: nat) -> FoldStep {
    if len == 0 {
        FoldStep::Empty
    } else if len == 1 {
        FoldStep::Single
    } else if len == 2 {
        FoldStep::Pair
    } else if len % 2 == 0 {
        FoldStep::Even { pairs: (len / 2) as usize }
    } else {
        FoldStep::Odd { pairs: (len / 2) as usize, weight: (len - 1) as usize, count: len as usize }
    }
}

/// The step for a sequence of `len` values.
pub fn fold_step(len: usize) -> (step: FoldStep)
    ensures
        step == step_of(len as nat),
{
    if len == 0 {
        FoldStep::Empty
    } else if len == 1 {
        FoldStep::Single
    } else if len == 2 {
        FoldStep::Pair
    } else if len % 2 == 0 {
        FoldStep::Even { pairs: len / 2 }
    } else {
        FoldStep::Odd { pairs: len / 2, weight: len - 1, count: len }
    }
}

/// The sum of the values.
pub open spec fn total(values: Seq<int>) -> int
    decreases values.len(),
{
    if values.len() == 0 {
        0
    } else {
        total(values.drop_last()) + values.last()
    }
}

/// The sums of the pairs `(2 * i, 2 * i + 1)` of the values.
pub open spec fn pair_sums(values: Seq<int>) -> Seq<int> {
    Seq::new(values.len() / 2, |i: int| values[2 * i] + values[2 * i + 1])
}

/// The result of the plan in exact arithmetic, as a fraction `(numerator,
/// denominator)`, for the numbers `values[i] / scale`.
///
/// Half the sum of two such numbers is the sum of their numerators over
/// `2 * scale`, so the half sums of the pairs are `pair_sums(values)` at
/// twice the scale.
pub open spec fn exact_mean(values: Seq<int>, scale: int) -> (int, int)
    decreases values.len(),
{
    match step_of(values.len()) {
        FoldStep::Empty => (0, 1),
        FoldStep::Single => (values[0], scale),
        FoldStep::Pair => (values[0] + values[1], 2 * scale),
        FoldStep::Even { pairs } => exact_mean(pair_sums(values), 2 * scale),
        FoldStep::Odd { pairs, weight, count } => {
            let partial = exact_mean(pair_sums(values), 2 * scale);
            (
                partial.0 * weight * scale + values.last() * partial.1,
                partial.1 * scale * count,
            )
        },
    }
}

/// The pair sums add up to the sum of the values that have a neighbour.
pub proof fn lemma_total_pair_sums(values: Seq<int>)
    ensures
        values.len() % 2 == 0 ==> total(pair_sums(values)) == total(values),
        values.len() % 2 == 1 ==> total(pair_sums(values)) + values.last() == total(values),
    decreases values.len(),
{
    let len = values.len() as int;
    if len < 2 {
        assert(pair_sums(values) =~= Seq::<int>::empty());
        if len == 1 {
            assert(values.drop_last() =~= Seq::<int>::empty());
        }
    } else if len % 2 == 1 {
        let front = values.drop_last();
        lemma_total_pair_sums(front);
        assert(pair_sums(front) =~= pair_sums(values));
    } else {
        let front = values.drop_last().drop_last();
        lemma_total_pair_sums(front);
        let sums = pair_sums(values);
        assert(sums.len() == len / 2);
        assert(sums.drop_last() =~= pair_sums(front));
        assert(sums.last() == values[len - 2] + values[len - 1]);
        assert(total(sums) == total(pair_sums(front)) + sums.last());
        assert(values.drop_last().last() == values[len - 2]);
        assert(total(values.drop_last()) == total(front) + values[len - 2]);
        assert(total(values) == total(values.drop_last()) + values[len - 1]);
    }
}

/// Carried out exactly, the plan gives the arithmetic mean: the fraction that
/// it returns for the numbers `values[i] / scale` equals their sum divided by
/// their count.
pub proof fn lemma_exact_mean(values: Seq<int>, scale: int)
    requires
        0 < values.len() <= usize::MAX,
        scale > 0,
    ensures
        exact_mean(values, scale).1 > 0,
        exact_mean(values, scale).0 * (values.len() * scale) == total(values) * exact_mean(
            values,
            scale,
        ).1,
    decreases values.len(),
{
    let len = values.len() as int;
    lemma_total_pair_sums(values);
    if len == 1 {
        assert(values.drop_last() =~= Seq::<int>::empty());
        assert(total(values) == values[0]);
        assert(values[0] * (1 * scale) == values[0] * scale);
    } else if len == 2 {
        let front = values.drop_last();
        assert(front.drop_last() =~= Seq::<int>::empty());
        assert(total(front.drop_last()) == 0);
        assert(front.last() == values[0]);
        assert(total(front) == values[0]);
        assert(total(values) == values[0] + values[1]);
    } else {
        let sums = pair_sums(values);
        let pairs = len / 2;
        lemma_exact_mean(sums, 2 * scale);
        let (n, d) = exact_mean(sums, 2 * scale);
        let t = total(sums);
        assert(n * (pairs * (2 * scale)) == t * d);
        if len % 2 == 0 {
            assert(exact_mean(values, scale) == (n, d));
            assert(n * (len * scale) == total(values) * d) by (nonlinear_arith)
                requires
                    n * (pairs * (2 * scale)) == t * d,
                    len == 2 * pairs,
                    t == total(values),
            ;
        } else {
            let last = values.last();
            let weight = len - 1;
            assert(exact_mean(values, scale) == (
                n * weight * scale + last * d,
                d * scale * len,
            ));
            assert(d * scale * len > 0) by (nonlinear_arith)
                requires
                    d > 0,
                    scale > 0,
                    len > 0,
            ;
            assert(n * weight * scale == t * d) by (nonlinear_arith)
                requires
                    n * (pairs * (2 * scale)) == t * d,
                    weight == 2 * pairs,
            ;
            assert(t * d + last * d == total(values) * d) by (nonlinear_arith)
                requires
                    t + last == total(values),
            ;
            assert((total(values) * d) * (len * scale) == total(values) * (d * scale * len))
                by (nonlinear_arith);
        }
    }
}

/// Taking one value out lowers the sum by that value.
pub proof fn lemma_total_remove(values: Seq<int>, index: int)
    requires
        0 <= index < values.len(),
    ensures
        total(values) == total(values.remove(index)) + values[index],
    decreases values.len(),
{
    if index == values.len() - 1 {
        assert(values.remove(index) =~= values.drop_last());
    } else {
        lemma_total_remove(values.drop_last(), index);
        assert(values.remove(index).drop_last() =~= values.drop_last().remove(index));
        assert(values.remove(index).last() == values.last());
    }
}

/// The sum does not depend on the order of the values.
pub proof fn lemma_total_of_rearrangement(left: Seq<int>, right: Seq<int>)
    requires
        left.to_multiset() == right.to_multiset(),
    ensures
        total(left) == total(right),
    decreases left.len(),
{
    left.to_multiset_ensures();
    right.to_multiset_ensures();
    if left.len() > 0 {
        let value = left.last();
        assert(left.contains(value));
        assert(right.to_multiset().count(value) > 0);
        assert(right.contains(value));
        let index = choose|index: int| 0 <= index < right.len() && right[index] == value;
        assert(left.remove(left.len() - 1) =~= left.drop_last());
        lemma_total_of_rearrangement(left.drop_last(), right.remove(index));
        lemma_total_remove(right, index);
    }
}

/// Carried out exactly, the plan gives the same mean for the same values in
/// any order: the two fractions are equal.
pub proof fn lemma_exact_mean_of_rearrangement(left: Seq<int>, right: Seq<int>, scale: int)
    requires
        left.to_multiset() == right.to_multiset(),
        0 < left.len() <= usize::MAX,
        scale > 0,
    ensures
        exact_mean(left, scale).0 * exact_mean(right, scale).1 == exact_mean(right, scale).0
            * exact_mean(left, scale).1,
{
    left.to_multiset_ensures();
    right.to_multiset_ensures();
    lemma_total_of_rearrangement(left, right);
    lemma_exact_mean(left, scale);
    lemma_exact_mean(right, scale);
    let (n, d) = exact_mean(left, scale);
    let (m, e) = exact_mean(right, scale);
    let sum = total(left);
    let count = left.len() * scale;
    assert(count > 0) by (nonlinear_arith)
        requires
            count == left.len() * scale,
            left.len() > 0,
            scale > 0,
    ;
    assert((n * e) * count == (m * d) * count) by (nonlinear_arith)
        requires
            n * count == sum * d,
            m * count == sum * e,
    ;
    assert(n * e == m * d) by (nonlinear_arith)
        requires
            (n * e) * count == (m * d) * count,
            count > 0,
    ;
}

} // verus!
