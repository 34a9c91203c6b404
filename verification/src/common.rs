//! Samples, the statistics of one run, and its report.

use crate::binary64::Binary64;
use crate::gemm::Layout;
use crate::gemm::Transpose;
use rayon::slice::ParallelSliceMut;
use vstd::prelude::*;
use vstd::relations::sorted_by;
use vstd::relations::total_ordering;
use vstd::seq_lib::lemma_sorted_unique;

verus! {

/// An elapsed time, counted in nanoseconds.
#[derive(Clone, Copy, Debug, PartialEq, Eq, PartialOrd, Ord, Structural)]
pub struct Duration(pub u128);

impl Duration {
    /// The shortest duration.
    pub fn shortest() -> (duration: Duration)
        ensures
            duration.0 == 0,
    {
        Duration(0)
    }

    /// The longest duration.
    pub fn longest() -> (duration: Duration)
        ensures
            duration.0 == u128::MAX,
    {
        Duration(u128::MAX)
    }

    /// The number of nanoseconds.
    pub fn as_nanos(&self) -> (nanos: u128)
        ensures
            nanos == self.0,
    {
        self.0
    }
}

/// The nanosecond counts of the samples, in the order of the samples.
pub open spec fn nanos_of(samples: Seq<Duration>) -> Seq<u128> {
    samples.map_values(|sample: Duration| sample.0)
}

/// Whether no entry is greater than a later one.
pub open spec fn ascending(values: Seq<u128>) -> bool {
    forall|i: int, j: int| 0 <= i <= j < values.len() ==> values[i] <= values[j]
}

/// The nanosecond counts of the samples from the least to the greatest.
pub open spec fn in_order(samples: Seq<Duration>) -> Seq<u128> {
    nanos_of(samples).sort_by(|a: u128, b: u128| a <= b)
}

/// `in_order` rearranges the samples and is ascending, and it is the only
/// sequence of which both hold.
pub proof fn lemma_in_order(samples: Seq<Duration>)
    ensures
        in_order(samples).len() == samples.len(),
        in_order(samples).to_multiset() == nanos_of(samples).to_multiset(),
        ascending(in_order(samples)),
        forall|other: Seq<u128>|
            ascending(other) && other.to_multiset() == nanos_of(samples).to_multiset()
                ==> other == in_order(samples),
{
    let leq = |a: u128, b: u128| a <= b;
    let sorted = in_order(samples);
    assert(total_ordering(leq));
    nanos_of(samples).lemma_sort_by_ensures(leq);
    nanos_of(samples).to_multiset_ensures();
    sorted.to_multiset_ensures();
    assert(ascending(sorted)) by {
        assert forall|i: int, j: int| 0 <= i <= j < sorted.len() implies sorted[i] <= sorted[j] by {
            if i < j {
                assert(leq(sorted[i], sorted[j]));
            }
        }
    }
    assert forall|other: Seq<u128>|
        ascending(other) && other.to_multiset() == nanos_of(samples).to_multiset() implies other
        == sorted by {
        assert(sorted_by(other, leq)) by {
            assert forall|i: int, j: int| 0 <= i < j < other.len() implies #[trigger] leq(
                other[i],
                other[j],
            ) by {}
        }
        lemma_sorted_unique(other, sorted, leq);
    }
}

/// The samples in order do not depend on the order in which they were taken.
pub proof fn lemma_in_order_of_rearrangement(left: Seq<Duration>, right: Seq<Duration>)
    requires
        nanos_of(left).to_multiset() == nanos_of(right).to_multiset(),
    ensures
        in_order(left) == in_order(right),
{
    lemma_in_order(left);
    lemma_in_order(right);
}

/// Every sample lies between the first and the last entry of `in_order`, and
/// each entry of `in_order` is one of the samples.
pub proof fn lemma_in_order_bounds(samples: Seq<Duration>)
    requires
        samples.len() > 0,
    ensures
        forall|i: int|
            0 <= i < samples.len() ==> in_order(samples)[0] <= (#[trigger] samples[i]).0
                <= in_order(samples)[samples.len() - 1],
        forall|k: int|
            0 <= k < samples.len() ==> nanos_of(samples).contains(#[trigger] in_order(samples)[k]),
{
    let sorted = in_order(samples);
    let nanos = nanos_of(samples);
    lemma_in_order(samples);
    nanos.to_multiset_ensures();
    sorted.to_multiset_ensures();
    assert forall|i: int| 0 <= i < samples.len() implies sorted[0] <= (#[trigger] samples[i]).0
        <= sorted[samples.len() - 1] by {
        assert(nanos[i] == samples[i].0);
        assert(nanos.contains(nanos[i]));
        assert(sorted.to_multiset().count(nanos[i]) > 0);
        assert(sorted.contains(nanos[i]));
        let j = choose|j: int| 0 <= j < sorted.len() && sorted[j] == nanos[i];
        assert(sorted[0] <= sorted[j] <= sorted[samples.len() - 1]);
    }
    assert forall|k: int| 0 <= k < samples.len() implies nanos.contains(#[trigger] sorted[k]) by {
        assert(sorted.contains(sorted[k]));
        assert(nanos.to_multiset().count(sorted[k]) > 0);
    }
}

/// Sorts the values with rayon's `ParallelSliceMut::par_sort`, which its
/// documentation describes as a stable sort of the slice by the order of its
/// element type: afterwards the vector holds the values it held before, each
/// as often as before, and none is greater than a later one.
#[verifier::external_body]
fn par_sort(values: &mut Vec<u128>)
    ensures
        ascending(final(values)@),
        final(values)@.to_multiset() == old(values)@.to_multiset(),
{
    values.par_sort();
}

/// The summary of the samples of one run, or of several merged runs.
#[derive(Clone, Copy, Debug, PartialEq, Eq)]
pub struct Statistics {
    /// The middle sample. A merge of several runs has none.
    pub medium: Option<Duration>,
    /// The longest sample.
    pub maximum: Duration,
    /// The shortest sample.
    pub minimum: Duration,
    /// The mean of the samples, in milliseconds.
    pub average: Binary64,
    /// The standard deviation of the samples, in milliseconds.
    pub deviation: Binary64,
}

impl Statistics {
    /// Whether the order statistics are consistent: the shortest sample is
    /// not longer than the longest, and the middle one, if there is one, lies
    /// between them.
    pub open spec fn ordered(self) -> bool {
        &&& self.minimum.0 <= self.maximum.0
        &&& self.medium matches Some(medium) ==> self.minimum.0 <= medium.0 <= self.maximum.0
    }

    /// Whether the statistics are those of some samples: they are ordered,
    /// and neither the mean nor the deviation is negative.
    pub open spec fn well_formed(self) -> bool {
        &&& self.ordered()
        &&& self.average.non_negative()
        &&& self.deviation.non_negative()
    }

    /// The statistics of no samples: no middle sample, everything else zero.
    pub fn new() -> (statistics: Statistics)
        ensures
            statistics.medium is None,
            statistics.maximum.0 == 0,
            statistics.minimum.0 == 0,
            statistics.average.bits == 0,
            statistics.deviation.bits == 0,
            statistics.well_formed(),
    {
        Statistics {
            medium: None,
            maximum: Duration(0),
            minimum: Duration(0),
            average: Binary64::zero(),
            deviation: Binary64::zero(),
        }
    }

    /// The statistics of the samples of one run.
    ///
    /// The order statistics are computed here: with the samples sorted from
    /// the shortest to the longest, the middle sample is the one at index
    /// `len / 2`. The mean and the deviation, both in milliseconds, are
    /// computed by the caller and kept as given.
    pub fn from_samples(records: &Vec<Duration>, average: Binary64, deviation: Binary64) -> (statistics: Statistics)
        requires
            records.len() > 0,
        ensures
            statistics.medium == Some(Duration(in_order(records@)[records.len() as int / 2])),
            statistics.minimum == Duration(in_order(records@)[0]),
            statistics.maximum == Duration(in_order(records@)[records.len() - 1]),
            statistics.average == average,
            statistics.deviation == deviation,
            statistics.ordered(),
            forall|i: int|
                0 <= i < records.len() ==> statistics.minimum.0 <= (#[trigger] records[i]).0
                    <= statistics.maximum.0,
            average.non_negative() && deviation.non_negative() ==> statistics.well_formed(),
    {
        let mut sorted: Vec<u128> = Vec::new();
        let mut i: usize = 0;
        while i < records.len()
            invariant
                i <= records.len(),
                sorted@ == nanos_of(records@.take(i as int)),
            decreases records.len() - i,
        {
            sorted.push(records[i].as_nanos());
            assert(records@.take(i + 1) == records@.take(i as int).push(records@[i as int]));
            i += 1;
        }
        assert(records@.take(records.len() as int) == records@);
        par_sort(&mut sorted);
        proof {
            lemma_in_order(records@);
            lemma_in_order_bounds(records@);
            assert(sorted@ == in_order(records@));
        }
        let middle: usize = sorted.len() / 2;
        let last: usize = sorted.len() - 1;
        Statistics {
            medium: Some(Duration(sorted[middle])),
            maximum: Duration(sorted[last]),
            minimum: Duration(sorted[0]),
            average,
            deviation,
        }
    }
}

/// The outcome of one run, or of several merged runs: what was measured, and
/// the statistics of the samples.
#[derive(Debug, PartialEq, Eq)]
pub struct Report {
    /// The name of the kernel.
    pub name: String,
    /// The extents `(m, n, k)` of the product.
    pub dimensions: (usize, usize, usize),
    /// The number of samples.
    pub repeats: usize,
    /// The factor of the product.
    pub alpha: Binary64,
    /// The factor of the matrix that the product is added to.
    pub beta: Binary64,
    /// The storage order of the matrices.
    pub layout: Layout,
    /// What is done to each operand before it is multiplied.
    pub transpose: (Transpose, Transpose),
    /// The statistics of the samples.
    pub statistics: Statistics,
}

impl Report {
    /// Whether two reports measured the same thing: extents, factors, layout
    /// and transpositions are pairwise equal. The factors are compared as
    /// numbers, so a factor that is not a number equals none.
    pub open spec fn same_parameters(self, other: Report) -> bool {
        &&& self.dimensions == other.dimensions
        &&& self.alpha.same_number(other.alpha)
        &&& self.beta.same_number(other.beta)
        &&& self.layout == other.layout
        &&& self.transpose == other.transpose
    }

    /// Whether two reports measured the same thing.
    pub fn has_same_parameters(&self, other: &Report) -> (answer: bool)
        ensures
            answer == self.same_parameters(*other),
    {
        self.dimensions.0 == other.dimensions.0 && self.dimensions.1 == other.dimensions.1
            && self.dimensions.2 == other.dimensions.2 && self.alpha.equals(&other.alpha)
            && self.beta.equals(&other.beta) && self.layout == other.layout && self.transpose.0
            == other.transpose.0 && self.transpose.1 == other.transpose.1
    }

    /// The number of multiplications of the product, `m * n * k`, unless it
    /// is more than a `usize` holds.
    pub fn volume(&self) -> (volume: Option<usize>)
        ensures
            match volume {
                Some(product) => product == self.dimensions.0 * self.dimensions.1
                    * self.dimensions.2,
                None => self.dimensions.0 * self.dimensions.1 * self.dimensions.2 > usize::MAX,
            },
    {
        let (m, n, k) = self.dimensions;
        match m.checked_mul(n) {
            Some(plane) => plane.checked_mul(k),
            None => {
                if k == 0 {
                    Some(0)
                } else {
                    proof {
                        assert(m * n * k >= m * n) by (nonlinear_arith)
                            requires
                                k >= 1,
                                m * n >= 0,
                        ;
                    }
                    None
                }
            },
        }
    }
}

} // verus!
