//! Merging the reports of several runs into one.
//!
//! The samples of a run are gone once its report is written, so a merge works
//! on the statistics alone. Reports can be merged where they measured the same
//! thing. The merged mean is the mean of the reports' means, each weighted by
//! its number of samples; the weights are computed here, the arithmetic on
//! the means is the caller's. No deviation can be had from the statistics
//! alone: the merged report leaves it at zero, as a report without samples
//! does.

use crate::binary64::Binary64;
use crate::common::Duration;
use crate::common::Report;
use crate::common::Statistics;
use vstd::prelude::*;

verus! {

/// Why reports cannot be merged.
#[derive(Clone, Copy, Debug, PartialEq, Eq, Structural)]
pub enum MergeError {
    /// A report measured something else than the first one.
    IncompatibleParameters,
}

/// The number of samples of all reports together.
pub open spec fn total_repeats(reports: Seq<Report>) -> int
    decreases reports.len(),
{
    if reports.len() == 0 {
        0
    } else {
        total_repeats(reports.drop_last()) + reports.last().repeats
    }
}

/// Whether every report after the first measured what the first measured.
pub open spec fn mergeable(reports: Seq<Report>) -> bool {
    forall|i: int| 1 <= i < reports.len() ==> (#[trigger] reports[i]).same_parameters(reports[0])
}

/// Whether `value` is the longest of the reports' longest samples.
pub open spec fn is_longest(reports: Seq<Report>, value: u128) -> bool {
    &&& forall|i: int| 0 <= i < reports.len() ==> (#[trigger] reports[i]).statistics.maximum.0 <= value
    &&& exists|i: int| 0 <= i < reports.len() && (#[trigger] reports[i]).statistics.maximum.0 == value
}

/// Whether `value` is the shortest of the reports' shortest samples.
pub open spec fn is_shortest(reports: Seq<Report>, value: u128) -> bool {
    &&& forall|i: int| 0 <= i < reports.len() ==> value <= (#[trigger] reports[i]).statistics.minimum.0
    &&& exists|i: int| 0 <= i < reports.len() && (#[trigger] reports[i]).statistics.minimum.0 == value
}

/// The number of samples of the first `count` reports is not more than that
/// of all.
pub proof fn lemma_total_repeats_monotonic(reports: Seq<Report>, count: int)
    requires
        0 <= count <= reports.len(),
    ensures
        0 <= total_repeats(reports.take(count)) <= total_repeats(reports),
    decreases reports.len() - count,
{
    if count == reports.len() {
        assert(reports.take(count) =~= reports);
        lemma_total_repeats_nonnegative(reports);
    } else {
        lemma_total_repeats_monotonic(reports, count + 1);
        assert(reports.take(count + 1).drop_last() =~= reports.take(count));
        lemma_total_repeats_nonnegative(reports.take(count));
    }
}

/// A number of samples is not negative.
pub proof fn lemma_total_repeats_nonnegative(reports: Seq<Report>)
    ensures
        total_repeats(reports) >= 0,
    decreases reports.len(),
{
    if reports.len() > 0 {
        lemma_total_repeats_nonnegative(reports.drop_last());
    }
}

/// The number of samples of all reports together, unless it is more than a
/// `usize` holds.
pub fn checked_total_repeats(reports: &Vec<Report>) -> (total: Option<usize>)
    ensures
        match total {
            Some(sum) => sum == total_repeats(reports@),
            None => total_repeats(reports@) > usize::MAX,
        },
{
    let mut sum: usize = 0;
    let mut i: usize = 0;
    while i < reports.len()
        invariant
            i <= reports.len(),
            sum == total_repeats(reports@.take(i as int)),
        decreases reports.len() - i,
    {
        proof {
            assert(reports@.take(i + 1).drop_last() =~= reports@.take(i as int));
        }
        match sum.checked_add(reports[i].repeats) {
            Some(next) => {
                sum = next;
            },
            None => {
                proof {
                    lemma_total_repeats_monotonic(reports@, i + 1);
                }
                return None;
            },
        }
        i += 1;
    }
    proof {
        assert(reports@.take(reports.len() as int) =~= reports@);
    }
    Some(sum)
}

/// The weights of the merged mean: for each report its number of samples,
/// and the number of samples of all reports up to and including it.
///
/// With `(repeats, seen)` the weight of a report and `average` its mean, the
/// merged mean moves from `mean` to `mean + (average - mean) * (repeats /
/// seen)`; it starts at zero.
pub fn mean_weights(reports: &Vec<Report>) -> (weights: Vec<(usize, usize)>)
    requires
        total_repeats(reports@) <= usize::MAX,
    ensures
        weights.len() == reports.len(),
        forall|i: int|
            0 <= i < reports.len() ==> (#[trigger] weights[i]).0 == reports[i].repeats
                && weights[i].1 == total_repeats(reports@.take(i + 1)),
{
    let mut weights: Vec<(usize, usize)> = Vec::new();
    let mut seen: usize = 0;
    let mut i: usize = 0;
    while i < reports.len()
        invariant
            i <= reports.len(),
            total_repeats(reports@) <= usize::MAX,
            seen == total_repeats(reports@.take(i as int)),
            weights.len() == i,
            forall|j: int|
                0 <= j < i ==> (#[trigger] weights[j]).0 == reports[j].repeats && weights[j].1
                    == total_repeats(reports@.take(j + 1)),
        decreases reports.len() - i,
    {
        proof {
            assert(reports@.take(i + 1).drop_last() =~= reports@.take(i as int));
            lemma_total_repeats_monotonic(reports@, i + 1);
        }
        seen = seen + reports[i].repeats;
        weights.push((reports[i].repeats, seen));
        i += 1;
    }
    weights
}

/// Merges the reports of several runs that measured the same thing.
///
/// The merged report has the name and the parameters of the first report and
/// the samples of all. Its longest and shortest samples are the longest and
/// the shortest of all reports. It has a middle sample only where a single
/// report is merged. Its mean is `average`, which the caller forms with
/// [`mean_weights`]; its deviation is left at zero.
pub fn merge(reports: &Vec<Report>, average: Binary64) -> (merged: Result<Report, MergeError>)
    requires
        reports.len() > 0,
        total_repeats(reports@) <= usize::MAX,
    ensures
        merged is Ok <==> mergeable(reports@),
        merged is Err ==> merged == Err::<Report, MergeError>(MergeError::IncompatibleParameters),
        merged matches Ok(report) ==> {
            &&& report.name@ == reports[0].name@
            &&& report.dimensions == reports[0].dimensions
            &&& report.alpha == reports[0].alpha
            &&& report.beta == reports[0].beta
            &&& report.layout == reports[0].layout
            &&& report.transpose == reports[0].transpose
            &&& report.repeats == total_repeats(reports@)
            &&& is_longest(reports@, report.statistics.maximum.0)
            &&& is_shortest(reports@, report.statistics.minimum.0)
            &&& report.statistics.medium == if reports.len() == 1 {
                reports[0].statistics.medium
            } else {
                None
            }
            &&& report.statistics.average == average
            &&& report.statistics.deviation.bits == 0
            &&& (forall|i: int| 0 <= i < reports.len() ==> (#[trigger] reports[i]).statistics.ordered())
                ==> report.statistics.ordered()
        },
{
    let first = &reports[0];
    let mut i: usize = 1;
    while i < reports.len()
        invariant
            1 <= i <= reports.len(),
            *first == reports[0],
            forall|j: int| 1 <= j < i ==> (#[trigger] reports[j]).same_parameters(reports[0]),
        decreases reports.len() - i,
    {
        if !reports[i].has_same_parameters(first) {
            assert(!reports[i as int].same_parameters(reports[0]));
            return Err(MergeError::IncompatibleParameters);
        }
        i += 1;
    }
    let repeats = checked_total_repeats(reports).unwrap();
    let mut maximum: u128 = first.statistics.maximum.as_nanos();
    let mut minimum: u128 = first.statistics.minimum.as_nanos();
    let mut i: usize = 1;
    proof {
        assert(reports@.take(1)[0] == reports[0]);
    }
    while i < reports.len()
        invariant
            1 <= i <= reports.len(),
            is_longest(reports@.take(i as int), maximum),
            is_shortest(reports@.take(i as int), minimum),
        decreases reports.len() - i,
    {
        let ghost seen = reports@.take(i as int);
        let ghost next = reports@.take(i + 1);
        let ghost at_most = choose|j: int|
            0 <= j < seen.len() && (#[trigger] seen[j]).statistics.maximum.0 == maximum;
        let ghost at_least = choose|j: int|
            0 <= j < seen.len() && (#[trigger] seen[j]).statistics.minimum.0 == minimum;
        let candidate = &reports[i].statistics;
        if maximum < candidate.maximum.as_nanos() {
            maximum = candidate.maximum.as_nanos();
            assert(next[i as int].statistics.maximum.0 == maximum);
        } else {
            assert(next[at_most].statistics.maximum.0 == maximum);
        }
        if minimum > candidate.minimum.as_nanos() {
            minimum = candidate.minimum.as_nanos();
            assert(next[i as int].statistics.minimum.0 == minimum);
        } else {
            assert(next[at_least].statistics.minimum.0 == minimum);
        }
        proof {
            assert forall|j: int| 0 <= j < next.len() implies (#[trigger] next[j]).statistics.maximum.0
                <= maximum && minimum <= next[j].statistics.minimum.0 by {
                if j < i {
                    assert(seen[j] == next[j]);
                }
            }
        }
        i += 1;
    }
    proof {
        assert(reports@.take(reports.len() as int) =~= reports@);
    }
    let medium = if reports.len() == 1 {
        first.statistics.medium
    } else {
        None
    };
    Ok(
        Report {
            name: first.name.clone(),
            dimensions: first.dimensions,
            repeats,
            alpha: first.alpha,
            beta: first.beta,
            layout: first.layout,
            transpose: first.transpose,
            statistics: Statistics {
                medium,
                maximum: Duration(maximum),
                minimum: Duration(minimum),
                average,
                deviation: Binary64::zero(),
            },
        },
    )
}

/// Reports of which one has other extents than the first cannot be merged.
pub proof fn lemma_differing_dimensions(reports: Seq<Report>, index: int)
    requires
        0 <= index < reports.len(),
        reports[index].dimensions != reports[0].dimensions,
    ensures
        !mergeable(reports),
{
    assert(!reports[index].same_parameters(reports[0]));
}

/// The sum of the reports' means, each taken as often as its report has
/// samples.
pub open spec fn weighted_total(averages: Seq<int>, reports: Seq<Report>) -> int
    decreases reports.len(),
{
    if reports.len() == 0 {
        0
    } else {
        weighted_total(averages.drop_last(), reports.drop_last()) + averages.last()
            * reports.last().repeats
    }
}

/// The merged mean in exact arithmetic, as a fraction `(numerator,
/// denominator)`, for reports whose means are `averages`.
///
/// It starts at zero. A report with the weight `(repeats, seen)` and the mean
/// `average` moves it from `mean` to `mean + (average - mean) * (repeats /
/// seen)`.
pub open spec fn exact_merged_mean(averages: Seq<int>, reports: Seq<Report>) -> (int, int)
    decreases reports.len(),
{
    if reports.len() == 0 {
        (0, 1)
    } else {
        let mean = exact_merged_mean(averages.drop_last(), reports.drop_last());
        let repeats = reports.last().repeats;
        let seen = total_repeats(reports);
        (mean.0 * seen + (averages.last() * mean.1 - mean.0) * repeats, mean.1 * seen)
    }
}

/// Carried out exactly, the steps of the merged mean give the weighted mean
/// of the reports' means: their weighted sum divided by the number of all
/// samples.
pub proof fn lemma_exact_merged_mean(averages: Seq<int>, reports: Seq<Report>)
    requires
        averages.len() == reports.len(),
        reports.len() > 0,
        reports[0].repeats > 0,
    ensures
        total_repeats(reports) > 0,
        exact_merged_mean(averages, reports).1 > 0,
        exact_merged_mean(averages, reports).0 * total_repeats(reports) == weighted_total(
            averages,
            reports,
        ) * exact_merged_mean(averages, reports).1,
    decreases reports.len(),
{
    let front = reports.drop_last();
    let front_averages = averages.drop_last();
    let repeats = reports.last().repeats as int;
    let average = averages.last();
    let seen = total_repeats(reports);
    let (n, d) = exact_merged_mean(front_averages, front);
    let sum = weighted_total(front_averages, front);
    if reports.len() == 1 {
        assert(front =~= Seq::<Report>::empty());
        assert(total_repeats(front) == 0);
        assert(sum == 0);
        assert((n, d) == (0int, 1int));
        assert((0 * seen + (average * 1 - 0) * repeats) * seen == (0 + average * repeats) * (1
            * seen)) by (nonlinear_arith);
    } else {
        assert(front[0] == reports[0]);
        lemma_exact_merged_mean(front_averages, front);
        let before = total_repeats(front);
        assert(d * seen > 0) by (nonlinear_arith)
            requires
                d > 0,
                seen > 0,
        ;
        assert(n * seen + (average * d - n) * repeats == (sum + average * repeats) * d)
            by (nonlinear_arith)
            requires
                n * before == sum * d,
                seen == before + repeats,
        ;
        assert(((sum + average * repeats) * d) * seen == (sum + average * repeats) * (d * seen))
            by (nonlinear_arith);
    }
}

/// Merging reports that all have the same mean gives that mean, in exact
/// arithmetic.
pub proof fn lemma_merged_mean_of_equal_means(averages: Seq<int>, reports: Seq<Report>, mean: int)
    requires
        averages.len() == reports.len(),
        reports.len() > 0,
        reports[0].repeats > 0,
        forall|i: int| 0 <= i < averages.len() ==> averages[i] == mean,
    ensures
        exact_merged_mean(averages, reports).1 > 0,
        exact_merged_mean(averages, reports).0 == mean * exact_merged_mean(averages, reports).1,
{
    lemma_exact_merged_mean(averages, reports);
    lemma_weighted_total_of_equal_means(averages, reports, mean);
    let (n, d) = exact_merged_mean(averages, reports);
    let all = total_repeats(reports);
    assert(n == mean * d) by (nonlinear_arith)
        requires
            n * all == (mean * all) * d,
            all > 0,
    ;
}

/// The weighted sum of equal means is the mean times the number of samples.
pub proof fn lemma_weighted_total_of_equal_means(averages: Seq<int>, reports: Seq<Report>, mean: int)
    requires
        averages.len() == reports.len(),
        forall|i: int| 0 <= i < averages.len() ==> averages[i] == mean,
    ensures
        weighted_total(averages, reports) == mean * total_repeats(reports),
    decreases reports.len(),
{
    if reports.len() > 0 {
        lemma_weighted_total_of_equal_means(averages.drop_last(), reports.drop_last(), mean);
        let before = total_repeats(reports.drop_last());
        let repeats = reports.last().repeats as int;
        assert(mean * before + mean * repeats == mean * (before + repeats)) by (nonlinear_arith);
    }
}

} // verus!
