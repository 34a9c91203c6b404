use benchmark::binary64::Binary64;
use benchmark::common::Duration;
use benchmark::common::Report;
use benchmark::common::Statistics;
use benchmark::gemm::Layout;
use benchmark::gemm::Transpose;
use benchmark::merge::checked_total_repeats;
use benchmark::merge::mean_weights;
use benchmark::merge::merge;
use benchmark::merge::MergeError;

fn number(value: f64) -> Binary64 {
    Binary64::from_bits(value.to_bits())
}

fn report(repeats: usize, average: f64, minimum: u128, medium: u128, maximum: u128) -> Report {
    Report {
        name: String::from("kernel.c"),
        dimensions: (10, 20, 30),
        repeats,
        alpha: number(1.0),
        beta: number(0.0),
        layout: Layout::RowMajor,
        transpose: (Transpose::NoTrans, Transpose::Trans),
        statistics: Statistics {
            medium: Some(Duration(medium)),
            maximum: Duration(maximum),
            minimum: Duration(minimum),
            average: number(average),
            deviation: number(0.25),
        },
    }
}

/// The merged mean, formed with the weights as their description says.
fn merged_mean(reports: &Vec<Report>) -> f64 {
    let mut mean = 0.0;
    for (report, (repeats, seen)) in reports.iter().zip(mean_weights(reports)) {
        let average = f64::from_bits(report.statistics.average.to_bits());
        mean = mean + (average - mean) * (repeats as f64 / seen as f64);
    }
    mean
}

#[test]
fn merging_a_report_with_itself_keeps_the_mean_and_adds_the_repeats() {
    let reports = vec![report(10, 5.0, 1, 2, 3), report(10, 5.0, 1, 2, 3)];
    let mean = merged_mean(&reports);
    assert_eq!(mean, 5.0);
    let merged = merge(&reports, number(mean)).unwrap();
    assert_eq!(merged.repeats, 20);
    assert_eq!(f64::from_bits(merged.statistics.average.to_bits()), 5.0);
}

#[test]
fn merging_two_reports_weighs_their_means() {
    let reports = vec![report(10, 4.0, 1, 2, 3), report(10, 6.0, 1, 2, 3)];
    assert_eq!(mean_weights(&reports), vec![(10, 10), (10, 20)]);
    assert_eq!(merged_mean(&reports), 5.0);
}

#[test]
fn merging_reports_of_different_lengths_weighs_by_repeats() {
    let reports = vec![report(30, 2.0, 1, 2, 3), report(10, 6.0, 1, 2, 3), report(0, 100.0, 1, 2, 3)];
    assert_eq!(mean_weights(&reports), vec![(30, 30), (10, 40), (0, 40)]);
    assert_eq!(merged_mean(&reports), 3.0);
    assert_eq!(checked_total_repeats(&reports), Some(40));
}

#[test]
fn merging_reports_with_different_dimensions_fails() {
    let mut other = report(10, 6.0, 1, 2, 3);
    other.dimensions = (10, 20, 31);
    let reports = vec![report(10, 4.0, 1, 2, 3), other];
    assert_eq!(merge(&reports, number(5.0)), Err(MergeError::IncompatibleParameters));
}

#[test]
fn merging_reports_with_any_other_parameter_different_fails() {
    let mut alpha = report(10, 6.0, 1, 2, 3);
    alpha.alpha = number(1.5);
    let mut beta = report(10, 6.0, 1, 2, 3);
    beta.beta = number(1.0);
    let mut layout = report(10, 6.0, 1, 2, 3);
    layout.layout = Layout::ColMajor;
    let mut first = report(10, 6.0, 1, 2, 3);
    first.transpose = (Transpose::ConjTrans, Transpose::Trans);
    let mut second = report(10, 6.0, 1, 2, 3);
    second.transpose = (Transpose::NoTrans, Transpose::NoTrans);
    for other in [alpha, beta, layout, first, second] {
        let reports = vec![report(10, 4.0, 1, 2, 3), report(10, 4.0, 1, 2, 3), other];
        assert_eq!(merge(&reports, number(5.0)), Err(MergeError::IncompatibleParameters));
    }
}

#[test]
fn the_name_and_the_statistics_do_not_decide_whether_reports_merge() {
    let mut other = report(7, 6.0, 0, 9, 99);
    other.name = String::from("other.c");
    other.statistics.deviation = number(3.0);
    let reports = vec![report(10, 4.0, 1, 2, 3), other];
    let merged = merge(&reports, number(4.5)).unwrap();
    assert_eq!(merged.name, "kernel.c");
    assert_eq!(merged.repeats, 17);
}

#[test]
fn factors_are_compared_as_numbers() {
    let mut negative_zero = report(10, 6.0, 1, 2, 3);
    negative_zero.beta = number(-0.0);
    let reports = vec![report(10, 4.0, 1, 2, 3), negative_zero];
    assert!(merge(&reports, number(5.0)).is_ok());
    let mut first = report(10, 4.0, 1, 2, 3);
    first.alpha = number(f64::NAN);
    let mut second = report(10, 4.0, 1, 2, 3);
    second.alpha = number(f64::NAN);
    let reports = vec![first, second];
    assert_eq!(merge(&reports, number(4.0)), Err(MergeError::IncompatibleParameters));
}

#[test]
fn the_merged_report_has_the_extremes_of_all_and_no_median() {
    let reports = vec![report(1, 4.0, 5, 6, 7), report(2, 4.0, 3, 8, 9), report(3, 4.0, 4, 5, 6)];
    let merged = merge(&reports, number(4.0)).unwrap();
    assert_eq!(merged.statistics.minimum, Duration(3));
    assert_eq!(merged.statistics.maximum, Duration(9));
    assert_eq!(merged.statistics.medium, None);
    assert_eq!(merged.repeats, 6);
    assert_eq!(merged.dimensions, (10, 20, 30));
    assert_eq!(merged.alpha, number(1.0));
    assert_eq!(merged.beta, number(0.0));
    assert_eq!(merged.layout, Layout::RowMajor);
    assert_eq!(merged.transpose, (Transpose::NoTrans, Transpose::Trans));
}

#[test]
fn the_merged_deviation_is_left_at_zero() {
    let reports = vec![report(1, 4.0, 5, 6, 7), report(2, 4.0, 3, 8, 9)];
    let merged = merge(&reports, number(4.0)).unwrap();
    assert_eq!(merged.statistics.deviation, Statistics::new().deviation);
    assert_eq!(f64::from_bits(merged.statistics.deviation.to_bits()), 0.0);
}

#[test]
fn merging_a_single_report_keeps_its_median() {
    let reports = vec![report(4, 2.5, 5, 6, 7)];
    let merged = merge(&reports, number(merged_mean(&reports))).unwrap();
    assert_eq!(merged.statistics.medium, Some(Duration(6)));
    assert_eq!(merged.statistics.minimum, Duration(5));
    assert_eq!(merged.statistics.maximum, Duration(7));
    assert_eq!(merged.repeats, 4);
    assert_eq!(f64::from_bits(merged.statistics.average.to_bits()), 2.5);
}

#[test]
fn the_total_of_the_repeats_is_none_where_it_does_not_fit() {
    let reports = vec![report(usize::MAX, 4.0, 1, 2, 3), report(1, 4.0, 1, 2, 3)];
    assert_eq!(checked_total_repeats(&reports), None);
    let reports = vec![report(usize::MAX - 1, 4.0, 1, 2, 3), report(1, 4.0, 1, 2, 3)];
    assert_eq!(checked_total_repeats(&reports), Some(usize::MAX));
    assert_eq!(checked_total_repeats(&Vec::new()), Some(0));
}

#[test]
fn reports_with_the_same_parameters_are_told() {
    let left = report(1, 4.0, 5, 6, 7);
    let mut right = report(9, 1.0, 1, 1, 1);
    assert!(left.has_same_parameters(&right));
    right.dimensions = (30, 20, 10);
    assert!(!left.has_same_parameters(&right));
}

#[test]
fn the_volume_is_the_product_of_the_extents() {
    let mut cube = report(1, 4.0, 5, 6, 7);
    assert_eq!(cube.volume(), Some(6000));
    cube.dimensions = (usize::MAX, 2, 1);
    assert_eq!(cube.volume(), None);
    cube.dimensions = (usize::MAX, 2, 0);
    assert_eq!(cube.volume(), Some(0));
    cube.dimensions = (1 << 20, 1 << 20, 1 << 20);
    assert_eq!(cube.volume(), Some(1 << 60));
}
