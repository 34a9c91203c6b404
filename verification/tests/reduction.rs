use benchmark::reduction::fold_step;
use benchmark::reduction::FoldStep;

/// The mean of the values, formed step by step as the plan says.
fn mean(values: &[f64]) -> Option<f64> {
    match fold_step(values.len()) {
        FoldStep::Empty => None,
        FoldStep::Single => Some(values[0]),
        FoldStep::Pair => Some(values[0] / 2.0 + values[1] / 2.0),
        FoldStep::Even { pairs } => mean(&half_sums(values, pairs)),
        FoldStep::Odd { pairs, weight, count } => {
            let partial = mean(&half_sums(values, pairs))?;
            Some((partial * weight as f64 + values[values.len() - 1]) / count as f64)
        }
    }
}

fn half_sums(values: &[f64], pairs: usize) -> Vec<f64> {
    (0..pairs).map(|i| values[2 * i] / 2.0 + values[2 * i + 1] / 2.0).collect()
}

fn close(left: f64, right: f64) -> bool {
    (left - right).abs() <= 1.0e-9 * right.abs()
}

#[test]
fn steps_of_the_short_sequences() {
    assert_eq!(fold_step(0), FoldStep::Empty);
    assert_eq!(fold_step(1), FoldStep::Single);
    assert_eq!(fold_step(2), FoldStep::Pair);
}

#[test]
fn steps_of_the_long_sequences() {
    assert_eq!(fold_step(3), FoldStep::Odd { pairs: 1, weight: 2, count: 3 });
    assert_eq!(fold_step(4), FoldStep::Even { pairs: 2 });
    assert_eq!(fold_step(7), FoldStep::Odd { pairs: 3, weight: 6, count: 7 });
    assert_eq!(fold_step(1_000_000), FoldStep::Even { pairs: 500_000 });
    assert_eq!(
        fold_step(usize::MAX),
        FoldStep::Odd { pairs: usize::MAX / 2, weight: usize::MAX - 1, count: usize::MAX }
    );
}

#[test]
fn mean_of_nothing_is_none() {
    assert_eq!(mean(&[]), None);
}

#[test]
fn mean_of_one_value_is_the_value() {
    assert_eq!(mean(&[3.25]), Some(3.25));
    assert_eq!(mean(&[-1.0e300]), Some(-1.0e300));
}

#[test]
fn mean_of_two_and_three_values() {
    assert_eq!(mean(&[4.0, 6.0]), Some(5.0));
    assert_eq!(mean(&[1.0, 2.0, 6.0]), Some(3.0));
    assert_eq!(mean(&[1.0, 2.0, 3.0, 4.0, 5.0]), Some(3.0));
}

#[test]
fn mean_is_close_to_the_plain_mean_in_any_order() {
    let mut values: Vec<f64> = (1..=1001).map(|i| (i * i) as f64 / 7.0).collect();
    let plain = values.iter().sum::<f64>() / values.len() as f64;
    assert!(close(mean(&values).unwrap(), plain));
    values.reverse();
    assert!(close(mean(&values).unwrap(), plain));
    values.rotate_left(333);
    assert!(close(mean(&values).unwrap(), plain));
    values.swap(0, 500);
    assert!(close(mean(&values).unwrap(), plain));
}

#[test]
fn mean_of_many_large_values_does_not_overflow() {
    let values: Vec<f64> = vec![1.0e303; 1_000_000];
    let plain = values.iter().sum::<f64>() / values.len() as f64;
    assert!(plain.is_infinite());
    let stable = mean(&values).unwrap();
    assert!(stable.is_finite());
    assert!(close(stable, 1.0e303));
}

#[test]
fn mean_of_a_power_of_two_of_the_largest_values_is_exact() {
    let values: Vec<f64> = vec![f64::MAX; 1 << 20];
    assert_eq!(mean(&values), Some(f64::MAX));
}
