use benchmark::binary64::Binary64;
use benchmark::gate::verify;
use benchmark::gate::VerificationFailure;
use benchmark::gate::TOLERANCE_BITS;

fn number(value: f64) -> Binary64 {
    Binary64::from_bits(value.to_bits())
}

/// `alpha * a * b + beta * c` for square row-major matrices of extent 2.
fn product(alpha: f64, a: &[f64; 4], b: &[f64; 4], beta: f64, c: &[f64; 4]) -> [f64; 4] {
    let mut result = [0.0; 4];
    for row in 0..2 {
        for column in 0..2 {
            let mut sum = 0.0;
            for inner in 0..2 {
                sum += a[row * 2 + inner] * b[inner * 2 + column];
            }
            result[row * 2 + column] = alpha * sum + beta * c[row * 2 + column];
        }
    }
    result
}

fn norm_of_difference(left: &[f64; 4], right: &[f64; 4]) -> f64 {
    left.iter().zip(right.iter()).map(|(l, r)| (l - r) * (l - r)).sum::<f64>().sqrt()
}

#[test]
fn the_tolerance_is_one_ten_thousandth() {
    assert_eq!(f64::from_bits(TOLERANCE_BITS), 1.0e-4);
    assert_eq!(f64::from_bits(TOLERANCE_BITS), 0.0001);
}

#[test]
fn an_exact_product_passes() {
    let a = [1.0, 2.0, 3.0, 4.0];
    let b = [0.5, -1.0, 2.0, 0.25];
    let c = [9.0, 9.0, 9.0, 9.0];
    let trusted = product(1.0, &a, &b, 0.0, &c);
    let kernel = product(1.0, &a, &b, 0.0, &c);
    let norm = norm_of_difference(&trusted, &kernel);
    assert_eq!(norm, 0.0);
    assert_eq!(verify(number(norm)), Ok(()));
}

#[test]
fn a_perturbed_product_fails() {
    let a = [1.0, 2.0, 3.0, 4.0];
    let b = [0.5, -1.0, 2.0, 0.25];
    let c = [9.0, 9.0, 9.0, 9.0];
    let trusted = product(1.0, &a, &b, 0.0, &c);
    let mut kernel = product(1.0, &a, &b, 0.0, &c);
    kernel[2] += 0.01;
    let norm = norm_of_difference(&trusted, &kernel);
    assert!(norm > 1.0e-4);
    assert_eq!(verify(number(norm)), Err(VerificationFailure { norm: number(norm) }));
}

#[test]
fn the_tolerance_itself_passes_and_the_next_number_fails() {
    assert_eq!(verify(number(1.0e-4)), Ok(()));
    assert_eq!(verify(Binary64::from_bits(TOLERANCE_BITS - 1)), Ok(()));
    assert!(verify(Binary64::from_bits(TOLERANCE_BITS + 1)).is_err());
    assert!(verify(number(0.00010000000000000002)).is_err());
}

#[test]
fn no_number_and_infinity_fail() {
    assert!(verify(number(f64::NAN)).is_err());
    assert!(verify(number(f64::INFINITY)).is_err());
    assert!(verify(number(1.0)).is_err());
}

#[test]
fn zero_of_either_sign_passes() {
    assert_eq!(verify(number(0.0)), Ok(()));
    assert_eq!(verify(number(-0.0)), Ok(()));
    assert_eq!(verify(number(5e-324)), Ok(()));
}
