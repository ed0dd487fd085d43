//! Tests for the statistics primitives: ranking, the chi-squared statistic
//! with its p-value, and the Pearson and Spearman correlation coefficients.

use bitbelay::statistics::Ratio;
use bitbelay::statistics::chi_squared::chi_squared_uniform;
use bitbelay::statistics::correlation::pearson;
use bitbelay::statistics::correlation::spearman;
use bitbelay::statistics::rank;
use statrs::distribution::ChiSquared;
use statrs::distribution::ContinuousCDF;

const TOLERANCE: f64 = 1e-3;

/// The p-value for a chi-squared statistic carried as an exact ratio, with
/// the given degrees of freedom.
fn p_value(statistic: &Ratio, degrees_of_freedom: f64) -> f64 {
    let value = statistic.num as f64 / statistic.den as f64;
    1.0 - ChiSquared::new(degrees_of_freedom).unwrap().cdf(value)
}

#[test]
fn rank_works_correctly() {
    let input: Vec<i64> = vec![1, 3, 5, 2, 4, 6];
    let expected: Vec<usize> = vec![1, 3, 5, 2, 4, 6];
    assert_eq!(rank(&input), expected);

    let input: Vec<i64> = vec![20, 10, 40, 30];
    let expected: Vec<usize> = vec![2, 1, 4, 3];
    assert_eq!(rank(&input), expected);
}

#[test]
fn test_simple_goodness_of_fit() {
    let observations: Vec<u64> = vec![50, 60, 40, 47, 53];

    // Ensures the chi-squared calculates correctly.
    let css = chi_squared_uniform(&observations).unwrap();
    let value = css.num as f64 / css.den as f64;
    assert!((value - 4.36).abs() < TOLERANCE);

    // The exact ratio behind the approximation.
    assert_eq!(css.num, 5450);
    assert_eq!(css.den, 1250);

    // Ensures the p-value comes out right.
    let p = p_value(&css, 4.0);
    assert!((p - 0.359472).abs() < TOLERANCE);
}

#[test]
fn test_zero_chi_squared_uniform() {
    let observations: Vec<u64> = vec![5, 5, 5, 5, 5];

    // Ensures the chi-squared calculates correctly.
    let css = chi_squared_uniform(&observations).unwrap();
    assert_eq!(css.num, 0);

    // Ensures the p-value comes out right.
    let p = p_value(&css, 4.0);
    assert!((p - 1.0).abs() < TOLERANCE);
}

#[test]
fn test_biases_chi_squared_uniform() {
    let observations: Vec<u64> = vec![1000, 0, 0, 0];

    // Ensures the chi-squared calculates correctly.
    let css = chi_squared_uniform(&observations).unwrap();
    let value = css.num as f64 / css.den as f64;
    assert!((value - 3000.0).abs() < TOLERANCE);

    // Ensures the p-value comes out right.
    let p = p_value(&css, 3.0);
    assert!(p.abs() < TOLERANCE);
}

#[test]
fn chi_squared_undefined_below_density() {
    // Expected count per bucket is 4, below the required five.
    let observations: Vec<u64> = vec![4, 4, 4, 4];
    assert!(chi_squared_uniform(&observations).is_none());
}

#[test]
fn only_zero_elements() {
    let elements: Vec<i64> = vec![0, 0, 0];
    assert!(pearson::correlation(&elements, &elements).is_none());
}

#[test]
fn pearson_different_lengths() {
    let a: Vec<i64> = vec![1, 2, 3, 4];
    let b: Vec<i64> = vec![5, 6];
    assert!(pearson::correlation(&a, &b).is_none());
}

#[test]
fn pearson_empty() {
    let a: Vec<i64> = vec![];
    let b: Vec<i64> = vec![];
    assert!(pearson::correlation(&a, &b).is_none());
}

#[test]
fn pearson_boundary_values() {
    // Positive linear relationship: exactly one.
    let rho = pearson::correlation(&vec![1, 2, 3, 4], &vec![5, 6, 7, 8]).unwrap();
    assert_eq!(rho.millionths(), 1_000_000);

    // Negative linear relationship: exactly minus one.
    let rho = pearson::correlation(&vec![1, 2, 3, 4], &vec![8, 7, 6, 5]).unwrap();
    assert_eq!(rho.millionths(), -1_000_000);

    // No relationship: near zero.
    let rho = pearson::correlation(
        &vec![24, 63, 32, 80, 52, 50, 16, 59],
        &vec![56, 95, 54, 51, 63, 17, 80, 90],
    )
    .unwrap();
    assert!((rho.millionths() as f64 / 1e6 - 0.018).abs() < TOLERANCE);
}

#[test]
fn pearson_threshold_comparison_is_exact() {
    let rho = pearson::correlation(&vec![1, 2, 3, 4], &vec![5, 6, 7, 8]).unwrap();
    assert!(rho.abs_ge_millionths(1_000_000));
    assert!(rho.abs_ge_millionths(50_000));

    let rho = pearson::correlation(
        &vec![24, 63, 32, 80, 52, 50, 16, 59],
        &vec![56, 95, 54, 51, 63, 17, 80, 90],
    )
    .unwrap();
    assert!(!rho.abs_ge_millionths(50_000));
}

#[test]
fn spearman_different_lengths() {
    let a: Vec<i64> = vec![1, 2, 3, 4];
    let b: Vec<i64> = vec![5, 6];
    assert!(spearman::correlation(&a, &b).is_none());
}

#[test]
fn spearman_empty() {
    let a: Vec<i64> = vec![];
    let b: Vec<i64> = vec![];
    assert!(spearman::correlation(&a, &b).is_none());
}

#[test]
fn spearman_boundary_values() {
    // Monotonic relationship: exactly one.
    let rho = spearman::correlation(&vec![2, 1, 4, 3], &vec![20, 10, 40, 30]).unwrap();
    assert_eq!(rho.millionths(), 1_000_000);

    // Anti-monotonic relationship: exactly minus one.
    let rho = spearman::correlation(&vec![2, 1, 4, 3], &vec![30, 40, 10, 20]).unwrap();
    assert_eq!(rho.millionths(), -1_000_000);

    // No relationship: near zero.
    let rho = spearman::correlation(
        &vec![24, 63, 32, 80, 52, 50, 16, 59],
        &vec![56, 95, 54, 51, 63, 17, 80, 90],
    )
    .unwrap();
    assert!((rho.millionths() as f64 / 1e6 - 0.095).abs() < TOLERANCE);
}

#[test]
fn ratio_millionths_rounds_toward_negative_infinity() {
    let r = Ratio { num: 1, den: 3 };
    assert_eq!(r.millionths(), 333_333);
    let r = Ratio { num: -1, den: 3 };
    assert_eq!(r.millionths(), -333_334);
    let r = Ratio { num: -1, den: 2 };
    assert_eq!(r.millionths(), -500_000);
}
