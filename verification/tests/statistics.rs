use mcgen::statistics::{Cumulable, Primitive, Stat, Statistics};
use mcgen::{RandomSource, SeededRandom};

/// A plain floating-point sample type for the accumulator.
#[derive(Clone, Copy, Debug, PartialEq)]
struct F64(f64);

impl Primitive for F64 {
    fn zero() -> Self {
        F64(0.0)
    }
}

impl Cumulable for F64 {
    fn plus(self, other: Self) -> Self {
        F64(self.0 + other.0)
    }

    fn minus(self, other: Self) -> Self {
        F64(self.0 - other.0)
    }

    fn div_count(self, n: u32) -> Self {
        F64(self.0 / n as f64)
    }
}

impl Stat for F64 {
    type Variance = F64;
    type StdDev = F64;

    fn mul(d1: Self, d2: Self) -> F64 {
        F64(d1.0 * d2.0)
    }

    fn sqrt(v: F64) -> F64 {
        F64(v.0.sqrt())
    }
}

fn uniform_unit(rng: &mut SeededRandom) -> f64 {
    let grain: i64 = 1 << 53;
    rng.uniform(0, grain) as f64 / grain as f64
}

#[test]
fn statistics_empty_mean_is_zero() {
    let stats: Statistics<i64> = Statistics::new();
    assert_eq!(stats.mean(), 0);
    let fstats: Statistics<F64> = Statistics::new();
    assert_eq!(fstats.mean(), F64(0.0));
}

#[test]
fn statistics_variance_is_none_below_two_samples() {
    let mut stats: Statistics<i64> = Statistics::new();
    assert_eq!(stats.variance(), None);
    assert!(stats.standard_deviation().is_none());
    assert!(stats.error_of_mean().is_none());
    stats.push(5);
    assert_eq!(stats.variance(), None);
    stats.push(7);
    assert!(stats.variance().is_some());
    assert!(stats.standard_deviation().is_some());
    assert!(stats.error_of_mean().is_some());
}

#[test]
fn statistics_integer_mean_and_variance_are_exact() {
    let mut stats: Statistics<i64> = Statistics::new();
    stats.push(2);
    stats.push(4);
    stats.push(6);
    // The running mean happens to stay exact on this sample.
    assert_eq!(stats.mean(), 4);
    // The unbiased variance of {2, 4, 6} is (4 + 0 + 4) / 2 = 4.
    assert_eq!(stats.variance(), Some(4));
    assert_eq!(stats.standard_deviation(), Some(2));
}

#[test]
fn statistics_extend_and_from_sample_match_push() {
    let mut a: Statistics<i64> = Statistics::new();
    a.push(1);
    a.push(2);
    a.push(3);
    let mut b: Statistics<i64> = Statistics::new();
    b.extend(&vec![1, 2, 3]);
    let c = Statistics::from_sample(&vec![1, 2, 3]);
    assert_eq!(a.mean(), b.mean());
    assert_eq!(a.variance(), b.variance());
    assert_eq!(a.mean(), c.mean());
    assert_eq!(a.variance(), c.variance());
}

#[test]
fn statistics_online_mean_matches_direct_mean() {
    // The online mean must agree with a direct sum-then-divide within
    // floating-point tolerance, and the online variance with the
    // two-pass unbiased formula.
    let mut rng = SeededRandom::new(11);
    let sample: Vec<f64> = (0..10_000).map(|_| uniform_unit(&mut rng) * 100.0 - 50.0).collect();

    let mut stats: Statistics<F64> = Statistics::new();
    for &x in &sample {
        stats.push(F64(x));
    }

    let direct_mean: f64 = sample.iter().sum::<f64>() / sample.len() as f64;
    let online_mean = stats.mean().0;
    assert!((online_mean - direct_mean).abs() <= 1e-9 * direct_mean.abs().max(1.0));

    let two_pass_variance: f64 = sample.iter().map(|x| (x - direct_mean) * (x - direct_mean)).sum::<
        f64,
    >() / (sample.len() - 1) as f64;
    let online_variance = stats.variance().unwrap().0;
    assert!((online_variance - two_pass_variance).abs() <= 1e-9 * two_pass_variance.abs());
}

#[test]
fn statistics_results_are_permutation_invariant() {
    // Accumulating the same sample in another order changes the result
    // only within a slowly-growing floating-point epsilon.
    let mut rng = SeededRandom::new(23);
    let sample: Vec<f64> = (0..5_000).map(|_| uniform_unit(&mut rng) * 10.0).collect();
    let mut reversed = sample.clone();
    reversed.reverse();
    let mut interleaved: Vec<f64> = Vec::new();
    let half = sample.len() / 2;
    for i in 0..half {
        interleaved.push(sample[i]);
        interleaved.push(sample[sample.len() - 1 - i]);
    }

    let mut direct: Statistics<F64> = Statistics::new();
    let mut backward: Statistics<F64> = Statistics::new();
    let mut shuffled: Statistics<F64> = Statistics::new();
    for &x in &sample {
        direct.push(F64(x));
    }
    for &x in &reversed {
        backward.push(F64(x));
    }
    for &x in &interleaved {
        shuffled.push(F64(x));
    }

    let tolerance = 1e-9;
    assert!((direct.mean().0 - backward.mean().0).abs() <= tolerance);
    assert!((direct.mean().0 - shuffled.mean().0).abs() <= tolerance);
    let v = direct.variance().unwrap().0;
    assert!((v - backward.variance().unwrap().0).abs() <= tolerance * v.abs().max(1.0));
    assert!((v - shuffled.variance().unwrap().0).abs() <= tolerance * v.abs().max(1.0));
}

#[test]
fn statistics_monte_carlo_quarter_circle_estimates_pi() {
    // Integrating 4 * sqrt(1 - x^2) over [0, 1) by a million uniform
    // draws estimates pi well within five standard errors.
    let mut rng = SeededRandom::new(42);
    let mut stats: Statistics<F64> = Statistics::new();
    for _ in 0..1_000_000 {
        let x = uniform_unit(&mut rng);
        let y = 4.0 * (1.0 - x * x).sqrt();
        stats.push(F64(y));
    }
    let mean = stats.mean().0;
    let error = stats.error_of_mean().unwrap().0;
    assert!(error > 0.0);
    assert!((mean - std::f64::consts::PI).abs() < 5.0 * error);
}
