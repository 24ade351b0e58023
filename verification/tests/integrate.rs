use mcgen::{integrate, Integrate, SeededRandom};

#[test]
fn integrate_sample_scales_by_the_width() {
    // The identity integrand over a width of 100 always hands back a
    // multiple of 100 inside the range.
    let integrator = Integrate::new(|x: i64| x, 0, 100);
    let mut rng = SeededRandom::new(5);
    for _ in 0..100 {
        let v = integrator.sample(&mut rng);
        assert_eq!(v % 100, 0);
        assert!((0..10_000).contains(&v));
    }
}

#[test]
fn integrate_counts_its_samples() {
    let mut rng = SeededRandom::new(5);
    let stats = integrate(|x: i64| x, 0, 10, 1000, &mut rng);
    assert!(stats.variance().is_some());
}

#[test]
fn integrate_estimates_a_linear_integral() {
    // The integral of x over [0, 100) is 5000, and the estimator's
    // mean approaches it.
    let mut rng = SeededRandom::new(77);
    let stats = integrate(|x: i64| x, 0, 100, 10_000, &mut rng);
    let mean = stats.mean();
    let error = stats.error_of_mean().expect("not enough data");
    assert!((mean - 4950).abs() <= 5 * error.max(1));
}

#[test]
fn integrate_of_a_constant_is_exact() {
    // A constant integrand makes every draw identical, so the mean is
    // exact and the spread is zero.
    let mut rng = SeededRandom::new(3);
    let stats = integrate(|_x: i64| 7, 0, 10, 100, &mut rng);
    assert_eq!(stats.mean(), 70);
    assert_eq!(stats.variance(), Some(0));
    assert_eq!(stats.error_of_mean(), Some(0));
}
