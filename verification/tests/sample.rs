use mcgen::sample::weighted_choice;
use mcgen::{RandomSource, SeededRandom, ThreadRandom};

#[test]
fn uniform_draws_stay_in_the_half_open_range() {
    let mut rng = SeededRandom::new(1);
    for _ in 0..1000 {
        let v = rng.uniform(10, 20);
        assert!((10..20).contains(&v));
    }
}

#[test]
fn uniform_on_a_single_value_returns_it() {
    // A range of one value leaves the generator no choice: a draw that
    // handed back anything else would be out of range.
    let mut rng = SeededRandom::new(2);
    for _ in 0..10 {
        assert_eq!(rng.uniform(5, 6), 5);
        assert_eq!(rng.uniform(-3, -2), -3);
    }
}

#[test]
fn uniform_covers_the_range() {
    let mut rng = SeededRandom::new(3);
    let mut seen = [false; 4];
    for _ in 0..1000 {
        let v = rng.uniform(0, 4);
        seen[v as usize] = true;
    }
    assert!(seen.iter().all(|&b| b));
}

#[test]
fn coin_shows_both_faces() {
    let mut rng = SeededRandom::new(4);
    let mut heads = false;
    let mut tails = false;
    for _ in 0..1000 {
        if rng.coin() {
            heads = true;
        } else {
            tails = true;
        }
    }
    assert!(heads && tails);
}

#[test]
fn exponential_draws_are_positive_and_bounded() {
    let mut rng = SeededRandom::new(5);
    for _ in 0..1000 {
        let v = rng.exponential(10);
        assert!(v >= 1);
        assert!(v <= 20);
    }
}

#[test]
fn seeded_random_is_reproducible() {
    let mut a = SeededRandom::new(42);
    let mut b = SeededRandom::new(42);
    for _ in 0..100 {
        assert_eq!(a.uniform(0, 1_000_000), b.uniform(0, 1_000_000));
    }
}

#[test]
fn thread_random_draws_stay_in_range() {
    let mut rng = ThreadRandom::new();
    for _ in 0..100 {
        let v = rng.uniform(-5, 5);
        assert!((-5..5).contains(&v));
    }
}

#[test]
fn weighted_choice_returns_only_positive_weights() {
    let mut rng = SeededRandom::new(6);
    let weights = vec![0, 5, 0];
    for _ in 0..100 {
        assert_eq!(weighted_choice(&mut rng, &weights), 1);
    }
}

#[test]
fn weighted_choice_tracks_the_weights() {
    let mut rng = SeededRandom::new(7);
    let weights = vec![1, 3];
    let total = 10_000;
    let mut first = 0usize;
    for _ in 0..total {
        if weighted_choice(&mut rng, &weights) == 0 {
            first += 1;
        }
    }
    let freq = first as f64 / total as f64;
    assert!((freq - 0.25).abs() < 0.02);
}
