use mcgen::crosssection::{
    get_x, rotation_from_mu, CoherentCrossSection, CrossSection, IncoherentCrossSection,
    RejectionSampler,
};
use mcgen::{Function, SeededRandom};

fn flat_table(value: i64) -> Function<i64, i64> {
    // A table that is constant over a wide energy domain.
    let mut f = Function::new(0, value);
    f.push(1_000_000, value);
    f
}

#[test]
fn compton_scatter_forward_loses_no_energy() {
    // At zero scattering angle the Compton formula returns the
    // incident energy exactly.
    assert_eq!(IncoherentCrossSection::compton_scatter(662, 1), 662);
    assert_eq!(IncoherentCrossSection::compton_scatter(1, 1), 1);
    assert_eq!(IncoherentCrossSection::compton_scatter(511, 1), 511);
}

#[test]
fn compton_scatter_backward_divides_by_the_kappa_term() {
    // 662 keV gives kappa = 1; straight back, the denominator is
    // 1 + 1 * 2 = 3.
    assert_eq!(IncoherentCrossSection::compton_scatter(662, -1), 220);
    // Below the electron rest energy kappa truncates to zero and the
    // energy is kept.
    assert_eq!(IncoherentCrossSection::compton_scatter(300, -1), 300);
}

#[test]
fn get_x_scales_by_the_half_angle_sine() {
    assert_eq!(get_x(662, 1), 0);
    assert_eq!(get_x(662, 0), 0);
    assert_eq!(get_x(662, -1), 662);
}

#[test]
fn klein_nishina_matches_hand_computed_values() {
    let xs = IncoherentCrossSection::new(flat_table(1));
    // 662 keV: kappa = 1; forward the formula gives 1 * (1 + 0 + 1).
    assert_eq!(xs.klein_nishina(662, 1), 2);
    // Straight back the reciprocal term truncates to zero.
    assert_eq!(xs.klein_nishina(662, -1), 0);
    // Below the rest energy kappa is zero: 1 * (1 + 0 + mu^2).
    assert_eq!(xs.klein_nishina(300, 0), 1);
    assert_eq!(xs.klein_nishina(300, -1), 2);
}

#[test]
fn incoherent_eval_weights_klein_nishina_by_the_table() {
    let xs = IncoherentCrossSection::new(flat_table(5));
    assert_eq!(xs.scattering_function(662, -1), 5);
    assert_eq!(xs.eval(662, 1), 10);
    assert_eq!(xs.eval(662, -1), 0);
    // The envelope is the forward value times the table maximum.
    assert_eq!(xs.max(662), 10);
}

#[test]
fn coherent_eval_squares_the_form_factor() {
    let xs = CoherentCrossSection::new(flat_table(3));
    assert_eq!(xs.form_factor(662, -1), 3);
    // (1 + mu^2) * F^2.
    assert_eq!(xs.eval(662, 1), 18);
    assert_eq!(xs.eval(662, 0), 9);
    assert_eq!(xs.eval(662, -1), 18);
    assert_eq!(xs.max(662), 18);
}

#[test]
fn coherent_eval_follows_a_varying_form_factor() {
    // A falling form factor: 4 at the forward lookup, 1 at the
    // backward one.
    let mut table = Function::new(0, 4);
    table.push(662, 1);
    table.push(1_000_000, 1);
    let xs = CoherentCrossSection::new(table);
    // Forward and right-angle lookups read the table at zero.
    assert_eq!(xs.eval(662, 1), 32);
    assert_eq!(xs.eval(662, 0), 16);
    // Straight back the lookup lands at 662 where the table is 1.
    assert_eq!(xs.eval(662, -1), 2);
}

#[test]
fn rotation_from_mu_recovers_cosine_and_sign() {
    let r = rotation_from_mu(0, false);
    assert_eq!((r.cos(), r.sin()), (0, 1));
    let r = rotation_from_mu(0, true);
    assert_eq!((r.cos(), r.sin()), (0, -1));
    let r = rotation_from_mu(1, false);
    assert_eq!((r.cos(), r.sin()), (1, 0));
    let r = rotation_from_mu(-1, true);
    assert_eq!((r.cos(), r.sin()), (-1, 0));
}

#[test]
fn rejection_sampler_accepts_only_positive_density() {
    // A form factor of 1 gives weights 2, 1, 2 over mu = -1, 0, 1:
    // every angle cosine can be drawn.
    let xs = CoherentCrossSection::new(flat_table(1));
    let sampler = RejectionSampler::new(&xs, 662);
    let mut rng = SeededRandom::new(99);
    for _ in 0..100 {
        let mu = sampler.gen_mu(&mut rng, 1000).expect("rejection sampling starved");
        assert!((-1..=1).contains(&mu));
        assert!(xs.eval(662, mu) > 0);
    }
}

#[test]
fn rejection_sampler_matches_the_target_weights() {
    // With weights 2, 1, 2 the three angle cosines should appear with
    // frequencies near 0.4, 0.2, 0.4.
    let xs = CoherentCrossSection::new(flat_table(1));
    let sampler = RejectionSampler::new(&xs, 662);
    let mut rng = SeededRandom::new(2024);
    let total = 20_000;
    let mut counts = [0usize; 3];
    for _ in 0..total {
        let mu = sampler.sample(&mut rng, 1000).expect("rejection sampling starved");
        counts[(mu + 1) as usize] += 1;
    }
    let freq = |c: usize| c as f64 / total as f64;
    assert!((freq(counts[0]) - 0.4).abs() < 0.02);
    assert!((freq(counts[1]) - 0.2).abs() < 0.02);
    assert!((freq(counts[2]) - 0.4).abs() < 0.02);
}
