use mcgen::mc::{
    classify_event, simulate_particle, BeamLine, Collimator, EastPointingSource, Event, FreePath,
    Material, ParticleStatus, Point,
};
use mcgen::{SeededRandom, ThreadRandom};

#[test]
fn classify_event_maps_events_to_statuses() {
    for material in [Material::Air, Material::Absorber, Material::Detector] {
        assert_eq!(classify_event(material, Event::Nothing), ParticleStatus::Propagating);
        assert_eq!(
            classify_event(material, Event::CoherentScatter),
            ParticleStatus::Propagating
        );
        assert_eq!(
            classify_event(material, Event::IncoherentScatter),
            ParticleStatus::Propagating
        );
    }
    assert_eq!(classify_event(Material::Detector, Event::Absorbed), ParticleStatus::Detected);
    assert_eq!(classify_event(Material::Air, Event::Absorbed), ParticleStatus::Lost);
    assert_eq!(classify_event(Material::Absorber, Event::Absorbed), ParticleStatus::Lost);
}

#[test]
fn free_path_laws_follow_the_materials() {
    let beam = BeamLine::new(EastPointingSource::new(Point::new(0, 0), 10), 0, 5, 3);
    assert_eq!(beam.mean_free_path_for(Material::Detector), FreePath::Fix(0));
    assert_eq!(beam.mean_free_path_for(Material::Air), FreePath::Exp(3));
    let collimator = Collimator::new(
        EastPointingSource::new(Point::new(0, 0), 10),
        0,
        (2, 4),
        (-1, 1),
        6,
        2,
        5,
        (1, 1, 1),
    );
    assert_eq!(collimator.mean_free_path_for(Material::Detector), FreePath::Fix(0));
    assert_eq!(collimator.mean_free_path_for(Material::Air), FreePath::Fix(2));
    assert_eq!(collimator.mean_free_path_for(Material::Absorber), FreePath::Exp(5));
}

#[test]
fn beam_line_detects_photons_behind_the_wall() {
    // An experiment that starts at zero, has only air up to a detector
    // wall at ten, and absorbs exactly there, always hands back a
    // photon lying in the detector.
    let source = EastPointingSource::new(Point::new(-1, 0), 662);
    let experiment = BeamLine::new(source, 0, 10, 1);
    let mut rng = SeededRandom::new(7);
    let photon = simulate_particle(&experiment, &mut rng, 100_000).expect("no photon detected");
    assert!(photon.location().x() >= 10);
    assert_eq!(photon.energy(), 662);
}

#[test]
fn beam_line_detection_holds_for_many_runs() {
    let source = EastPointingSource::new(Point::new(-5, 3), 300);
    let experiment = BeamLine::new(source, -2, 25, 4);
    let mut rng = SeededRandom::new(1234);
    for _ in 0..20 {
        let photon = simulate_particle(&experiment, &mut rng, 100_000).expect(
            "no photon detected",
        );
        assert!(photon.location().x() >= 25);
    }
}

#[test]
fn beam_line_works_with_the_thread_generator() {
    let source = EastPointingSource::new(Point::new(-1, 0), 500);
    let experiment = BeamLine::new(source, 0, 5, 2);
    let mut rng = ThreadRandom::new();
    let photon = simulate_particle(&experiment, &mut rng, 100_000).expect("no photon detected");
    assert!(photon.location().x() >= 5);
}

#[test]
fn collimator_photons_through_the_hole_are_detected() {
    // The hole covers the beam axis, so the slab never interferes.
    let source = EastPointingSource::new(Point::new(-1, 0), 662);
    let experiment = Collimator::new(
        source,
        0,
        (2, 4),
        (-1, 1),
        6,
        1,
        1,
        (1, 1, 1),
    );
    let mut rng = SeededRandom::new(15);
    let photon = simulate_particle(&experiment, &mut rng, 1_000_000).expect("no photon detected");
    assert!(photon.location().x() > 6);
    assert_eq!(photon.energy(), 662);
}

#[test]
fn collimator_scattered_photons_keep_positive_energy() {
    // The hole misses the beam axis: every photon crosses the
    // scattering slab, and a detected one may have lost energy but
    // never all of it.
    let source = EastPointingSource::new(Point::new(-1, 0), 662);
    let experiment = Collimator::new(
        source,
        0,
        (2, 4),
        (10, 11),
        6,
        1,
        1,
        (1, 1, 1),
    );
    let mut rng = SeededRandom::new(16);
    let photon = simulate_particle(&experiment, &mut rng, 1_000_000).expect("no photon detected");
    assert!(photon.location().x() > 6);
    assert!(photon.energy() >= 1);
    assert!(photon.energy() <= 662);
}

#[test]
fn simulate_particle_reports_an_exhausted_budget() {
    // With no budget at all, nothing can be simulated.
    let source = EastPointingSource::new(Point::new(-1, 0), 662);
    let experiment = BeamLine::new(source, 0, 10, 1);
    let mut rng = SeededRandom::new(7);
    assert!(simulate_particle(&experiment, &mut rng, 0).is_none());
}
