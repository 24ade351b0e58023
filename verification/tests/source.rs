use mcgen::mc::{EastPointingSource, Point, SimpleSource, Source};
use mcgen::SeededRandom;

#[test]
fn simple_source_emits_from_its_location() {
    let source = SimpleSource::new(Point::new(3, 4), 662);
    assert_eq!(source.location().to_tuple(), (3, 4));
    assert_eq!(source.energy(), 662);
    let mut rng = SeededRandom::new(8);
    for _ in 0..50 {
        let photon = source.emit_photon(&mut rng);
        assert_eq!(photon.location().to_tuple(), (3, 4));
        assert_eq!(photon.energy(), 662);
        let (dx, dy) = (photon.direction().dx(), photon.direction().dy());
        assert_eq!(dx * dx + dy * dy, 1);
    }
}

#[test]
fn simple_source_emits_into_every_axis_direction() {
    let source = SimpleSource::new(Point::new(0, 0), 100);
    let mut rng = SeededRandom::new(9);
    let mut seen = [false; 4];
    for _ in 0..200 {
        let photon = source.emit_photon(&mut rng);
        match (photon.direction().dx(), photon.direction().dy()) {
            (1, 0) => seen[0] = true,
            (0, 1) => seen[1] = true,
            (-1, 0) => seen[2] = true,
            (0, -1) => seen[3] = true,
            other => panic!("not an axis direction: {:?}", other),
        }
    }
    assert!(seen.iter().all(|&b| b));
}

#[test]
fn east_pointing_source_never_points_west() {
    let source = EastPointingSource::new(Point::new(-2, 5), 300);
    assert_eq!(source.location().to_tuple(), (-2, 5));
    assert_eq!(source.energy(), 300);
    let mut rng = SeededRandom::new(10);
    for _ in 0..100 {
        let photon = source.emit_photon(&mut rng);
        assert!(photon.direction().dx() >= 0);
    }
}
