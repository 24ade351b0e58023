use mcgen::mc::{Direction, Error, Photon, Point, Rotation};

#[test]
fn photon_reports_its_properties() {
    let p = Photon::new(Point::new(2, 3), Direction::new(1, 0), 662);
    assert_eq!(p.location().to_tuple(), (2, 3));
    assert_eq!((p.direction().dx(), p.direction().dy()), (1, 0));
    assert_eq!(p.energy(), 662);
}

#[test]
fn photon_set_energy_changes_only_the_energy() {
    let mut p = Photon::new(Point::new(0, 0), Direction::new(0, 1), 300);
    p.set_energy(120);
    assert_eq!(p.energy(), 120);
    assert_eq!(p.location().to_tuple(), (0, 0));
}

#[test]
fn photon_step_moves_forward() {
    let mut p = Photon::new(Point::new(0, 0), Direction::new(1, 0), 662);
    assert_eq!(p.step(5), Ok(()));
    assert_eq!(p.location().to_tuple(), (5, 0));
}

#[test]
fn photon_step_rejects_zero_length_without_moving() {
    let mut p = Photon::new(Point::new(7, -2), Direction::new(1, 0), 662);
    assert_eq!(p.step(0), Err(Error::WrongDirection));
    assert_eq!(p.location().to_tuple(), (7, -2));
}

#[test]
fn photon_step_rejects_negative_length_without_moving() {
    let mut p = Photon::new(Point::new(7, -2), Direction::new(0, -1), 662);
    assert_eq!(p.step(-9), Err(Error::WrongDirection));
    assert_eq!(p.location().to_tuple(), (7, -2));
    assert_eq!(p.step(i64::MIN + 1), Err(Error::WrongDirection));
    assert_eq!(p.location().to_tuple(), (7, -2));
}

#[test]
fn photon_rotate_changes_only_the_direction() {
    let mut p = Photon::new(Point::new(1, 1), Direction::new(1, 0), 662);
    p.rotate(&Rotation::new(0, 1));
    assert_eq!((p.direction().dx(), p.direction().dy()), (0, 1));
    assert_eq!(p.location().to_tuple(), (1, 1));
    assert_eq!(p.energy(), 662);
}

#[test]
fn photon_go_to_x_reaches_the_target() {
    let mut p = Photon::new(Point::new(-3, 4), Direction::new(1, 0), 662);
    assert_eq!(p.go_to_x(10), Ok(()));
    assert_eq!(p.location().to_tuple(), (10, 4));
}

#[test]
fn photon_go_to_x_fails_when_pointing_away() {
    let mut p = Photon::new(Point::new(0, 0), Direction::new(-1, 0), 662);
    assert_eq!(p.go_to_x(10), Err(Error::WrongDirection));
    assert_eq!(p.location().to_tuple(), (0, 0));
    let mut q = Photon::new(Point::new(0, 0), Direction::new(0, 1), 662);
    assert_eq!(q.go_to_x(10), Err(Error::WrongDirection));
    assert_eq!(q.location().to_tuple(), (0, 0));
}

#[test]
fn photon_go_to_x_fails_on_zero_distance() {
    let mut p = Photon::new(Point::new(10, 0), Direction::new(1, 0), 662);
    assert_eq!(p.go_to_x(10), Err(Error::WrongDirection));
}

#[test]
fn photon_go_to_y_reaches_the_target() {
    let mut p = Photon::new(Point::new(5, 2), Direction::new(0, -1), 662);
    assert_eq!(p.go_to_y(-8), Ok(()));
    assert_eq!(p.location().to_tuple(), (5, -8));
}

#[test]
fn photon_go_to_y_fails_when_pointing_away() {
    let mut p = Photon::new(Point::new(0, 0), Direction::new(0, -1), 662);
    assert_eq!(p.go_to_y(4), Err(Error::WrongDirection));
    assert_eq!(p.location().to_tuple(), (0, 0));
}
