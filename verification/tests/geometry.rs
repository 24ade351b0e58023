use mcgen::mc::{Direction, Point, Rotation};

#[test]
fn point_accessors_and_setters() {
    let mut p = Point::new(3, -4);
    assert_eq!(p.x(), 3);
    assert_eq!(p.y(), -4);
    p.set_x(10);
    p.set_y(20);
    assert_eq!(p.to_tuple(), (10, 20));
}

#[test]
fn point_step_moves_along_the_direction() {
    let mut p = Point::new(1, 1);
    p.step(&Direction::new(1, 0), 3);
    assert_eq!(p.to_tuple(), (4, 1));
    p.step(&Direction::new(0, -1), 2);
    assert_eq!(p.to_tuple(), (4, -1));
}

#[test]
fn direction_components_are_reported() {
    let d = Direction::new(0, -1);
    assert_eq!(d.dx(), 0);
    assert_eq!(d.dy(), -1);
}

#[test]
fn direction_rotate_quarter_turn() {
    // Rotating east by a counter-clockwise quarter turn points north.
    let mut d = Direction::new(1, 0);
    let quarter = Rotation::new(0, 1);
    d.rotate(&quarter);
    assert_eq!((d.dx(), d.dy()), (0, 1));
    d.rotate(&quarter);
    assert_eq!((d.dx(), d.dy()), (-1, 0));
    d.rotate(&quarter);
    assert_eq!((d.dx(), d.dy()), (0, -1));
    d.rotate(&quarter);
    assert_eq!((d.dx(), d.dy()), (1, 0));
}

#[test]
fn direction_rotate_and_back_restores_the_vector() {
    // A rotation followed by its inverse restores the direction.
    let mut d = Direction::new(0, 1);
    let turn = Rotation::new(0, -1);
    let back = turn.inverse();
    d.rotate(&turn);
    assert_eq!((d.dx(), d.dy()), (1, 0));
    d.rotate(&back);
    assert_eq!((d.dx(), d.dy()), (0, 1));
}

#[test]
fn direction_stays_unit_under_rotations() {
    // The squared length is one after any sequence of rotations.
    let mut d = Direction::new(1, 0);
    let turns = [Rotation::new(0, 1), Rotation::new(-1, 0), Rotation::new(0, -1)];
    for turn in &turns {
        d.rotate(turn);
        assert_eq!(d.dx() * d.dx() + d.dy() * d.dy(), 1);
    }
}
