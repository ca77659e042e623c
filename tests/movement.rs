use plix::geometry::Position;
use plix::movement::{apply_movement, movement_fits, Direction, InputSet};

#[test]
fn empty_input_does_not_move() {
    let p = apply_movement(Position::new(5, -7), InputSet::empty(), 2);
    assert_eq!(p, Position::new(5, -7));
}

#[test]
fn each_direction_moves_by_speed() {
    let start = Position::new(10, 10);
    let e = InputSet::empty();
    assert_eq!(apply_movement(start, e.with(Direction::Up), 2), Position::new(10, 12));
    assert_eq!(apply_movement(start, e.with(Direction::Down), 2), Position::new(10, 8));
    assert_eq!(apply_movement(start, e.with(Direction::Left), 2), Position::new(8, 10));
    assert_eq!(apply_movement(start, e.with(Direction::Right), 2), Position::new(12, 10));
}

#[test]
fn diagonal_is_not_normalised() {
    let input = InputSet::empty().with(Direction::Up).with(Direction::Right);
    assert_eq!(apply_movement(Position::new(0, 0), input, 3), Position::new(3, 3));
}

#[test]
fn opposite_directions_cancel() {
    let input = InputSet::empty()
        .with(Direction::Up)
        .with(Direction::Down)
        .with(Direction::Left);
    assert_eq!(apply_movement(Position::new(0, 0), input, 2), Position::new(-2, 0));
}

#[test]
fn displacement_does_not_depend_on_position() {
    let input = InputSet::empty().with(Direction::Left).with(Direction::Down);
    let a = apply_movement(Position::new(0, 0), input, 2);
    let b = apply_movement(Position::new(-300, 77), input, 2);
    assert_eq!((a.x - 0, a.y - 0), (b.x + 300, b.y - 77));
}

#[test]
fn input_set_membership() {
    let s = InputSet::empty().with(Direction::Left);
    assert!(s.contains(Direction::Left));
    assert!(!s.contains(Direction::Right));
    assert!(!s.contains(Direction::Up));
    assert!(!s.contains(Direction::Down));
}

#[test]
fn movement_past_the_representable_range_is_detected() {
    let up = InputSet::empty().with(Direction::Up);
    assert!(!movement_fits(Position::new(0, i64::MAX), up, 1));
    assert!(movement_fits(Position::new(0, i64::MAX - 1), up, 1));
    let both = up.with(Direction::Down);
    assert!(movement_fits(Position::new(0, i64::MAX), both, 5));
}
