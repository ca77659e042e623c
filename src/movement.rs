use vstd::prelude::*;
use crate::geometry::{Point, Position, representable};

verus! {

/// A logical direction of travel, whatever key produced it.
#[derive(Clone, Copy, Debug, PartialEq, Eq, Structural)]
pub enum Direction {
    Up,
    Down,
    Left,
    Right,
}

/// The set of directions held during one tick.
#[derive(Clone, Copy, Debug, PartialEq, Eq, Structural)]
pub struct InputSet {
    pub up: bool,
    pub down: bool,
    pub left: bool,
    pub right: bool,
}

impl InputSet {
    pub open spec fn has(self, d: Direction) -> bool {
        match d {
            Direction::Up => self.up,
            Direction::Down => self.down,
            Direction::Left => self.left,
            Direction::Right => self.right,
        }
    }

    /// No direction held.
    pub fn empty() -> (r: InputSet)
        ensures
            forall|d: Direction| !r.has(d),
            !r.up && !r.down && !r.left && !r.right,
    {
        InputSet { up: false, down: false, left: false, right: false }
    }

    /// This set with `d` added.
    pub fn with(self, d: Direction) -> (r: InputSet)
        ensures
            forall|e: Direction| r.has(e) == (e == d || self.has(e)),
            r.up == (d == Direction::Up || self.up),
            r.down == (d == Direction::Down || self.down),
            r.left == (d == Direction::Left || self.left),
            r.right == (d == Direction::Right || self.right),
    {
        match d {
            Direction::Up => InputSet { up: true, ..self },
            Direction::Down => InputSet { down: true, ..self },
            Direction::Left => InputSet { left: true, ..self },
            Direction::Right => InputSet { right: true, ..self },
        }
    }

    pub fn contains(&self, d: Direction) -> (r: bool)
        ensures
            r == self.has(d),
    {
        match d {
            Direction::Up => self.up,
            Direction::Down => self.down,
            Direction::Left => self.left,
            Direction::Right => self.right,
        }
    }
}

/// Translation along one axis: `speed` towards each held direction of it,
/// so two opposite directions cancel.
pub open spec fn axis_shift(toward: bool, away: bool, speed: int) -> int {
    (if toward {
        speed
    } else {
        0
    }) - (if away {
        speed
    } else {
        0
    })
}

/// Where one tick of movement takes a point. The axes move independently:
/// a diagonal is not normalised.
pub open spec fn moved(p: Point, input: InputSet, speed: int) -> Point {
    Point {
        x: p.x + axis_shift(input.right, input.left, speed),
        y: p.y + axis_shift(input.up, input.down, speed),
    }
}

/// One tick of movement from `p` stays within the machine representation.
pub open spec fn can_move(p: Point, input: InputSet, speed: int) -> bool {
    representable(moved(p, input, speed))
}

/// One coordinate after a tick, in a type wide enough for any shift.
fn shift_coordinate_wide(c: i64, toward: bool, away: bool, speed: i64) -> (r: i128)
    ensures
        r == c + axis_shift(toward, away, speed as int),
{
    let mut v: i128 = c as i128;
    if toward {
        v = v + speed as i128;
    }
    if away {
        v = v - speed as i128;
    }
    v
}

fn shift_coordinate(c: i64, toward: bool, away: bool, speed: i64) -> (r: i64)
    requires
        i64::MIN <= c + axis_shift(toward, away, speed as int) <= i64::MAX,
    ensures
        r == c + axis_shift(toward, away, speed as int),
{
    shift_coordinate_wide(c, toward, away, speed) as i64
}

/// Translates `position` by `speed` along each axis for each held direction.
/// There is no clamping to the play area.
pub fn apply_movement(position: Position, input: InputSet, speed: i64) -> (r: Position)
    requires
        can_move(position@, input, speed as int),
    ensures
        r@ == moved(position@, input, speed as int),
{
    Position {
        x: shift_coordinate(position.x, input.right, input.left, speed),
        y: shift_coordinate(position.y, input.up, input.down, speed),
    }
}

/// Whether one tick of movement from `position` can be represented; the
/// condition under which `apply_movement` may be called.
pub fn movement_fits(position: Position, input: InputSet, speed: i64) -> (r: bool)
    ensures
        r == can_move(position@, input, speed as int),
{
    let x: i128 = shift_coordinate_wide(position.x, input.right, input.left, speed);
    let y: i128 = shift_coordinate_wide(position.y, input.up, input.down, speed);
    i64::MIN as i128 <= x && x <= i64::MAX as i128 && i64::MIN as i128 <= y && y
        <= i64::MAX as i128
}

} // verus!
