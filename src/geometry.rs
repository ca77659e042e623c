use vstd::prelude::*;

verus! {

/// A point of the play area as mathematical integers.
pub struct Point {
    pub x: int,
    pub y: int,
}

/// Distance between two coordinates on one axis.
pub open spec fn axis_distance(a: int, b: int) -> int {
    if a >= b {
        a - b
    } else {
        b - a
    }
}

/// Whether a coordinate pair fits the machine representation of a position.
pub open spec fn representable(p: Point) -> bool {
    i64::MIN <= p.x <= i64::MAX && i64::MIN <= p.y <= i64::MAX
}

/// A position in the play area, in whole units; `y` grows upwards.
#[derive(Clone, Copy, Debug, PartialEq, Eq, Structural)]
pub struct Position {
    pub x: i64,
    pub y: i64,
}

impl View for Position {
    type V = Point;

    open spec fn view(&self) -> Point {
        Point { x: self.x as int, y: self.y as int }
    }
}

impl Position {
    pub fn new(x: i64, y: i64) -> (r: Position)
        ensures
            r.x == x,
            r.y == y,
    {
        Position { x, y }
    }

    /// The centre of the play area.
    pub fn origin() -> (r: Position)
        ensures
            r@ == (Point { x: 0, y: 0 }),
    {
        Position { x: 0, y: 0 }
    }
}

/// The region the player must reach. `half_width` and `half_height` are the
/// tolerances of the containment test, not the size the goal is drawn at.
#[derive(Clone, Copy, Debug, PartialEq, Eq, Structural)]
pub struct GoalZone {
    pub center: Position,
    pub half_width: i64,
    pub half_height: i64,
}

impl GoalZone {
    pub fn new(center: Position, half_width: i64, half_height: i64) -> (r: GoalZone)
        ensures
            r.center == center,
            r.half_width == half_width,
            r.half_height == half_height,
    {
        GoalZone { center, half_width, half_height }
    }
}

/// A point is in the goal when it lies strictly closer than the tolerance on
/// both axes; points exactly at a tolerance are outside.
pub open spec fn within_goal(p: Point, goal: GoalZone) -> bool {
    &&& axis_distance(p.x, goal.center.x as int) < goal.half_width
    &&& axis_distance(p.y, goal.center.y as int) < goal.half_height
}

/// Whether `a` and `b` lie strictly closer than `tolerance` to each other.
fn closer_than(a: i64, b: i64, tolerance: i64) -> (r: bool)
    ensures
        r == (axis_distance(a as int, b as int) < tolerance),
{
    let d: i128 = if a >= b {
        a as i128 - b as i128
    } else {
        b as i128 - a as i128
    };
    d < tolerance as i128
}

/// Containment test of the player's position against the goal zone.
pub fn is_player_in_goal(player: &Position, goal: &GoalZone) -> (r: bool)
    ensures
        r == within_goal(player@, *goal),
{
    closer_than(player.x, goal.center.x, goal.half_width) && closer_than(
        player.y,
        goal.center.y,
        goal.half_height,
    )
}

} // verus!
