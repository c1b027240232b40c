//! Grid coordinates, movement directions and single-step translation.

use vstd::prelude::*;

verus! {

/// A discrete cell on the unbounded integer playfield.
#[derive(Clone, Copy, PartialEq, Eq, Structural, Debug)]
pub struct GridCoordinate {
    pub x: i32,
    pub y: i32,
}

/// The facing direction of the snake's head. Exactly one is active at a
/// time; it is fixed at spawn time and never changed by this core.
#[derive(Clone, Copy, PartialEq, Eq, Structural, Debug)]
pub enum Direction {
    Up,
    Down,
    Left,
    Right,
}

/// Horizontal grid delta of one movement step in direction `d`.
pub open spec fn step_dx(d: Direction) -> int {
    match d {
        Direction::Right => 1,
        Direction::Left => -1,
        Direction::Up => 0,
        Direction::Down => 0,
    }
}

/// Vertical grid delta of one movement step in direction `d`.
///
/// `Up` and `Down` both move the chain one cell toward positive y: the two
/// vertical directions are deliberately aliased, and callers should not
/// expect a differentiated vertical convention from this library.
pub open spec fn step_dy(d: Direction) -> int {
    match d {
        Direction::Right => 0,
        Direction::Left => 0,
        Direction::Up => 1,
        Direction::Down => 1,
    }
}

/// Whether moving `c` one step in direction `d` stays inside the machine
/// range of a coordinate.
pub open spec fn can_step_coord(c: GridCoordinate, d: Direction) -> bool {
    &&& i32::MIN <= c.x + step_dx(d) <= i32::MAX
    &&& i32::MIN <= c.y + step_dy(d) <= i32::MAX
}

/// Whether `post` is `pre` translated by exactly one step in direction `d`.
pub open spec fn stepped(pre: GridCoordinate, post: GridCoordinate, d: Direction) -> bool {
    &&& post.x == pre.x + step_dx(d)
    &&& post.y == pre.y + step_dy(d)
}

/// Translate a coordinate by one step in direction `d`.
pub fn step_coord(c: GridCoordinate, d: Direction) -> (r: GridCoordinate)
    requires
        can_step_coord(c, d),
    ensures
        stepped(c, r, d),
{
    match d {
        Direction::Right => GridCoordinate { x: c.x + 1, y: c.y },
        Direction::Left => GridCoordinate { x: c.x - 1, y: c.y },
        Direction::Up => GridCoordinate { x: c.x, y: c.y + 1 },
        Direction::Down => GridCoordinate { x: c.x, y: c.y + 1 },
    }
}

} // verus!
