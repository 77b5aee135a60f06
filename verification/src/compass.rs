//! The compass needle: the quadrant of the magnetic field's horizontal part.
use vstd::prelude::*;

verus! {

/// A direction shown on the LED matrix.
#[derive(Clone, Copy, Debug, PartialEq, Eq)]
pub enum Direction {
    North,
    East,
    South,
    West,
}

/// The direction shown for a field with components `x` and `y`.
pub open spec fn direction_value(x: i32, y: i32) -> Direction {
    if x > 0 {
        if y > 0 { Direction::East } else { Direction::South }
    } else {
        if y > 0 { Direction::North } else { Direction::West }
    }
}

/// The direction for a calibrated field reading (`x`, `y`).
pub fn direction_of(x: i32, y: i32) -> (d: Direction)
    ensures
        d == direction_value(x, y),
{
    match (x > 0, y > 0) {
        (true, true) => Direction::East,
        (false, true) => Direction::North,
        (false, false) => Direction::West,
        (true, false) => Direction::South,
    }
}

} // verus!
