//! The closed set of facing directions and its two lookup tables: the unit
//! displacement axis of each direction and the sprite-sheet row it animates
//! from.

use vstd::prelude::*;

verus! {

/// A cardinal facing direction.  The character always faces one of these;
/// "no direction" is represented as `Option::<Direction>::None` where it can
/// occur (sampled input), never inside the character itself.
#[derive(Clone, Copy, Debug, PartialEq, Eq, Structural)]
pub enum Direction {
    Up,
    Down,
    Left,
    Right,
}

impl Direction {
    /// Row base: the starting sprite-sheet index of this direction's
    /// four-frame animation row (Down=0, Left=4, Right=8, Up=12).
    pub open spec fn spec_row_base(self) -> u32 {
        match self {
            Direction::Down => 0,
            Direction::Left => 4,
            Direction::Right => 8,
            Direction::Up => 12,
        }
    }

    /// Executable lookup of the sprite-sheet row base.
    pub fn row_base(self) -> (r: u32)
        ensures
            r == self.spec_row_base(),
    {
        match self {
            Direction::Down => 0,
            Direction::Left => 4,
            Direction::Right => 8,
            Direction::Up => 12,
        }
    }

    /// Horizontal component of this direction's unit displacement vector.
    pub open spec fn spec_dx(self) -> int {
        match self {
            Direction::Left => -1,
            Direction::Right => 1,
            Direction::Up => 0,
            Direction::Down => 0,
        }
    }

    /// Vertical component of this direction's unit displacement vector.
    pub open spec fn spec_dy(self) -> int {
        match self {
            Direction::Up => 1,
            Direction::Down => -1,
            Direction::Left => 0,
            Direction::Right => 0,
        }
    }

    /// Executable lookup of the unit displacement vector (x, y).
    pub fn unit_vector(self) -> (v: (i64, i64))
        ensures
            v.0 == self.spec_dx(),
            v.1 == self.spec_dy(),
    {
        match self {
            Direction::Up => (0, 1),
            Direction::Down => (0, -1),
            Direction::Left => (-1, 0),
            Direction::Right => (1, 0),
        }
    }
}

} // verus!
