//! Axis-aligned directions and their horizontal remapping.

use vstd::prelude::*;

verus! {

/// One of the six axis-aligned directions.
#[derive(Clone, Copy, PartialEq, Eq, Structural, Debug)]
pub enum Direction {
    /// -Y
    Down,
    /// +Y
    Up,
    /// -Z
    North,
    /// +Z
    South,
    /// -X
    West,
    /// +X
    East,
}

impl Direction {
    /// One counter-clockwise quarter turn about the vertical axis;
    /// vertical directions are unchanged.
    pub open spec fn quarter_turned(self) -> Direction {
        match self {
            Direction::East => Direction::North,
            Direction::North => Direction::West,
            Direction::West => Direction::South,
            Direction::South => Direction::East,
            _ => self,
        }
    }

    /// The direction after `num` quarter turns: applied for one, two or
    /// three turns, and the identity for any other count.
    pub open spec fn spec_rotate(self, num: u8) -> Direction {
        if num == 1 {
            self.quarter_turned()
        } else if num == 2 {
            self.quarter_turned().quarter_turned()
        } else if num == 3 {
            self.quarter_turned().quarter_turned().quarter_turned()
        } else {
            self
        }
    }

    /// Remaps a horizontal direction by the given number of quarter
    /// turns.
    pub fn rotate(self, num: u8) -> (r: Direction)
        ensures
            r == self.spec_rotate(num),
    {
        match num {
            1 => match self {
                Direction::East => Direction::North,
                Direction::North => Direction::West,
                Direction::West => Direction::South,
                Direction::South => Direction::East,
                _ => self,
            },
            2 => match self {
                Direction::East => Direction::West,
                Direction::North => Direction::South,
                Direction::West => Direction::East,
                Direction::South => Direction::North,
                _ => self,
            },
            3 => match self {
                Direction::East => Direction::South,
                Direction::North => Direction::East,
                Direction::West => Direction::North,
                Direction::South => Direction::West,
                _ => self,
            },
            _ => self,
        }
    }
}

} // verus!
