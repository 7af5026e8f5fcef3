//! The four headings and the unit step that each one stands for.

use vstd::prelude::*;

verus! {

/// A heading on the grid. The y axis grows downward, so `Up` decreases y.
#[derive(Clone, Copy, Debug, PartialEq, Eq, Structural)]
pub enum Direction {
    Up,
    Down,
    Left,
    Right,
}

impl Direction {
    /// The heading that points the other way.
    pub open spec fn spec_opposite(&self) -> Direction {
        match self {
            Direction::Up => Direction::Down,
            Direction::Down => Direction::Up,
            Direction::Left => Direction::Right,
            Direction::Right => Direction::Left,
        }
    }

    /// The cell reached from `cell` by one step in this heading. The y axis
    /// grows downward.
    pub open spec fn step(self, cell: (int, int)) -> (int, int) {
        match self {
            Direction::Up => (cell.0, cell.1 - 1),
            Direction::Down => (cell.0, cell.1 + 1),
            Direction::Left => (cell.0 - 1, cell.1),
            Direction::Right => (cell.0 + 1, cell.1),
        }
    }

    /// Returns the heading that points the other way.
    #[verifier::when_used_as_spec(spec_opposite)]
    pub fn opposite(&self) -> (r: Direction)
        ensures
            r == self.spec_opposite(),
    {
        match *self {
            Direction::Up => Direction::Down,
            Direction::Down => Direction::Up,
            Direction::Left => Direction::Right,
            Direction::Right => Direction::Left,
        }
    }
}

} // verus!
