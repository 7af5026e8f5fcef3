//! The snake as a mathematical value: a heading, a chain of cells on the
//! unbounded integer grid, and the cell vacated by the last move.
//!
//! Every operation of the executable snake is specified as a function on
//! this value.

use vstd::prelude::*;
use crate::direction::Direction;

verus! {

/// What a snake is at one instant.
pub struct SnakeState {
    /// The heading in which the next move goes unless another is given.
    pub heading: Direction,
    /// The occupied cells as `(x, y)`, head first, tail last.
    pub body: Seq<(int, int)>,
    /// The tail cell that the last move vacated; `None` before the first move.
    pub pending_tail: Option<(int, int)>,
}

impl SnakeState {
    /// A snake always occupies at least one cell.
    pub open spec fn valid(self) -> bool {
        self.body.len() >= 1
    }

    /// The snake at the start of a game: three cells in a row ending at
    /// `(x, y)`, heading right, nothing vacated yet.
    pub open spec fn initial(x: int, y: int) -> SnakeState {
        SnakeState {
            heading: Direction::Right,
            body: seq![(x + 2, y), (x + 1, y), (x, y)],
            pending_tail: None,
        }
    }

    /// The head cell.
    pub open spec fn head(self) -> (int, int)
        recommends
            self.valid(),
    {
        self.body[0]
    }

    /// The tail cell.
    pub open spec fn tail(self) -> (int, int)
        recommends
            self.valid(),
    {
        self.body[self.body.len() - 1]
    }

    /// The heading of a move made with `candidate`: the candidate if there
    /// is one, else the current heading.
    pub open spec fn heading_after(self, candidate: Option<Direction>) -> Direction {
        match candidate {
            Some(d) => d,
            None => self.heading,
        }
    }

    /// The cell that the head would enter on a move made with `candidate`.
    pub open spec fn next_head(self, candidate: Option<Direction>) -> (int, int)
        recommends
            self.valid(),
    {
        self.heading_after(candidate).step(self.head())
    }

    /// The snake after one move made with `candidate`: the heading is
    /// updated, the new head cell is put in front, and the tail cell leaves
    /// the body and is kept as the pending tail.
    pub open spec fn advance(self, candidate: Option<Direction>) -> SnakeState
        recommends
            self.valid(),
    {
        SnakeState {
            heading: self.heading_after(candidate),
            body: seq![self.next_head(candidate)] + self.body.drop_last(),
            pending_tail: Some(self.tail()),
        }
    }

    /// The snake after the pending tail has been put back at its end.
    pub open spec fn grow(self) -> SnakeState
        recommends
            self.pending_tail is Some,
    {
        SnakeState {
            heading: self.heading,
            body: self.body.push(self.pending_tail->0),
            pending_tail: self.pending_tail,
        }
    }

    /// Whether `cell` is one of the body cells other than the tail.
    pub open spec fn overlaps(self, cell: (int, int)) -> bool
        recommends
            self.valid(),
    {
        self.body.drop_last().contains(cell)
    }
}

/// The cells of `cells` as points of the unbounded grid, in the same order.
pub open spec fn grid_cells(cells: Seq<(i32, i32)>) -> Seq<(int, int)> {
    cells.map_values(|c: (i32, i32)| (c.0 as int, c.1 as int))
}

/// Whether both coordinates of `cell` can be held in an `i32`.
pub open spec fn fits_i32(cell: (int, int)) -> bool {
    &&& i32::MIN <= cell.0 <= i32::MAX
    &&& i32::MIN <= cell.1 <= i32::MAX
}

} // verus!
