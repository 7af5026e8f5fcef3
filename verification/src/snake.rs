//! The executable snake.

use vstd::prelude::*;
use std::collections::VecDeque;
use crate::direction::Direction;
use crate::state::{fits_i32, grid_cells, SnakeState};

verus! {

/// One occupied grid cell.
#[derive(Clone, Copy, Debug)]
struct Block {
    x: i32,
    y: i32,
}

impl Block {
    spec fn cell(self) -> (int, int) {
        (self.x as int, self.y as int)
    }
}

/// A snake on the grid: its heading, its body cells from head to tail, and
/// the tail cell vacated by its last move.
///
/// The head is held apart from the cells behind it, so a snake without a
/// cell cannot be written down.
pub struct Snake {
    direction: Direction,
    head: Block,
    rest: VecDeque<Block>,
    tail: Option<Block>,
}

impl View for Snake {
    type V = SnakeState;

    closed spec fn view(&self) -> SnakeState {
        SnakeState {
            heading: self.direction,
            body: seq![self.head.cell()] + self.rest@.map_values(|b: Block| b.cell()),
            pending_tail: match self.tail {
                Some(b) => Some(b.cell()),
                None => None,
            },
        }
    }
}

impl Snake {
    /// Creates the snake of a new game: three cells in a row with the tail
    /// at `(x, y)` and the head at `(x + 2, y)`, heading right.
    pub fn new(x: i32, y: i32) -> (s: Snake)
        requires
            x + 2 <= i32::MAX,
        ensures
            s@ == SnakeState::initial(x as int, y as int),
    {
        let mut rest: VecDeque<Block> = VecDeque::new();
        rest.push_back(Block { x: x + 1, y });
        rest.push_back(Block { x, y });
        let s = Snake { direction: Direction::Right, head: Block { x: x + 2, y }, rest, tail: None };
        assert(s@.body =~= SnakeState::initial(x as int, y as int).body);
        s
    }

    /// Returns the coordinates of the head cell.
    pub fn head_position(&self) -> (r: (i32, i32))
        ensures
            self@.valid(),
            (r.0 as int, r.1 as int) == self@.head(),
    {
        (self.head.x, self.head.y)
    }

    /// Moves one cell forward, in heading `dir` if one is given and in the
    /// current heading otherwise. The tail cell leaves the body and is kept
    /// as the pending tail, so the length stays the same.
    ///
    /// A given heading is taken as it is, also where it reverses the
    /// current one: the caller decides whether a reversal is allowed.
    pub fn move_forward(&mut self, dir: Option<Direction>)
        requires
            fits_i32(old(self)@.next_head(dir)),
        ensures
            final(self)@ == old(self)@.advance(dir),
            final(self)@.head() == old(self)@.next_head(dir),
            final(self)@.body.len() == old(self)@.body.len(),
            final(self)@.pending_tail == Some(old(self)@.tail()),
            dir is None ==> final(self)@.heading == old(self)@.heading,
    {
        match dir {
            Some(d) => self.direction = d,
            None => (),
        }
        let (last_x, last_y): (i32, i32) = self.head_position();
        let new_block = match self.direction {
            Direction::Up => Block { x: last_x, y: last_y - 1 },
            Direction::Down => Block { x: last_x, y: last_y + 1 },
            Direction::Left => Block { x: last_x - 1, y: last_y },
            Direction::Right => Block { x: last_x + 1, y: last_y },
        };
        self.rest.push_front(self.head);
        self.head = new_block;
        let removed_block = self.rest.pop_back().unwrap();
        self.tail = Some(removed_block);
        assert(final(self)@.body =~= old(self)@.advance(dir).body);
    }

    /// Returns the current heading.
    pub fn head_direction(&self) -> (r: Direction)
        ensures
            r == self@.heading,
    {
        self.direction
    }

    /// Returns the cell that the head would enter on a move made with `dir`,
    /// without moving.
    pub fn next_head(&self, dir: Option<Direction>) -> (r: (i32, i32))
        requires
            fits_i32(self@.next_head(dir)),
        ensures
            (r.0 as int, r.1 as int) == self@.next_head(dir),
    {
        let (head_x, head_y): (i32, i32) = self.head_position();
        let mut moving_dir = self.direction;
        match dir {
            Some(d) => moving_dir = d,
            None => {},
        }
        match moving_dir {
            Direction::Up => (head_x, head_y - 1),
            Direction::Down => (head_x, head_y + 1),
            Direction::Left => (head_x - 1, head_y),
            Direction::Right => (head_x + 1, head_y),
        }
    }

    /// Puts the pending tail back at the end of the body, which grows by
    /// one cell. The pending tail stays in place.
    pub fn restore_tail(&mut self)
        requires
            old(self)@.pending_tail is Some,
        ensures
            final(self)@ == old(self)@.grow(),
            final(self)@.body.len() == old(self)@.body.len() + 1,
    {
        let blk = self.tail.unwrap();
        self.rest.push_back(blk);
        assert(final(self)@.body =~= old(self)@.grow().body);
    }

    /// Tells whether `(x, y)` is a body cell other than the tail.
    pub fn overlap_tail(&self, x: i32, y: i32) -> (r: bool)
        ensures
            r == self@.overlaps((x as int, y as int)),
    {
        let ghost cell = (x as int, y as int);
        let ghost front = self@.body.drop_last();
        let n = self.rest.len();
        if n == 0 {
            return false;
        }
        if x == self.head.x && y == self.head.y {
            assert(front[0] == cell);
            return true;
        }
        let mut i: usize = 0;
        while i < n - 1
            invariant
                n == self.rest@.len(),
                n >= 1,
                i <= n - 1,
                cell == (x as int, y as int),
                front == self@.body.drop_last(),
                self.head.cell() != cell,
                forall|j: int| 0 <= j < i ==> self.rest@[j].cell() != cell,
            decreases n - i,
        {
            let block = &self.rest[i];
            if x == block.x && y == block.y {
                assert(front[i + 1] == cell);
                return true;
            }
            i += 1;
        }
        assert forall|k: int| 0 <= k < front.len() implies front[k] != cell by {
            if k >= 1 {
                assert(front[k] == self.rest@[k - 1].cell());
            }
        }
        false
    }

    /// Returns the body cells from head to tail.
    pub fn body(&self) -> (cells: Vec<(i32, i32)>)
        ensures
            grid_cells(cells@) == self@.body,
    {
        let mut cells: Vec<(i32, i32)> = Vec::new();
        cells.push((self.head.x, self.head.y));
        let n = self.rest.len();
        let mut i: usize = 0;
        while i < n
            invariant
                n == self.rest@.len(),
                i <= n,
                cells@.len() == i + 1,
                forall|j: int| 0 <= j <= i ==> grid_cells(cells@)[j] == self@.body[j],
            decreases n - i,
        {
            let block = &self.rest[i];
            cells.push((block.x, block.y));
            i += 1;
        }
        assert(grid_cells(cells@) =~= self@.body);
        cells
    }

    /// Returns the tail cell that the last move vacated, if there was a move.
    pub fn pending_tail(&self) -> (r: Option<(i32, i32)>)
        ensures
            match r {
                Some(c) => self@.pending_tail == Some((c.0 as int, c.1 as int)),
                None => self@.pending_tail is None,
            },
    {
        match self.tail {
            Some(block) => Some((block.x, block.y)),
            None => None,
        }
    }

    /// A snake is never without a cell.
    pub proof fn lemma_never_empty(&self)
        ensures
            self@.valid(),
    {
    }

    /// Every cell of a snake, the pending tail too, has coordinates that an
    /// `i32` can hold.
    pub proof fn lemma_cells_fit(&self)
        ensures
            forall|i: int| 0 <= i < self@.body.len() ==> fits_i32(#[trigger] self@.body[i]),
            self@.pending_tail is Some ==> fits_i32(self@.pending_tail->0),
    {
    }
}

} // verus!
