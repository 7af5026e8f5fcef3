//! What holds of the headings and of every snake, whatever its history.

use vstd::prelude::*;
use crate::direction::Direction;
use crate::state::SnakeState;

verus! {

/// Taking the opposite twice gives the heading back, and no heading is its
/// own opposite.
pub proof fn lemma_opposite_involution(h: Direction)
    ensures
        h.opposite().opposite() == h,
        h.opposite() != h,
{
}

/// Up and down are opposite to each other, and so are left and right.
pub proof fn lemma_opposite_pairs()
    ensures
        Direction::Up.opposite() == Direction::Down,
        Direction::Down.opposite() == Direction::Up,
        Direction::Left.opposite() == Direction::Right,
        Direction::Right.opposite() == Direction::Left,
{
}

/// A step in a heading followed by a step in the opposite heading ends on
/// the cell it began on.
pub proof fn lemma_opposite_step_returns(h: Direction, cell: (int, int))
    ensures
        h.opposite().step(h.step(cell)) == cell,
{
}

/// From a head at `(x, y)` the next head is `(x, y - 1)` going up,
/// `(x, y + 1)` going down, `(x - 1, y)` going left and `(x + 1, y)` going
/// right; without a candidate heading it is the one of the current heading.
pub proof fn lemma_next_head_offsets(s: SnakeState)
    requires
        s.valid(),
    ensures
        s.next_head(Some(Direction::Up)) == (s.head().0, s.head().1 - 1),
        s.next_head(Some(Direction::Down)) == (s.head().0, s.head().1 + 1),
        s.next_head(Some(Direction::Left)) == (s.head().0 - 1, s.head().1),
        s.next_head(Some(Direction::Right)) == (s.head().0 + 1, s.head().1),
        s.next_head(None) == s.next_head(Some(s.heading)),
{
}

/// The head after a move is the cell that `next_head` gave for the same
/// candidate heading before the move.
pub proof fn lemma_move_reaches_next_head(s: SnakeState, candidate: Option<Direction>)
    requires
        s.valid(),
    ensures
        s.advance(candidate).head() == s.next_head(candidate),
{
}

/// A move keeps the length of the body: every cell but the old tail is
/// still there, one place further back, and the old tail is the pending
/// tail.
pub proof fn lemma_move_shifts_body(s: SnakeState, candidate: Option<Direction>)
    requires
        s.valid(),
    ensures
        s.advance(candidate).valid(),
        s.advance(candidate).body.len() == s.body.len(),
        forall|i: int| 1 <= i < s.body.len() ==> s.advance(candidate).body[i] == s.body[i - 1],
        s.advance(candidate).pending_tail == Some(s.tail()),
{
}

/// A move without a candidate heading keeps the heading, and a move with
/// one takes it.
pub proof fn lemma_move_heading(s: SnakeState, d: Direction)
    ensures
        s.advance(None).heading == s.heading,
        s.advance(Some(d)).heading == d,
{
}

/// Growing appends the pending tail and nothing else: the body is one cell
/// longer, its old cells keep their places, and heading and pending tail
/// stay as they were.
pub proof fn lemma_grow_appends_pending_tail(s: SnakeState)
    requires
        s.valid(),
        s.pending_tail is Some,
    ensures
        s.grow().valid(),
        s.grow().body.len() == s.body.len() + 1,
        s.grow().body.drop_last() == s.body,
        Some(s.grow().tail()) == s.pending_tail,
        s.grow().head() == s.head(),
        s.grow().heading == s.heading,
        s.grow().pending_tail == s.pending_tail,
{
    assert(s.grow().body.drop_last() =~= s.body);
}

/// Growing right after a move gives the body from before the move with the
/// new head in front.
pub proof fn lemma_move_then_grow(s: SnakeState, candidate: Option<Direction>)
    requires
        s.valid(),
    ensures
        s.advance(candidate).grow().body == seq![s.next_head(candidate)] + s.body,
{
    assert(s.advance(candidate).grow().body =~= seq![s.next_head(candidate)] + s.body);
}

/// The tail cell does not count as overlapped unless the body holds it a
/// second time.
pub proof fn lemma_overlaps_leaves_out_tail(s: SnakeState)
    requires
        s.valid(),
        forall|i: int| 0 <= i < s.body.len() - 1 ==> s.body[i] != s.tail(),
    ensures
        !s.overlaps(s.tail()),
{
}

/// A cell is overlapped exactly if it stands in the body before the last
/// place.
pub proof fn lemma_overlaps_by_index(s: SnakeState, cell: (int, int))
    requires
        s.valid(),
    ensures
        s.overlaps(cell) <==> exists|i: int| 0 <= i < s.body.len() - 1 && s.body[i] == cell,
{
    let front = s.body.drop_last();
    if s.overlaps(cell) {
        let i = choose|i: int| 0 <= i < front.len() && front[i] == cell;
        assert(s.body[i] == cell);
    }
    if exists|i: int| 0 <= i < s.body.len() - 1 && s.body[i] == cell {
        let i = choose|i: int| 0 <= i < s.body.len() - 1 && s.body[i] == cell;
        assert(front[i] == cell);
    }
}

} // verus!
