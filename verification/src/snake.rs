//! The body of the snake: an ordered run of cells, head first, that
//! advances one cell at a time and can grow back the cell it last left.

use crate::direction::{step, Direction};
use std::collections::VecDeque;
use vstd::prelude::*;

verus! {

/// A grid cell as a pair of mathematical integers.
pub open spec fn cell_of(c: (i32, i32)) -> (int, int) {
    (c.0 as int, c.1 as int)
}

/// True when both coordinates of `cell` can be held in 32 bits.
pub open spec fn fits_i32(cell: (int, int)) -> bool {
    &&& i32::MIN <= cell.0 <= i32::MAX
    &&& i32::MIN <= cell.1 <= i32::MAX
}

/// The snake as a mathematical value.
pub struct SnakeView {
    /// The cells of the body, head first, tail last.
    pub body: Seq<(int, int)>,
    /// Where the next step goes unless a turn is commanded.
    pub direction: Direction,
    /// The cell that the tail left in the latest move, if there was a move.
    pub dropped: Option<(int, int)>,
}

impl SnakeView {
    /// The snake as it is made at `(x, y)`: three cells in a row, heading right.
    pub open spec fn initial(x: int, y: int) -> SnakeView {
        SnakeView {
            body: seq![(x, y), (x - 1, y), (x - 2, y)],
            direction: Direction::Right,
            dropped: None,
        }
    }

    /// The front cell of the body.
    pub open spec fn head(self) -> (int, int) {
        self.body[0]
    }

    /// The direction of a step for which `dir` is commanded: `dir` itself,
    /// or the current direction when nothing is commanded.
    pub open spec fn heading(self, dir: Option<Direction>) -> Direction {
        match dir {
            Some(d) => d,
            None => self.direction,
        }
    }

    /// The cell that a step commanded by `dir` would put the head on.
    pub open spec fn next_head(self, dir: Option<Direction>) -> (int, int) {
        step(self.head(), self.heading(dir))
    }

    /// The snake after one step: a new head in front, the last cell dropped
    /// and remembered, the direction set to the one travelled.
    pub open spec fn moved(self, dir: Option<Direction>) -> SnakeView {
        SnakeView {
            body: seq![self.next_head(dir)] + self.body.drop_last(),
            direction: self.heading(dir),
            dropped: Some(self.body.last()),
        }
    }

    /// The snake with the remembered cell appended again behind the tail.
    pub open spec fn restored(self) -> SnakeView {
        SnakeView { body: self.body.push(self.dropped.unwrap()), ..self }
    }

    /// True when `cell` is a cell of the body other than the head.
    pub open spec fn overlaps_tail(self, cell: (int, int)) -> bool {
        exists|i: int| 1 <= i < self.body.len() && self.body[i] == cell
    }

    /// True when `cell` is any cell of the body, the head included.
    pub open spec fn occupies(self, cell: (int, int)) -> bool {
        exists|i: int| 0 <= i < self.body.len() && self.body[i] == cell
    }

    /// True when no two segments of the body lie on the same cell.
    pub open spec fn has_distinct_cells(self) -> bool {
        forall|i: int, j: int|
            0 <= i < j < self.body.len() ==> self.body[i] != self.body[j]
    }
}

/// The snake: its cells from head to tail, its direction of travel, and the
/// cell its tail left last.
pub struct Snake {
    direction: Direction,
    body: VecDeque<(i32, i32)>,
    tail: Option<(i32, i32)>,
}

impl View for Snake {
    type V = SnakeView;

    closed spec fn view(&self) -> SnakeView {
        SnakeView {
            body: Seq::new(self.body@.len(), |i: int| cell_of(self.body@[i])),
            direction: self.direction,
            dropped: match self.tail {
                Some(c) => Some(cell_of(c)),
                None => None,
            },
        }
    }
}

impl Snake {
    /// A snake is well formed when its body is not empty. Every snake that
    /// this module hands out is, and every method keeps it so.
    pub open spec fn wf(&self) -> bool {
        self@.body.len() > 0
    }

    /// Makes a snake of three cells with its head on `(x, y)` and the rest
    /// to the left of it, heading right.
    pub fn new(x: i32, y: i32) -> (s: Snake)
        requires
            x - 2 >= i32::MIN,
        ensures
            s.wf(),
            s@ == SnakeView::initial(x as int, y as int),
            s@.body.len() == 3,
            s@.has_distinct_cells(),
    {
        let mut body: VecDeque<(i32, i32)> = VecDeque::new();
        body.push_back((x, y));
        body.push_back((x - 1, y));
        body.push_back((x - 2, y));
        let s = Snake { direction: Direction::Right, body, tail: None };
        assert(s@.body =~= SnakeView::initial(x as int, y as int).body);
        s
    }

    /// The cell of the head.
    pub fn head_position(&self) -> (r: (i32, i32))
        requires
            self.wf(),
        ensures
            cell_of(r) == self@.head(),
    {
        self.body[0]
    }

    /// The current direction of travel.
    pub fn head_direction(&self) -> (r: Direction)
        ensures
            r == self@.direction,
    {
        self.direction
    }

    /// The cell one step from the head in direction `dir`, or in the
    /// current direction when `dir` is `None`. The snake is left as it is.
    pub fn next_head(&self, dir: Option<Direction>) -> (r: (i32, i32))
        requires
            self.wf(),
            fits_i32(self@.next_head(dir)),
        ensures
            cell_of(r) == self@.next_head(dir),
    {
        let (head_x, head_y) = self.head_position();
        let moving_dir = match dir {
            Some(d) => d,
            None => self.direction,
        };
        match moving_dir {
            Direction::Up => (head_x, head_y - 1),
            Direction::Down => (head_x, head_y + 1),
            Direction::Left => (head_x - 1, head_y),
            Direction::Right => (head_x + 1, head_y),
        }
    }

    /// Advances one cell. A commanded direction replaces the current one,
    /// whatever it is; the new head goes in front and the last cell leaves
    /// the body and is remembered.
    pub fn move_forward(&mut self, dir: Option<Direction>)
        requires
            old(self).wf(),
            fits_i32(old(self)@.next_head(dir)),
        ensures
            final(self).wf(),
            final(self)@ == old(self)@.moved(dir),
            final(self)@.body.len() == old(self)@.body.len(),
    {
        let new_block = self.next_head(dir);
        match dir {
            Some(d) => {
                self.direction = d;
            },
            None => {},
        }
        self.body.push_front(new_block);
        let removed_block = self.body.pop_back();
        self.tail = removed_block;
        assert(self@.body =~= old(self)@.moved(dir).body);
    }

    /// Appends again the cell that the latest move dropped, so that the
    /// body is one cell longer than before.
    pub fn restore_tail(&mut self)
        requires
            old(self).wf(),
            old(self)@.dropped is Some,
        ensures
            final(self).wf(),
            final(self)@ == old(self)@.restored(),
            final(self)@.body.len() == old(self)@.body.len() + 1,
            final(self)@.body.last() == old(self)@.dropped.unwrap(),
    {
        match self.tail {
            Some(blk) => {
                self.body.push_back(blk);
            },
            None => {},
        }
        assert(self@.body =~= old(self)@.restored().body);
    }

    /// Whether `(x, y)` is any cell of the body, the head included.
    pub fn occupies(&self, x: i32, y: i32) -> (r: bool)
        requires
            self.wf(),
        ensures
            r == self@.occupies((x as int, y as int)),
    {
        let (head_x, head_y) = self.head_position();
        let on_tail = self.overlap_tail(x, y);
        proof {
            occupied_is_head_or_tail(self@, (x as int, y as int));
        }
        (head_x == x && head_y == y) || on_tail
    }

    /// The cells of the body, head first.
    pub fn cells(&self) -> (r: Vec<(i32, i32)>)
        ensures
            r@.len() == self@.body.len(),
            forall|i: int| 0 <= i < r@.len() ==> cell_of(#[trigger] r@[i]) == self@.body[i],
    {
        let n = self.body.len();
        let mut out: Vec<(i32, i32)> = Vec::new();
        let mut i: usize = 0;
        while i < n
            invariant
                i <= n,
                n == self.body@.len(),
                out@.len() == i,
                forall|k: int| 0 <= k < i ==> cell_of(#[trigger] out@[k]) == self@.body[k],
            decreases n - i,
        {
            out.push(self.body[i]);
            i += 1;
        }
        out
    }

    /// Whether `(x, y)` is a cell of the body behind the head.
    pub fn overlap_tail(&self, x: i32, y: i32) -> (r: bool)
        ensures
            r == self@.overlaps_tail((x as int, y as int)),
    {
        let n = self.body.len();
        let mut i: usize = 1;
        while i < n
            invariant
                1 <= i,
                n == self.body@.len(),
                forall|k: int| 1 <= k < i && k < n ==> self@.body[k] != (x as int, y as int),
            decreases n - i,
        {
            let block = self.body[i];
            if block.0 == x && block.1 == y {
                assert(self@.body[i as int] == (x as int, y as int));
                return true;
            }
            i += 1;
        }
        false
    }
}

/// A cell is on the snake exactly when it is the head or a cell behind it.
pub proof fn occupied_is_head_or_tail(v: SnakeView, cell: (int, int))
    requires
        v.body.len() > 0,
    ensures
        v.occupies(cell) <==> (v.head() == cell || v.overlaps_tail(cell)),
{
    if v.occupies(cell) {
        let i = choose|i: int| 0 <= i < v.body.len() && v.body[i] == cell;
        if i != 0 {
            assert(1 <= i < v.body.len() && v.body[i] == cell);
        }
    }
    if v.head() == cell {
        assert(0 <= 0 < v.body.len() && v.body[0] == cell);
    }
    if v.overlaps_tail(cell) {
        let i = choose|i: int| 1 <= i < v.body.len() && v.body[i] == cell;
        assert(0 <= i < v.body.len() && v.body[i] == cell);
    }
}

/// A move keeps the length of the body. Growing back after it makes the
/// body one cell longer and puts back the very cell the move dropped, so
/// that the whole former body follows the new head.
pub proof fn move_then_restore_grows_by_one(v: SnakeView, dir: Option<Direction>)
    requires
        v.body.len() > 0,
    ensures
        v.moved(dir).body.len() == v.body.len(),
        v.moved(dir).head() == v.next_head(dir),
        v.moved(dir).dropped == Some(v.body.last()),
        v.moved(dir).restored().body.len() == v.body.len() + 1,
        v.moved(dir).restored().body.last() == v.body.last(),
        v.moved(dir).restored().body == seq![v.next_head(dir)] + v.body,
{
    assert(v.moved(dir).restored().body =~= seq![v.next_head(dir)] + v.body);
}

/// After a move onto a cell that was clear of the body behind the head,
/// the head is still clear of the body behind it, whether or not the snake
/// then grows back.
pub proof fn head_clear_of_tail_after_move(v: SnakeView, dir: Option<Direction>)
    requires
        v.body.len() > 0,
        !v.overlaps_tail(v.next_head(dir)),
    ensures
        !v.moved(dir).overlaps_tail(v.moved(dir).head()),
        !v.moved(dir).restored().overlaps_tail(v.moved(dir).restored().head()),
{
    let next = v.next_head(dir);
    let grown = v.moved(dir).restored();
    move_then_restore_grows_by_one(v, dir);
    assert(next != v.body[0]);
    assert forall|i: int| 1 <= i < grown.body.len() implies grown.body[i] != next by {
        assert(grown.body[i] == v.body[i - 1]);
        if i - 1 >= 1 {
            assert(!(1 <= i - 1 < v.body.len() && v.body[i - 1] == next));
        }
    }
    assert forall|i: int| 1 <= i < v.moved(dir).body.len() implies v.moved(dir).body[i]
        != next by {
        assert(v.moved(dir).body[i] == grown.body[i]);
    }
}

/// A snake whose cells are all different stays so through a move onto a
/// cell that was clear of the body behind the head, grown back or not.
pub proof fn move_keeps_cells_distinct(v: SnakeView, dir: Option<Direction>)
    requires
        v.body.len() > 0,
        v.has_distinct_cells(),
        !v.overlaps_tail(v.next_head(dir)),
    ensures
        v.moved(dir).has_distinct_cells(),
        v.moved(dir).restored().has_distinct_cells(),
{
    let next = v.next_head(dir);
    let grown = v.moved(dir).restored();
    move_then_restore_grows_by_one(v, dir);
    head_clear_of_tail_after_move(v, dir);
    assert forall|i: int, j: int| 0 <= i < j < grown.body.len() implies grown.body[i]
        != grown.body[j] by {
        if i == 0 {
            assert(!(1 <= j < grown.body.len() && grown.body[j] == grown.head()));
        } else {
            assert(grown.body[i] == v.body[i - 1]);
            assert(grown.body[j] == v.body[j - 1]);
        }
    }
    assert forall|i: int, j: int| 0 <= i < j < v.moved(dir).body.len() implies v.moved(
        dir,
    ).body[i] != v.moved(dir).body[j] by {
        assert(v.moved(dir).body[i] == grown.body[i]);
        assert(v.moved(dir).body[j] == grown.body[j]);
    }
}

/// A cell that the snake does not lie on, and that its next head is not,
/// is free of the snake after the move as well, grown back or not.
pub proof fn move_keeps_cell_free(v: SnakeView, dir: Option<Direction>, cell: (int, int))
    requires
        v.body.len() > 0,
        !v.occupies(cell),
        cell != v.next_head(dir),
    ensures
        !v.moved(dir).occupies(cell),
        !v.moved(dir).restored().occupies(cell),
{
    let grown = v.moved(dir).restored();
    move_then_restore_grows_by_one(v, dir);
    assert forall|i: int| 0 <= i < grown.body.len() implies grown.body[i] != cell by {
        if i > 0 {
            assert(grown.body[i] == v.body[i - 1]);
            assert(!(0 <= i - 1 < v.body.len() && v.body[i - 1] == cell));
        }
    }
    assert forall|i: int| 0 <= i < v.moved(dir).body.len() implies v.moved(dir).body[i]
        != cell by {
        assert(v.moved(dir).body[i] == grown.body[i]);
    }
}

/// In a snake whose cells are all different the head is not on the body
/// behind it.
pub proof fn distinct_cells_keep_head_clear(v: SnakeView)
    requires
        v.has_distinct_cells(),
    ensures
        !v.overlaps_tail(v.head()),
{
}

} // verus!
