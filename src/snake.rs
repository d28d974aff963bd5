//! The snake: a head-first sequence of cells, a current direction and a
//! pending direction request.

use std::collections::VecDeque;
use vstd::prelude::*;
use crate::grid::{in_grid, moved, opposite_of, Cell, Direction};

verus! {

/// Every cell of the sequence lies on the board.
pub open spec fn all_in_grid(cells: Seq<Cell>) -> bool {
    forall|i: int| 0 <= i < cells.len() ==> in_grid(#[trigger] cells[i])
}

/// The direction in force after a tick: the request, unless it would turn the
/// snake straight back onto itself.
pub open spec fn steered(current: Direction, requested: Direction) -> Direction {
    if requested == opposite_of(current) {
        current
    } else {
        requested
    }
}

/// The body after one tick in direction `d`: the tail cell is gone and a new
/// head stands one cell from the old head.
pub open spec fn advanced(body: Seq<Cell>, d: Direction) -> Seq<Cell> {
    seq![moved(body[0], d)] + body.drop_last()
}

/// The body with its tail cell doubled.
pub open spec fn lengthened(body: Seq<Cell>) -> Seq<Cell> {
    body.push(body.last())
}

/// Some cell other than the head stands on the head's cell.
pub open spec fn overlaps_itself(body: Seq<Cell>) -> bool {
    exists|i: int| 1 <= i < body.len() && #[trigger] body[i] == body[0]
}

/// The snake. `body` holds its cells, head first.
pub struct Snake {
    pub body: VecDeque<Cell>,
    pub direction: Direction,
    pub next_direction: Direction,
}

impl Snake {
    /// The snake has a head and lies on the board.
    pub open spec fn wf(&self) -> bool {
        &&& self.body@.len() >= 1
        &&& all_in_grid(self.body@)
    }

    /// The snake at the start of a game: three cells on the middle row,
    /// head at column 4, heading right.
    pub fn new() -> (r: Snake)
        ensures
            r.wf(),
            r.body@ == seq![Cell { x: 4, y: 10 }, Cell { x: 3, y: 10 }, Cell { x: 2, y: 10 }],
            r.direction == Direction::Right,
            r.next_direction == Direction::Right,
    {
        let mut body: VecDeque<Cell> = VecDeque::new();
        body.push_back(Cell::new(4, 10));
        body.push_back(Cell::new(3, 10));
        body.push_back(Cell::new(2, 10));
        let r = Snake { body, direction: Direction::Right, next_direction: Direction::Right };
        assert(r.body@ =~= seq![Cell { x: 4, y: 10 }, Cell { x: 3, y: 10 }, Cell { x: 2, y: 10 }]);
        r
    }

    /// A snake on the given cells, head first, heading in `direction` with
    /// no other request pending; `None` when `cells` is empty or leaves the
    /// board.
    pub fn from_cells(cells: &Vec<Cell>, direction: Direction) -> (r: Option<Snake>)
        ensures
            r is Some <==> cells@.len() >= 1 && all_in_grid(cells@),
            r matches Some(s) ==> {
                &&& s.wf()
                &&& s.body@ == cells@
                &&& s.direction == direction
                &&& s.next_direction == direction
            },
    {
        if cells.len() == 0 {
            return None;
        }
        let mut body: VecDeque<Cell> = VecDeque::new();
        let mut i: usize = 0;
        while i < cells.len()
            invariant
                i <= cells@.len(),
                body@ == cells@.subrange(0, i as int),
                all_in_grid(body@),
            decreases cells@.len() - i,
        {
            let c = cells[i];
            if c.x >= crate::grid::GRID_SIZE || c.y >= crate::grid::GRID_SIZE {
                assert(!in_grid(cells@[i as int]));
                return None;
            }
            body.push_back(c);
            i = i + 1;
            assert(body@ =~= cells@.subrange(0, i as int));
        }
        assert(body@ =~= cells@);
        Some(Snake { body, direction, next_direction: direction })
    }

    /// The head cell.
    pub fn head(&self) -> (r: Cell)
        requires
            self.wf(),
        ensures
            r == self.body@[0],
    {
        self.body[0]
    }

    /// The number of cells.
    pub fn len(&self) -> (r: usize)
        ensures
            r == self.body@.len(),
    {
        self.body.len()
    }

    /// The cells, head first.
    pub fn cells(&self) -> (r: Vec<Cell>)
        ensures
            r@ == self.body@,
    {
        let mut r: Vec<Cell> = Vec::new();
        let mut i: usize = 0;
        while i < self.body.len()
            invariant
                i <= self.body@.len(),
                r@ == self.body@.subrange(0, i as int),
            decreases self.body@.len() - i,
        {
            r.push(self.body[i]);
            i = i + 1;
            assert(r@ =~= self.body@.subrange(0, i as int));
        }
        assert(r@ =~= self.body@);
        r
    }

    /// Records a direction request for the next tick, replacing any earlier
    /// one.
    pub fn set_next_direction(&mut self, d: Direction)
        ensures
            final(self).body@ == old(self).body@,
            final(self).direction == old(self).direction,
            final(self).next_direction == d,
    {
        self.next_direction = d;
    }

    /// Moves the snake one cell: the tail cell goes, the pending request is
    /// adopted unless it is the reverse of the current direction, and a new
    /// head is put one cell from the old head in that direction, wrapping at
    /// the board's edges.
    pub fn tick(&mut self)
        requires
            old(self).wf(),
        ensures
            final(self).wf(),
            final(self).direction == steered(old(self).direction, old(self).next_direction),
            final(self).next_direction == old(self).next_direction,
            final(self).body@ == advanced(old(self).body@, final(self).direction),
            final(self).body@.len() == old(self).body@.len(),
    {
        let head = self.body[0];
        let _ = self.body.pop_back();
        if self.next_direction != self.direction.opposite() {
            self.direction = self.next_direction;
        }
        let new_head = head.step(self.direction);
        self.body.push_front(new_head);
        assert(self.body@ =~= advanced(old(self).body@, self.direction));
        assert(all_in_grid(self.body@)) by {
            assert forall|i: int| 0 <= i < self.body@.len() implies in_grid(#[trigger] self.body@[i]) by {
                if i > 0 {
                    assert(self.body@[i] == old(self).body@[i - 1]);
                }
            }
        }
    }

    /// Appends a copy of the tail cell, so that the next tick's removal of the
    /// tail leaves the snake one cell longer.
    pub fn grow(&mut self)
        requires
            old(self).wf(),
        ensures
            final(self).wf(),
            final(self).body@ == lengthened(old(self).body@),
            final(self).body@.len() == old(self).body@.len() + 1,
            final(self).direction == old(self).direction,
            final(self).next_direction == old(self).next_direction,
    {
        let last = self.body.len() - 1;
        let tail = self.body[last];
        self.body.push_back(tail);
        assert(all_in_grid(self.body@)) by {
            assert forall|i: int| 0 <= i < self.body@.len() implies in_grid(#[trigger] self.body@[i]) by {
                if i == old(self).body@.len() {
                    assert(self.body@[i] == old(self).body@[last as int]);
                }
            }
        }
    }

    /// Whether a cell other than the head stands on the head's cell.
    pub fn is_self_colliding(&self) -> (r: bool)
        requires
            self.wf(),
        ensures
            r == overlaps_itself(self.body@),
    {
        let head = self.body[0];
        let mut i: usize = 1;
        while i < self.body.len()
            invariant
                1 <= i <= self.body@.len(),
                head == self.body@[0],
                forall|j: int| 1 <= j < i ==> #[trigger] self.body@[j] != self.body@[0],
            decreases self.body@.len() - i,
        {
            if self.body[i] == head {
                return true;
            }
            i = i + 1;
        }
        false
    }
}

} // verus!
