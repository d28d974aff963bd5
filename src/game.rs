//! The rules of one frame: input, the periodic tick, the collision check
//! and feeding.

use vstd::prelude::*;
use crate::food::Food;
use crate::grid::{in_grid, Cell, Direction};
use crate::snake::{advanced, lengthened, overlaps_itself, steered, Snake};

verus! {

/// The snake ticks on the frames whose counter has none of these bits set.
pub const TICK_MASK: u32 = 5;

/// The snake ticks on frame `n`.
pub open spec fn tick_due(n: u32) -> bool {
    n & TICK_MASK == 0
}

/// The pending request after the frame's key presses, given in the order in
/// which they were read: the last one wins, and none leaves `pending` as it
/// was.
pub open spec fn latest_request(pending: Direction, pressed: Seq<Direction>) -> Direction {
    if pressed.len() == 0 {
        pending
    } else {
        pressed.last()
    }
}

/// What a frame's checks found.
#[derive(Clone, Copy, Debug, PartialEq, Eq, Structural)]
pub enum Outcome {
    /// Nothing happened: the game goes on.
    Running,
    /// The head stands on the food: the food must move and the snake grow.
    Eating,
    /// The snake ran into itself: the game is over.
    Collided,
}

/// The state of a running game.
pub struct Game {
    pub snake: Snake,
    pub food: Food,
    /// Frames played so far, modulo 2^32.
    pub frame_count: u32,
}

impl Game {
    /// Snake and food lie on the board.
    pub open spec fn wf(&self) -> bool {
        self.snake.wf() && self.food.wf()
    }

    /// A new game: the starting snake, food at `food` (drawn at random by the
    /// caller), and no frame played.
    pub fn new(food: Cell) -> (r: Game)
        requires
            in_grid(food),
        ensures
            r.wf(),
            r.snake.body@ == seq![Cell { x: 4, y: 10 }, Cell { x: 3, y: 10 }, Cell { x: 2, y: 10 }],
            r.snake.direction == Direction::Right,
            r.snake.next_direction == Direction::Right,
            r.food.position == food,
            r.frame_count == 0,
    {
        Game { snake: Snake::new(), food: Food::new(food), frame_count: 0 }
    }

    /// Plays the frame's rules up to feeding: records the key presses
    /// `pressed` (in the order read), ticks the snake when the frame is due,
    /// counts the frame, then reports a collision, or else whether the head
    /// is on the food. The food is not touched: on `Eating` the caller draws a
    /// cell and hands it to `feed`.
    pub fn advance(&mut self, pressed: &Vec<Direction>) -> (r: Outcome)
        requires
            old(self).wf(),
        ensures
            final(self).wf(),
            final(self).snake.next_direction == latest_request(
                old(self).snake.next_direction,
                pressed@,
            ),
            tick_due(old(self).frame_count) ==> {
                &&& final(self).snake.direction == steered(
                    old(self).snake.direction,
                    final(self).snake.next_direction,
                )
                &&& final(self).snake.body@ == advanced(
                    old(self).snake.body@,
                    final(self).snake.direction,
                )
            },
            !tick_due(old(self).frame_count) ==> {
                &&& final(self).snake.direction == old(self).snake.direction
                &&& final(self).snake.body@ == old(self).snake.body@
            },
            final(self).snake.body@.len() == old(self).snake.body@.len(),
            final(self).food == old(self).food,
            final(self).frame_count == old(self).frame_count.wrapping_add(1),
            (r == Outcome::Collided) == overlaps_itself(final(self).snake.body@),
            (r == Outcome::Eating) == (!overlaps_itself(final(self).snake.body@)
                && final(self).snake.body@[0] == final(self).food.position),
    {
        let mut i: usize = 0;
        while i < pressed.len()
            invariant
                self.wf(),
                i <= pressed@.len(),
                self.snake.next_direction == latest_request(
                    old(self).snake.next_direction,
                    pressed@.subrange(0, i as int),
                ),
                self.snake.direction == old(self).snake.direction,
                self.snake.body@ == old(self).snake.body@,
                self.food == old(self).food,
                self.frame_count == old(self).frame_count,
            decreases pressed@.len() - i,
        {
            self.snake.set_next_direction(pressed[i]);
            i = i + 1;
        }
        assert(pressed@.subrange(0, pressed@.len() as int) =~= pressed@);
        if self.frame_count & TICK_MASK == 0 {
            self.snake.tick();
        }
        self.frame_count = self.frame_count.wrapping_add(1);
        if self.snake.is_self_colliding() {
            Outcome::Collided
        } else if self.snake.head() == self.food.position {
            Outcome::Eating
        } else {
            Outcome::Running
        }
    }

    /// Feeding: the food moves to `position` (drawn at random by the caller)
    /// and the snake grows by one cell.
    pub fn feed(&mut self, position: Cell)
        requires
            old(self).wf(),
            in_grid(position),
        ensures
            final(self).wf(),
            final(self).food.position == position,
            final(self).snake.body@ == lengthened(old(self).snake.body@),
            final(self).snake.body@.len() == old(self).snake.body@.len() + 1,
            final(self).snake.direction == old(self).snake.direction,
            final(self).snake.next_direction == old(self).snake.next_direction,
            final(self).frame_count == old(self).frame_count,
    {
        self.food.respawn(position);
        self.snake.grow();
    }
}

} // verus!
