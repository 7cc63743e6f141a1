use vstd::prelude::*;
use crate::clock::{sped_up, GameClock, INITIAL_INTERVAL};
use crate::geometry::{Direction, Position};
use crate::snake::{heading_after, Snake, SnakeView};

verus! {

/// Width of the standard playing field, in cells.
pub const COLS: usize = 15;

/// Height of the standard playing field, in cells.
pub const ROWS: usize = 15;

/// Where food lies at the start of a game on a `cols` x `rows` grid.
pub open spec fn center(cols: usize, rows: usize) -> Position {
    Position { x: (cols / 2) as i64, y: (rows / 2) as i64 }
}

/// One game: the snake, the food, the score, the tick clock and whether the
/// game is over.
pub struct GameSession {
    pub over: bool,
    pub score: u64,
    pub snake: Snake,
    pub food: Position,
    pub clock: GameClock,
    pub cols: usize,
    pub rows: usize,
}

impl GameSession {
    pub open spec fn wf(&self) -> bool {
        &&& 0 < self.cols <= u32::MAX
        &&& 0 < self.rows <= u32::MAX
        &&& self.clock.wf()
        &&& self.score == self.snake.body@.len()
        &&& !self.over ==> self.snake.head.in_grid(self.cols as int, self.rows as int)
    }

    /// `self` is a game at its start on a `cols` x `rows` grid.
    pub open spec fn is_initial(&self, cols: usize, rows: usize) -> bool {
        &&& self.cols == cols
        &&& self.rows == rows
        &&& !self.over
        &&& self.score == 0
        &&& self.snake@.direction == Direction::Right
        &&& self.snake@.head == (Position { x: 0, y: 0 })
        &&& self.snake@.body == Seq::<Position>::empty()
        &&& self.food == center(cols, rows)
        &&& self.clock.elapsed == 0
        &&& self.clock.next_tick == 0
        &&& self.clock.interval == INITIAL_INTERVAL
    }

    /// The snake as it stands when the tick's movement starts: grown by one
    /// segment when its head was on the food.
    pub open spec fn fed(&self) -> SnakeView {
        if self.snake.head == self.food {
            self.snake@.grown()
        } else {
            self.snake@
        }
    }

    /// `next` is what one simulation tick makes of `self`, whatever cell the
    /// food was moved to: food under the head is eaten (one more segment, one
    /// more point, a shorter interval, food moved to a free cell unless the
    /// snake fills the grid), then the snake steps, and the game is over when
    /// the head left the grid or hit the body.
    pub open spec fn ticked(&self, next: GameSession) -> bool {
        let ate = self.snake.head == self.food;
        let fed = self.fed();
        &&& next.cols == self.cols
        &&& next.rows == self.rows
        &&& next.snake@ == fed.stepped()
        &&& next.score == self.score + if ate {
            1int
        } else {
            0int
        }
        &&& next.clock.elapsed == self.clock.elapsed
        &&& next.clock.next_tick == self.clock.next_tick
        &&& next.clock.interval == if ate {
            sped_up(self.clock.interval)
        } else {
            self.clock.interval
        }
        &&& !ate ==> next.food == self.food
        &&& ate && !fed.fills(self.cols as int, self.rows as int) ==> fed.is_free(
            next.food,
            self.cols as int,
            self.rows as int,
        )
        &&& next.over == (next.snake@.off_field(self.cols as int, self.rows as int)
            || next.snake@.collided_itself())
    }
}

impl GameSession {
    /// A game at its start on a `cols` x `rows` grid: the snake at the origin
    /// heading right, food at the center, no score, the clock at zero.
    pub fn new(cols: usize, rows: usize) -> (r: GameSession)
        requires
            0 < cols <= u32::MAX,
            0 < rows <= u32::MAX,
        ensures
            r.wf(),
            r.is_initial(cols, rows),
    {
        GameSession {
            over: false,
            score: 0,
            snake: Snake::new(),
            food: Position { x: (cols / 2) as i64, y: (rows / 2) as i64 },
            clock: GameClock::new(),
            cols,
            rows,
        }
    }

    /// A game on the standard field.
    pub fn standard() -> (r: GameSession)
        ensures
            r.wf(),
            r.is_initial(COLS, ROWS),
    {
        GameSession::new(COLS, ROWS)
    }

    /// A heading request from the player: applied at once while the game is
    /// on (a reversal is ignored), ignored when it is over.
    pub fn handle_input(&mut self, dir: Direction)
        requires
            old(self).wf(),
        ensures
            final(self).wf(),
            final(self).snake@.direction == if old(self).over {
                old(self).snake@.direction
            } else {
                heading_after(old(self).snake@.direction, dir)
            },
            final(self).snake@.head == old(self).snake@.head,
            final(self).snake@.body == old(self).snake@.body,
            final(self).over == old(self).over,
            final(self).score == old(self).score,
            final(self).food == old(self).food,
            final(self).clock == old(self).clock,
            final(self).cols == old(self).cols,
            final(self).rows == old(self).rows,
    {
        if !self.over {
            self.snake.move_(dir);
        }
    }

    /// One simulation tick of a game that is on.
    pub fn tick(&mut self)
        requires
            old(self).wf(),
            !old(self).over,
        ensures
            final(self).wf(),
            old(self).ticked(*final(self)),
    {
        if self.snake.head == self.food {
            self.snake.increase_len();
            self.score = self.snake.body.len() as u64;
            self.clock.speed_up();
            match self.snake.relocate_food(self.food, self.cols, self.rows) {
                Some(p) => {
                    self.food = p;
                },
                None => {},
            }
        }
        self.snake.update();
        if self.snake.off_field(self.cols, self.rows) || self.snake.collided_itself() {
            self.over = true;
        }
    }

    /// Lets `dt` microseconds of real time pass. While the game is on, the
    /// clock advances and, when it fires, one tick runs; returns whether one
    /// did. A game that is over does not change.
    pub fn update(&mut self, dt: u64) -> (ticked: bool)
        requires
            old(self).wf(),
            old(self).clock.elapsed + dt <= u64::MAX - INITIAL_INTERVAL,
        ensures
            final(self).wf(),
            old(self).over ==> !ticked && *final(self) == *old(self),
            !old(self).over ==> ticked == (old(self).clock.elapsed + dt > old(self).clock.next_tick),
            !old(self).over && !ticked ==> {
                &&& final(self).clock.elapsed == old(self).clock.elapsed + dt
                &&& final(self).clock.next_tick == old(self).clock.next_tick
                &&& final(self).clock.interval == old(self).clock.interval
                &&& final(self).snake@ == old(self).snake@
                &&& final(self).over == old(self).over
                &&& final(self).score == old(self).score
                &&& final(self).food == old(self).food
                &&& final(self).cols == old(self).cols
                &&& final(self).rows == old(self).rows
            },
            !old(self).over && ticked ==> (GameSession {
                clock: GameClock {
                    elapsed: (old(self).clock.elapsed + dt) as u64,
                    next_tick: (old(self).clock.next_tick + old(self).clock.interval) as u64,
                    interval: old(self).clock.interval,
                },
                ..*old(self)
            }).ticked(*final(self)),
    {
        if self.over {
            return false;
        }
        if self.clock.advance(dt) {
            self.tick();
            true
        } else {
            false
        }
    }

    /// Starts a new game once the current one is over: score, snake, food and
    /// clock return to their initial state. Ignored while the game is on.
    pub fn restart(&mut self)
        requires
            old(self).wf(),
        ensures
            final(self).wf(),
            old(self).over ==> final(self).is_initial(old(self).cols, old(self).rows),
            !old(self).over ==> *final(self) == *old(self),
    {
        if self.over {
            *self = GameSession::new(self.cols, self.rows);
        }
    }
}

} // verus!
