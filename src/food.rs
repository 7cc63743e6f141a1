use vstd::prelude::*;
use crate::geometry::Position;
use crate::snake::{Snake, SnakeView};

verus! {

/// How many random cells are drawn before the free cells are searched in order.
pub const FOOD_ATTEMPTS: u32 = 64;

impl SnakeView {
    /// `p` is a cell of the grid that the snake does not cover.
    pub open spec fn is_free(self, p: Position, cols: int, rows: int) -> bool {
        p.in_grid(cols, rows) && !self.occupies(p)
    }

    /// The snake covers every cell of the grid.
    pub open spec fn fills(self, cols: int, rows: int) -> bool {
        forall|q: Position| q.in_grid(cols, rows) ==> #[trigger] self.occupies(q)
    }
}

/// `q` comes before `p` when the grid is read row by row.
pub open spec fn comes_before(q: Position, p: Position) -> bool {
    q.y < p.y || (q.y == p.y && q.x < p.x)
}

/// Relies on macroquad::rand::gen_range (quad_rand) on `usize`: with a low
/// bound of zero it returns `(n as f64 * u) as usize` for some `u` in `[0, 1)`,
/// which is below `n` for any `n` of at most 32 bits.
#[verifier::external_body]
fn random_below(n: usize) -> (r: usize)
    requires
        0 < n <= u32::MAX,
    ensures
        r < n,
{
    macroquad::rand::gen_range(0usize, n)
}

/// A cell of the grid drawn at random.
pub fn random_cell(cols: usize, rows: usize) -> (r: Position)
    requires
        0 < cols <= u32::MAX,
        0 < rows <= u32::MAX,
    ensures
        r.in_grid(cols as int, rows as int),
{
    let x = random_below(cols);
    let y = random_below(rows);
    Position { x: x as i64, y: y as i64 }
}

impl Snake {
    /// The first cell, reading the grid row by row, that the snake does not
    /// cover; `None` when it covers them all.
    pub fn first_free_cell(&self, cols: usize, rows: usize) -> (r: Option<Position>)
        requires
            cols <= u32::MAX,
            rows <= u32::MAX,
        ensures
            r.is_none() <==> self@.fills(cols as int, rows as int),
            r matches Some(p) ==> self@.is_free(p, cols as int, rows as int) && forall|q: Position|
                q.in_grid(cols as int, rows as int) && comes_before(q, p)
                    ==> #[trigger] self@.occupies(q),
    {
        let mut y: usize = 0;
        while y < rows
            invariant
                y <= rows <= u32::MAX,
                cols <= u32::MAX,
                forall|q: Position|
                    q.in_grid(cols as int, rows as int) && q.y < y ==> #[trigger] self@.occupies(q),
            decreases rows - y,
        {
            let mut x: usize = 0;
            while x < cols
                invariant
                    y < rows <= u32::MAX,
                    x <= cols <= u32::MAX,
                    forall|q: Position|
                        q.in_grid(cols as int, rows as int) && (q.y < y || (q.y == y && q.x < x))
                            ==> #[trigger] self@.occupies(q),
                decreases cols - x,
            {
                let p = Position { x: x as i64, y: y as i64 };
                if !self.contains_position(p) {
                    return Some(p);
                }
                x = x + 1;
            }
            y = y + 1;
        }
        None
    }

    /// Where food goes given a candidate cell: the candidate itself when it is
    /// a free cell of the grid, else the first free cell read row by row, and
    /// `None` when the snake fills the grid.
    pub fn settle_food(&self, candidate: Position, cols: usize, rows: usize) -> (r: Option<
        Position,
    >)
        requires
            cols <= u32::MAX,
            rows <= u32::MAX,
        ensures
            self@.is_free(candidate, cols as int, rows as int) ==> r == Some(candidate),
            !self@.is_free(candidate, cols as int, rows as int) ==> {
                &&& r.is_none() <==> self@.fills(cols as int, rows as int)
                &&& r matches Some(p) ==> self@.is_free(p, cols as int, rows as int) && forall|
                    q: Position,
                | q.in_grid(cols as int, rows as int) && comes_before(q, p)
                    ==> #[trigger] self@.occupies(q)
            },
    {
        if in_grid(candidate, cols, rows) && !self.contains_position(candidate) {
            Some(candidate)
        } else {
            self.first_free_cell(cols, rows)
        }
    }

    /// Moves food off the snake: `food` stays where it is when it lies on a
    /// free cell; otherwise random cells are drawn until one is free, and when
    /// a bounded number of draws found none, the free cells are searched in
    /// order. `None` only when the snake fills the grid.
    pub fn relocate_food(&self, food: Position, cols: usize, rows: usize) -> (r: Option<Position>)
        requires
            0 < cols <= u32::MAX,
            0 < rows <= u32::MAX,
        ensures
            self@.is_free(food, cols as int, rows as int) ==> r == Some(food),
            r.is_none() <==> self@.fills(cols as int, rows as int),
            r matches Some(p) ==> self@.is_free(p, cols as int, rows as int),
    {
        let mut candidate = food;
        let mut attempts: u32 = 0;
        while attempts < FOOD_ATTEMPTS && !(in_grid(candidate, cols, rows)
            && !self.contains_position(candidate))
            invariant
                0 < cols <= u32::MAX,
                0 < rows <= u32::MAX,
                self@.is_free(food, cols as int, rows as int) ==> candidate == food,
            decreases FOOD_ATTEMPTS - attempts,
        {
            candidate = random_cell(cols, rows);
            attempts = attempts + 1;
        }
        self.settle_food(candidate, cols, rows)
    }
}

/// Whether `p` lies inside `[0, cols) x [0, rows)`.
pub fn in_grid(p: Position, cols: usize, rows: usize) -> (r: bool)
    ensures
        r == p.in_grid(cols as int, rows as int),
{
    0 <= p.x && (p.x as u64) < cols as u64 && 0 <= p.y && (p.y as u64) < rows as u64
}

} // verus!
