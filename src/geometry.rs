use vstd::prelude::*;

verus! {

/// A cell of the playing field, or an offset between two cells.
#[derive(Clone, Copy, Debug, PartialEq, Eq, Structural)]
pub struct Position {
    pub x: i64,
    pub y: i64,
}

impl Position {
    pub fn new(x: i64, y: i64) -> (r: Position)
        ensures
            r.x == x,
            r.y == y,
    {
        Position { x, y }
    }

    /// Whether the cell lies inside `[0, cols) x [0, rows)`.
    pub open spec fn in_grid(self, cols: int, rows: int) -> bool {
        0 <= self.x < cols && 0 <= self.y < rows
    }
}

/// A heading of the snake.
#[derive(Clone, Copy, Debug, PartialEq, Eq, Structural)]
pub enum Direction {
    Up,
    Down,
    Left,
    Right,
}

impl Direction {
    /// The heading that points the other way.
    pub open spec fn opposite(self) -> Direction {
        match self {
            Direction::Up => Direction::Down,
            Direction::Down => Direction::Up,
            Direction::Left => Direction::Right,
            Direction::Right => Direction::Left,
        }
    }

    /// Horizontal component of the unit step (x grows to the right).
    pub open spec fn dx(self) -> int {
        match self {
            Direction::Left => -1,
            Direction::Right => 1,
            _ => 0,
        }
    }

    /// Vertical component of the unit step (y grows downwards).
    pub open spec fn dy(self) -> int {
        match self {
            Direction::Up => -1,
            Direction::Down => 1,
            _ => 0,
        }
    }

    /// The unit step of this heading, as an offset.
    pub fn get_vec(&self) -> (r: Position)
        ensures
            r.x == self.dx(),
            r.y == self.dy(),
    {
        match self {
            Direction::Up => Position { x: 0, y: -1 },
            Direction::Down => Position { x: 0, y: 1 },
            Direction::Left => Position { x: -1, y: 0 },
            Direction::Right => Position { x: 1, y: 0 },
        }
    }

    pub fn is_opposite(&self, other: Direction) -> (r: bool)
        ensures
            r == (other == self.opposite()),
    {
        match (self, other) {
            (Direction::Up, Direction::Down) => true,
            (Direction::Down, Direction::Up) => true,
            (Direction::Left, Direction::Right) => true,
            (Direction::Right, Direction::Left) => true,
            _ => false,
        }
    }
}

} // verus!
