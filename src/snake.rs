use vstd::prelude::*;
use crate::geometry::{Direction, Position};

verus! {

/// The cell reached from `p` by one unit step in direction `d`.
pub open spec fn moved(p: Position, d: Direction) -> Position {
    Position { x: (p.x + d.dx()) as i64, y: (p.y + d.dy()) as i64 }
}

/// The heading that results from requesting `requested` while heading `current`:
/// a request for the exact reversal is ignored.
pub open spec fn heading_after(current: Direction, requested: Direction) -> Direction {
    if requested == current.opposite() {
        current
    } else {
        requested
    }
}

/// The mathematical state of a snake: its heading, its head cell and its
/// trailing segments, nearest to the head first.
pub struct SnakeView {
    pub direction: Direction,
    pub head: Position,
    pub body: Seq<Position>,
}

impl SnakeView {
    /// The head can take one more step without leaving the range of `i64`.
    pub open spec fn can_step(self) -> bool {
        i64::MIN < self.head.x < i64::MAX && i64::MIN < self.head.y < i64::MAX
    }

    /// The head or a segment covers `p`.
    pub open spec fn occupies(self, p: Position) -> bool {
        p == self.head || self.body.contains(p)
    }

    /// The head lies outside `[0, cols) x [0, rows)`.
    pub open spec fn off_field(self, cols: int, rows: int) -> bool {
        !self.head.in_grid(cols, rows)
    }

    /// The head covers one of the segments.
    pub open spec fn collided_itself(self) -> bool {
        self.body.contains(self.head)
    }

    /// The state after one new segment is laid at the head.
    pub open spec fn grown(self) -> SnakeView {
        SnakeView { direction: self.direction, head: self.head, body: seq![self.head] + self.body }
    }

    /// The state after one tick of movement: every segment takes the place of
    /// the one ahead of it (the first takes the head's), then the head moves.
    pub open spec fn stepped(self) -> SnakeView {
        SnakeView {
            direction: self.direction,
            head: moved(self.head, self.direction),
            body: (seq![self.head] + self.body).take(self.body.len() as int),
        }
    }
}

/// A snake on the grid.
pub struct Snake {
    pub direction: Direction,
    pub head: Position,
    /// Trailing segments, nearest to the head first.
    pub body: Vec<Position>,
}

impl View for Snake {
    type V = SnakeView;

    open spec fn view(&self) -> SnakeView {
        SnakeView { direction: self.direction, head: self.head, body: self.body@ }
    }
}

impl Snake {
    /// A snake of length one at the origin, heading right.
    pub fn new() -> (r: Snake)
        ensures
            r@.direction == Direction::Right,
            r@.head == (Position { x: 0, y: 0 }),
            r@.body == Seq::<Position>::empty(),
    {
        Snake { direction: Direction::Right, head: Position { x: 0, y: 0 }, body: Vec::new() }
    }

    /// Lays a new segment at the head's cell, in front of the others.
    pub fn increase_len(&mut self)
        ensures
            final(self)@ == old(self)@.grown(),
    {
        let h = self.head;
        self.body.insert(0, h);
        assert(self.body@ =~= seq![h] + old(self).body@);
    }

    /// Requests a new heading; the exact reversal of the current one is ignored.
    pub fn move_(&mut self, dir: Direction)
        ensures
            final(self).direction == heading_after(old(self).direction, dir),
            final(self).direction != old(self).direction.opposite(),
            final(self).head == old(self).head,
            final(self).body@ == old(self).body@,
    {
        if !self.direction.is_opposite(dir) {
            self.direction = dir;
        }
    }

    /// Whether the head lies outside `[0, cols) x [0, rows)`.
    pub fn off_field(&self, cols: usize, rows: usize) -> (r: bool)
        ensures
            r == self@.off_field(cols as int, rows as int),
    {
        self.head.x < 0 || self.head.x as u64 >= cols as u64 || self.head.y < 0 || self.head.y as u64
            >= rows as u64
    }

    /// Whether `position` is covered by the head or by a segment.
    pub fn contains_position(&self, position: Position) -> (r: bool)
        ensures
            r == self@.occupies(position),
    {
        self.head == position || body_contains(&self.body, position)
    }

    /// Whether the head covers one of the segments.
    pub fn collided_itself(&self) -> (r: bool)
        ensures
            r == self@.collided_itself(),
    {
        body_contains(&self.body, self.head)
    }

    /// One tick of movement: each segment takes the place of the one ahead of
    /// it, then the head moves one cell along its heading.
    pub fn update(&mut self)
        requires
            old(self)@.can_step(),
        ensures
            final(self)@ == old(self)@.stepped(),
            final(self).body@.len() == old(self).body@.len(),
    {
        let ghost old_head = self.head;
        let ghost old_body = self.body@;
        let n = self.body.len();
        let mut prev = self.head;
        let mut i: usize = 0;
        while i < n
            invariant
                0 <= i <= n,
                n == old_body.len(),
                self.head == old_head,
                self.direction == old(self).direction,
                self.body@.len() == n,
                forall|j: int| 0 <= j < i ==> #[trigger] self.body@[j] == (seq![old_head] + old_body)[j],
                forall|j: int| i <= j < n ==> #[trigger] self.body@[j] == old_body[j],
                prev == (seq![old_head] + old_body)[i as int],
            decreases n - i,
        {
            let t = self.body[i];
            self.body.set(i, prev);
            prev = t;
            i = i + 1;
        }
        let v = self.direction.get_vec();
        self.head = Position { x: self.head.x + v.x, y: self.head.y + v.y };
        assert(self.body@ =~= (seq![old_head] + old_body).take(n as int));
        assert(self.head == moved(old_head, self.direction));
    }
}

/// Whether `p` is one of the cells of `cells`.
fn body_contains(cells: &Vec<Position>, p: Position) -> (r: bool)
    ensures
        r == cells@.contains(p),
{
    let mut i: usize = 0;
    while i < cells.len()
        invariant
            0 <= i <= cells@.len(),
            forall|j: int| 0 <= j < i ==> cells@[j] != p,
        decreases cells@.len() - i,
    {
        if cells[i] == p {
            assert(cells@[i as int] == p);
            return true;
        }
        i = i + 1;
    }
    false
}

/// Growing and then stepping at once places the new segment on the cell that
/// the head left, and the moved head does not land on that segment.
pub proof fn lemma_grow_then_step(s: SnakeView)
    requires
        s.can_step(),
    ensures
        s.grown().stepped().body.len() == s.body.len() + 1,
        s.grown().stepped().body[0] == s.head,
        s.grown().stepped().head != s.grown().stepped().body[0],
        s.grown().stepped().head == moved(s.head, s.direction),
{
}

} // verus!
