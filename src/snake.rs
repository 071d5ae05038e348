use vstd::prelude::*;

verus! {

/// A heading on the grid; `Up` lowers `y`, `Right` raises `x`.
#[derive(Clone, Copy, Debug, PartialEq, Eq, Structural)]
pub enum Direction {
    Up,
    Down,
    Left,
    Right,
}

impl Direction {
    /// The heading that points the other way.
    pub open spec fn spec_opposite(self) -> Direction {
        match self {
            Direction::Up => Direction::Down,
            Direction::Down => Direction::Up,
            Direction::Left => Direction::Right,
            Direction::Right => Direction::Left,
        }
    }

    /// The heading that points the other way.
    pub fn opposite(&self) -> (r: Direction)
        ensures
            r == self.spec_opposite(),
    {
        match *self {
            Direction::Up => Direction::Down,
            Direction::Down => Direction::Up,
            Direction::Left => Direction::Right,
            Direction::Right => Direction::Left,
        }
    }
}

/// The cell one step from `p` towards `d`.
pub open spec fn neighbour(p: (i32, i32), d: Direction) -> (int, int) {
    match d {
        Direction::Up => (p.0 as int, p.1 - 1),
        Direction::Down => (p.0 as int, p.1 + 1),
        Direction::Left => (p.0 - 1, p.1 as int),
        Direction::Right => (p.0 + 1, p.1 as int),
    }
}

/// Both coordinates of `p` fit in an `i32`.
pub open spec fn fits_i32(p: (int, int)) -> bool {
    i32::MIN <= p.0 <= i32::MAX && i32::MIN <= p.1 <= i32::MAX
}

/// The heading that a move takes: the one given, else the current one.
pub open spec fn heading(current: Direction, dir: Option<Direction>) -> Direction {
    match dir {
        Some(d) => d,
        None => current,
    }
}

/// A snake on the grid: its heading, its cells from head to tail, and the
/// cell that the last move left behind.
pub struct Snake {
    direction: Direction,
    body: Vec<(i32, i32)>,
    tail: Option<(i32, i32)>,
}

/// The mathematical value of a [`Snake`].
pub struct SnakeView {
    pub direction: Direction,
    pub body: Seq<(i32, i32)>,
    pub tail: Option<(i32, i32)>,
}

impl SnakeView {
    /// The snake has a head.
    pub open spec fn wf(self) -> bool {
        self.body.len() >= 1
    }

    /// The head's cell.
    pub open spec fn head(self) -> (i32, i32) {
        self.body[0]
    }

    /// Where the head goes on a move towards `dir`, or the current heading.
    pub open spec fn next_head(self, dir: Option<Direction>) -> (int, int) {
        neighbour(self.head(), heading(self.direction, dir))
    }
}

impl View for Snake {
    type V = SnakeView;

    closed spec fn view(&self) -> SnakeView {
        SnakeView { direction: self.direction, body: self.body@, tail: self.tail }
    }
}

impl Snake {
    /// A snake of three cells heading right, its tail at `(x, y)`.
    pub fn new(x: i32, y: i32) -> (r: Snake)
        requires
            x <= i32::MAX - 2,
        ensures
            r@.direction == Direction::Right,
            r@.body == seq![((x + 2) as i32, y), ((x + 1) as i32, y), (x, y)],
            r@.tail is None,
    {
        let mut body: Vec<(i32, i32)> = Vec::new();
        body.push((x + 2, y));
        body.push((x + 1, y));
        body.push((x, y));
        assert(body@ =~= seq![((x + 2) as i32, y), ((x + 1) as i32, y), (x, y)]);
        Snake { direction: Direction::Right, body, tail: None }
    }

    /// The head's cell.
    pub fn head_position(&self) -> (r: (i32, i32))
        requires
            self@.wf(),
        ensures
            r == self@.head(),
    {
        self.body[0]
    }

    /// Moves one cell, first taking the heading `dir` when one is given: a new
    /// head goes in front, and the last cell leaves and is kept as the tail.
    pub fn move_forward(&mut self, dir: Option<Direction>)
        requires
            old(self)@.wf(),
            fits_i32(old(self)@.next_head(dir)),
        ensures
            final(self)@.direction == heading(old(self)@.direction, dir),
            final(self)@.body == seq![
                (old(self)@.next_head(dir).0 as i32, old(self)@.next_head(dir).1 as i32),
            ] + old(self)@.body.drop_last(),
            final(self)@.tail == Some(old(self)@.body.last()),
            final(self)@.wf(),
    {
        match dir {
            Some(d) => self.direction = d,
            None => (),
        }
        let (last_x, last_y) = self.head_position();
        let new_block = match self.direction {
            Direction::Up => (last_x, last_y - 1),
            Direction::Down => (last_x, last_y + 1),
            Direction::Left => (last_x - 1, last_y),
            Direction::Right => (last_x + 1, last_y),
        };
        self.body.insert(0, new_block);
        let removed = self.body.pop();
        match removed {
            Some(b) => self.tail = Some(b),
            None => (),
        }
        assert(self.body@ =~= seq![new_block] + old(self)@.body.drop_last());
    }

    /// The current heading.
    pub fn head_direction(&self) -> (r: Direction)
        ensures
            r == self@.direction,
    {
        self.direction
    }

    /// Where the head would go on a move towards `dir`, or the current
    /// heading when none is given.
    pub fn next_head(&self, dir: Option<Direction>) -> (r: (i32, i32))
        requires
            self@.wf(),
            fits_i32(self@.next_head(dir)),
        ensures
            r.0 as int == self@.next_head(dir).0,
            r.1 as int == self@.next_head(dir).1,
    {
        let (head_x, head_y) = self.head_position();
        let mut moving_dir = self.direction;
        match dir {
            Some(d) => moving_dir = d,
            None => {},
        }
        match moving_dir {
            Direction::Up => (head_x, head_y - 1),
            Direction::Down => (head_x, head_y + 1),
            Direction::Left => (head_x - 1, head_y),
            Direction::Right => (head_x + 1, head_y),
        }
    }

    /// Puts the cell that the last move left behind back at the end, so the
    /// snake grows by one.
    pub fn restore_tail(&mut self)
        requires
            old(self)@.tail is Some,
        ensures
            final(self)@.body == old(self)@.body.push(old(self)@.tail->Some_0),
            final(self)@.direction == old(self)@.direction,
            final(self)@.tail == old(self)@.tail,
            final(self)@.wf(),
    {
        match self.tail {
            Some(b) => self.body.push(b),
            None => (),
        }
    }

    /// Whether `(x, y)` is one of the snake's cells, its last cell left out
    /// when it has more than one (that cell moves away on the next step).
    pub fn overlap_tail(&self, x: i32, y: i32) -> (r: bool)
        ensures
            r == exists|i: int|
                0 <= i < checked_len(self@.body.len()) && #[trigger] self@.body[i] == (x, y),
    {
        let n = if self.body.len() <= 1 {
            self.body.len()
        } else {
            self.body.len() - 1
        };
        let mut i: usize = 0;
        while i < n
            invariant
                n == checked_len(self@.body.len()),
                n <= self@.body.len(),
                i <= n,
                forall|j: int| 0 <= j < i ==> self@.body[j] != (x, y),
            decreases n - i,
        {
            let (bx, by) = self.body[i];
            if x == bx && y == by {
                assert(self@.body[i as int] == (x, y));
                return true;
            }
            i = i + 1;
        }
        false
    }
}

/// How many leading cells [`Snake::overlap_tail`] looks at: all but the last,
/// or the only one.
pub open spec fn checked_len(len: nat) -> nat {
    if len <= 1 {
        len
    } else {
        (len - 1) as nat
    }
}

} // verus!
