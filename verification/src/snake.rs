//! The snake itself: an ordered body of grid cells (head first), a current
//! direction, and the cell most recently removed from the tail, cached so
//! that an eat event can restore it cheaply.

use vstd::prelude::*;

verus! {

/// One of the four orientations the snake can move in.
#[derive(Copy, Clone, PartialEq, Eq, Structural, Debug)]
pub enum Direction {
    Up,
    Down,
    Left,
    Right,
}

/// The reversed orientation: Up and Down swap, Left and Right swap.
pub open spec fn opposite_dir(d: Direction) -> Direction {
    match d {
        Direction::Up => Direction::Down,
        Direction::Down => Direction::Up,
        Direction::Left => Direction::Right,
        Direction::Right => Direction::Left,
    }
}

impl Direction {
    /// Returns the reversed orientation; used to reject an input that would
    /// turn the snake straight back into its own neck.
    pub fn opposite(&self) -> (r: Direction)
        ensures
            r == opposite_dir(*self),
    {
        match *self {
            Direction::Up => Direction::Down,
            Direction::Down => Direction::Up,
            Direction::Left => Direction::Right,
            Direction::Right => Direction::Left,
        }
    }
}

/// Reversing a direction twice yields the direction itself.
pub proof fn lemma_opposite_involutive(d: Direction)
    ensures
        opposite_dir(opposite_dir(d)) == d,
{
}

/// A direction is never its own reverse.
pub proof fn lemma_opposite_changes(d: Direction)
    ensures
        opposite_dir(d) != d,
{
}

/// The cell one step away from `c` in direction `d`.  The vertical axis
/// grows downward (screen convention): moving up decrements the second
/// coordinate.
pub open spec fn step_cell(c: (int, int), d: Direction) -> (int, int) {
    match d {
        Direction::Up => (c.0, c.1 - 1),
        Direction::Down => (c.0, c.1 + 1),
        Direction::Left => (c.0 - 1, c.1),
        Direction::Right => (c.0 + 1, c.1),
    }
}

/// The mathematical state of a snake: its body cells from head to tail,
/// its direction, and the cached cell last removed from the tail.
pub struct SnakeView {
    pub direction: Direction,
    pub body: Seq<(int, int)>,
    pub tail: Option<(int, int)>,
}

impl SnakeView {
    /// A snake always has at least one body cell.
    pub open spec fn wf(self) -> bool {
        self.body.len() >= 1
    }

    /// The head is the first body cell.
    pub open spec fn head(self) -> (int, int) {
        self.body[0]
    }

    /// An optional override replaces the current direction when present.
    pub open spec fn chosen_dir(self, dir: Option<Direction>) -> Direction {
        match dir {
            Some(d) => d,
            None => self.direction,
        }
    }

    /// The cell the head would occupy after one step in the chosen direction.
    pub open spec fn next_head(self, dir: Option<Direction>) -> (int, int) {
        step_cell(self.head(), self.chosen_dir(dir))
    }

    /// Whether the computed next head still fits in machine integers.
    pub open spec fn next_head_fits(self, dir: Option<Direction>) -> bool {
        &&& i32::MIN <= self.next_head(dir).0 <= i32::MAX
        &&& i32::MIN <= self.next_head(dir).1 <= i32::MAX
    }

    /// The state after one forward move: the next head is prepended, the
    /// tail cell is removed and cached, and the chosen direction is kept.
    pub open spec fn moved(self, dir: Option<Direction>) -> SnakeView {
        SnakeView {
            direction: self.chosen_dir(dir),
            body: seq![self.next_head(dir)] + self.body.drop_last(),
            tail: Some(self.body.last()),
        }
    }

    /// The state after the cached tail cell is appended back to the body.
    pub open spec fn grown(self) -> SnakeView {
        SnakeView { body: self.body.push(self.tail->0), ..self }
    }

    /// Whether some body cell (the head included) sits at (x, y).
    pub open spec fn occupies(self, x: int, y: int) -> bool {
        exists|i: int| 0 <= i < self.body.len() && #[trigger] self.body[i] == (x, y)
    }
}

/// A forward move never changes the number of body cells, and the new head
/// is exactly the cell that the lookahead predicts.
pub proof fn lemma_move_preserves_length(v: SnakeView, dir: Option<Direction>)
    requires
        v.wf(),
    ensures
        v.moved(dir).body.len() == v.body.len(),
        v.moved(dir).body[0] == v.next_head(dir),
{
}

/// One forward move followed by one tail growth adds exactly one body cell,
/// and the appended cell is the one that sat at the tail before the move.
pub proof fn lemma_grow_restores_tail(v: SnakeView, dir: Option<Direction>)
    requires
        v.wf(),
    ensures
        v.moved(dir).grown().body.len() == v.body.len() + 1,
        v.moved(dir).grown().body.last() == v.body.last(),
{
}

/// The view of one concrete cell.
pub open spec fn cell_view(c: (i32, i32)) -> (int, int) {
    (c.0 as int, c.1 as int)
}

/// The executable snake.  The body vector holds the cells from head to tail.
pub struct Snake {
    direction: Direction,
    body: Vec<(i32, i32)>,
    tail: Option<(i32, i32)>,
}

impl View for Snake {
    type V = SnakeView;

    closed spec fn view(&self) -> SnakeView {
        SnakeView {
            direction: self.direction,
            body: self.body@.map_values(|c: (i32, i32)| cell_view(c)),
            tail: match self.tail {
                Some(c) => Some(cell_view(c)),
                None => None,
            },
        }
    }
}

impl Snake {
    /// Builds the initial three-cell snake: head (x+2, y), then (x+1, y),
    /// tail (x, y), moving Right, with no cached tail cell.
    pub fn new(x: i32, y: i32) -> (s: Snake)
        requires
            x + 2 <= i32::MAX,
        ensures
            s@.body == seq![(x + 2, y as int), (x + 1, y as int), (x as int, y as int)],
            s@.direction == Direction::Right,
            s@.tail is None,
            s@.wf(),
    {
        let mut body: Vec<(i32, i32)> = Vec::new();
        body.push((x + 2, y));
        body.push((x + 1, y));
        body.push((x, y));
        let s = Snake { direction: Direction::Right, body, tail: None };
        proof {
            assert(s@.body =~= seq![(x + 2, y as int), (x + 1, y as int), (x as int, y as int)]);
        }
        s
    }

    /// The cell the head occupies.
    pub fn head_position(&self) -> (r: (i32, i32))
        requires
            self@.wf(),
        ensures
            cell_view(r) == self@.head(),
    {
        self.body[0]
    }

    /// The direction the snake is currently moving in.
    pub fn head_direction(&self) -> (r: Direction)
        ensures
            r == self@.direction,
    {
        self.direction
    }

    /// The cell the head would occupy after one step in `dir` (or in the
    /// current direction when `dir` is absent).  Pure lookahead: the snake
    /// is not changed.
    pub fn next_head(&self, dir: Option<Direction>) -> (r: (i32, i32))
        requires
            self@.wf(),
            self@.next_head_fits(dir),
        ensures
            cell_view(r) == self@.next_head(dir),
    {
        let head = self.head_position();
        let moving_dir = match dir {
            Some(d) => d,
            None => self.direction,
        };
        match moving_dir {
            Direction::Up => (head.0, head.1 - 1),
            Direction::Down => (head.0, head.1 + 1),
            Direction::Left => (head.0 - 1, head.1),
            Direction::Right => (head.0 + 1, head.1),
        }
    }

    /// Moves the snake one step: an override replaces the direction, the
    /// predicted next head is prepended, and the old tail cell is removed
    /// and cached.  The body length is unchanged.
    pub fn move_forward(&mut self, dir: Option<Direction>)
        requires
            old(self)@.wf(),
            old(self)@.next_head_fits(dir),
        ensures
            final(self)@ == old(self)@.moved(dir),
            final(self)@.wf(),
    {
        match dir {
            Some(d) => self.direction = d,
            None => {},
        }
        let new_head = self.next_head(None);
        self.body.insert(0, new_head);
        let removed = match self.body.pop() {
            Some(c) => c,
            None => new_head,
        };
        self.tail = Some(removed);
        proof {
            assert(self@.body =~= old(self)@.moved(dir).body);
        }
    }

    /// Appends the cached tail cell back to the body, making the snake one
    /// cell longer.  Meant to be called right after a move, when the cache
    /// holds the cell that the move removed.
    pub fn grow_tail(&mut self)
        requires
            old(self)@.tail is Some,
        ensures
            final(self)@ == old(self)@.grown(),
    {
        let t = match self.tail {
            Some(c) => c,
            None => (0, 0),
        };
        self.body.push(t);
        proof {
            assert(self@.body =~= old(self)@.grown().body);
        }
    }

    /// Whether any body cell (the head included) sits at (x, y).
    pub fn is_overlapping(&self, x: i32, y: i32) -> (r: bool)
        ensures
            r == self@.occupies(x as int, y as int),
    {
        let mut i: usize = 0;
        while i < self.body.len()
            invariant
                i <= self.body.len(),
                self@.body.len() == self.body.len(),
                forall|j: int| 0 <= j < i ==> #[trigger] self@.body[j] != (x as int, y as int),
            decreases self.body.len() - i,
        {
            let c = self.body[i];
            if c.0 == x && c.1 == y {
                proof {
                    assert(self@.body[i as int] == (x as int, y as int));
                }
                return true;
            }
            i = i + 1;
        }
        false
    }

    /// The number of body cells.
    pub fn get_length(&self) -> (r: usize)
        ensures
            r == self@.body.len(),
    {
        self.body.len()
    }

    /// A copy of the body cells, head first; what a renderer draws.
    pub fn body_cells(&self) -> (r: Vec<(i32, i32)>)
        ensures
            r@.len() == self@.body.len(),
            forall|i: int| 0 <= i < r@.len() ==> cell_view(#[trigger] r@[i]) == self@.body[i],
    {
        let mut cells: Vec<(i32, i32)> = Vec::new();
        let mut i: usize = 0;
        while i < self.body.len()
            invariant
                i <= self.body.len(),
                self@.body.len() == self.body.len(),
                cells@.len() == i,
                forall|j: int| 0 <= j < i ==> cell_view(#[trigger] cells@[j]) == self@.body[j],
            decreases self.body.len() - i,
        {
            cells.push(self.body[i]);
            i = i + 1;
        }
        cells
    }
}

} // verus!
