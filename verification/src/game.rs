//! The game: one snake, an apple, the board bounds, a score, and the
//! running / paused / game-over state machine, driven by key presses and a
//! periodic movement tick.
//!
//! Time is measured in whole milliseconds.  The embedding loop feeds the
//! elapsed time of each frame into [`Game::update`] and every key press into
//! [`Game::key_pressed`], and reads the state back through the query methods
//! to draw it.

use vstd::prelude::*;

use crate::snake::{cell_view, opposite_dir, Direction, Snake, SnakeView};

verus! {

/// A movement tick fires once the accumulated waiting time exceeds this.
pub const MOVING_PERIOD_MS: u64 = 100;

/// After a game over, the game restarts once the accumulated waiting time
/// exceeds this.
pub const RESTART_TIME_MS: u64 = 3000;

/// A key press, as the game understands it.  Movement keys come in two
/// equivalent bindings (WASD and the arrows); Space toggles pause; every
/// other key is `Other`.
#[derive(Copy, Clone, PartialEq, Eq, Structural, Debug)]
pub enum Key {
    Space,
    W,
    A,
    S,
    D,
    Up,
    Down,
    Left,
    Right,
    Other,
}

/// The direction a key resolves to: movement keys map to their direction,
/// and any other key keeps the current one.
pub open spec fn resolved_dir(key: Key, current: Direction) -> Direction {
    match key {
        Key::W => Direction::Up,
        Key::Up => Direction::Up,
        Key::S => Direction::Down,
        Key::Down => Direction::Down,
        Key::A => Direction::Left,
        Key::Left => Direction::Left,
        Key::D => Direction::Right,
        Key::Right => Direction::Right,
        _ => current,
    }
}

/// The mathematical state of a game.
pub struct GameView {
    pub snake: SnakeView,
    pub apple: Option<(int, int)>,
    pub width: int,
    pub height: int,
    pub score: int,
    pub game_over: bool,
    pub paused: bool,
    pub waiting_time: int,
}

impl GameView {
    /// The same state with the given score.
    pub open spec fn with_score(self, score: int) -> GameView {
        GameView { score, ..self }
    }

    /// The same state with the given pause flag.
    pub open spec fn with_paused(self, paused: bool) -> GameView {
        GameView { paused, ..self }
    }

    /// The same state with the given apple.
    pub open spec fn with_apple(self, apple: Option<(int, int)>) -> GameView {
        GameView { apple, ..self }
    }

    /// The state after the apple is consumed: it disappears, the snake
    /// grows by the cached tail cell, and the score rises by one.
    pub open spec fn eaten(self) -> GameView {
        GameView { snake: self.snake.grown(), apple: None, score: self.score + 1, ..self }
    }
}

/// Whether `c` lies strictly inside the one-cell-thick border ring.
pub open spec fn inside_board(g: GameView, c: (int, int)) -> bool {
    0 < c.0 < g.width - 1 && 0 < c.1 < g.height - 1
}

/// The snake a fresh game (or a restart) starts with: three cells at
/// (4, 2), (3, 2), (2, 2), moving Right.
pub open spec fn initial_snake_view() -> SnakeView {
    SnakeView {
        direction: Direction::Right,
        body: seq![(4int, 2int), (3int, 2int), (2int, 2int)],
        tail: None,
    }
}

/// Well-formedness of a game state: the board is large enough to hold the
/// initial snake inside its border, the snake is non-empty with its head
/// strictly inside the border, the score counts exactly the cells grown
/// since the last reset, and the apple (when present) lies strictly inside
/// the border.
pub open spec fn wf_view(g: GameView) -> bool {
    &&& 6 <= g.width <= i32::MAX
    &&& 4 <= g.height <= i32::MAX
    &&& g.snake.wf()
    &&& 0 <= g.score
    &&& g.score + 3 == g.snake.body.len()
    &&& inside_board(g, g.snake.head())
    &&& match g.apple {
        Some(a) => inside_board(g, a),
        None => true,
    }
}

/// Whether a step in the chosen direction is allowed: the prospective head
/// must not overlap the current body and must stay strictly inside the
/// border ring.
pub open spec fn move_valid(g: GameView, dir: Option<Direction>) -> bool {
    let nh = g.snake.next_head(dir);
    &&& !g.snake.occupies(nh.0, nh.1)
    &&& inside_board(g, nh)
}

/// Whether the prospective head lands exactly on the apple.
pub open spec fn eats_apple(g: GameView, dir: Option<Direction>) -> bool {
    g.apple == Some(g.snake.next_head(dir))
}

/// How one movement tick transforms the state.  An invalid prospective head
/// ends the game and leaves the snake as it was; while paused the snake
/// does not move; otherwise the snake moves, and grows with the score when
/// it reaches the apple.  The waiting time is reset in every case.
pub open spec fn tick_rel(pre: GameView, dir: Option<Direction>, post: GameView) -> bool {
    if !move_valid(pre, dir) {
        post == GameView { game_over: true, waiting_time: 0, ..pre }
    } else if pre.paused {
        post == GameView { waiting_time: 0, ..pre }
    } else if eats_apple(pre, dir) {
        post == GameView {
            snake: pre.snake.moved(dir).grown(),
            apple: None,
            score: pre.score + 1,
            waiting_time: 0,
            ..pre
        }
    } else {
        post == GameView { snake: pre.snake.moved(dir), waiting_time: 0, ..pre }
    }
}

/// Some cell strictly inside the border is free of the snake.
pub open spec fn has_free_cell(s: SnakeView, width: int, height: int) -> bool {
    exists|cx: int, cy: int|
        0 < cx < width - 1 && 0 < cy < height - 1 && !(#[trigger] s.occupies(cx, cy))
}

/// The state after a frame's elapsed time is added to the waiting time
/// (saturating at the largest representable value).
pub open spec fn accumulate(g: GameView, delta: int) -> GameView {
    GameView {
        waiting_time: if g.waiting_time + delta <= u64::MAX {
            g.waiting_time + delta
        } else {
            u64::MAX as int
        },
        ..g
    }
}

/// What holds of a freshly placed apple: strictly inside the border, and
/// off the snake whenever a free interior cell exists at all.
pub open spec fn placed_apple_ok(pre: GameView, a: (int, int)) -> bool {
    &&& 0 < a.0 < pre.width - 1
    &&& 0 < a.1 < pre.height - 1
    &&& (has_free_cell(pre.snake, pre.width, pre.height) ==> !pre.snake.occupies(a.0, a.1))
}

/// A movement tick fires exactly when the waiting time is over the moving
/// period; otherwise the state is left as it is.
pub open spec fn tick_if_due(pre: GameView, post: GameView) -> bool {
    if pre.waiting_time > MOVING_PERIOD_MS {
        tick_rel(pre, None::<Direction>, post)
    } else {
        post == pre
    }
}

/// The state after a full reset: the initial snake, score zero, flags
/// cleared, timer zeroed, and a fresh apple strictly inside the border and
/// off the (new) snake.  Board bounds are kept.
pub open spec fn restarted_from(pre: GameView, post: GameView) -> bool {
    &&& post.width == pre.width
    &&& post.height == pre.height
    &&& post.snake == initial_snake_view()
    &&& post.score == 0
    &&& !post.game_over
    &&& !post.paused
    &&& post.waiting_time == 0
    &&& post.apple matches Some(a) && inside_board(post, a) && !post.snake.occupies(a.0, a.1)
}

/// How one call of [`Game::update`] transforms the state.  The elapsed time
/// is accumulated first.  After a game over, nothing happens until the
/// restart threshold is exceeded, and then the game restarts.  Otherwise a
/// missing apple is placed (at a spot the library does not choose
/// deterministically, hence the existential), and a movement tick fires if
/// the accumulated time is over the moving period.
pub open spec fn update_rel(pre: GameView, delta: int, post: GameView) -> bool {
    let acc = accumulate(pre, delta);
    if pre.game_over {
        if acc.waiting_time > RESTART_TIME_MS {
            restarted_from(pre, post)
        } else {
            post == acc
        }
    } else if pre.apple is Some {
        tick_if_due(acc, post)
    } else {
        exists|a: (int, int)|
            #[trigger] placed_apple_ok(acc, a) && tick_if_due(acc.with_apple(Some(a)), post)
    }
}

/// While the game is paused, a tick leaves the snake untouched and only
/// resets the waiting time.
pub proof fn lemma_paused_tick_keeps_snake(pre: GameView, dir: Option<Direction>, post: GameView)
    requires
        tick_rel(pre, dir, post),
        pre.paused,
    ensures
        post.snake == pre.snake,
        post.waiting_time == 0,
{
}

/// A tick whose prospective head is invalid (on the border ring or on the
/// body) ends the game and leaves the snake exactly as it was.
pub proof fn lemma_invalid_move_ends_game(pre: GameView, dir: Option<Direction>, post: GameView)
    requires
        tick_rel(pre, dir, post),
        !move_valid(pre, dir),
    ensures
        post.game_over,
        post.snake == pre.snake,
        post.score == pre.score,
{
}

/// A tick that reaches the apple while running consumes it, grows the body
/// by exactly one cell, and raises the score by exactly one.
pub proof fn lemma_eating_tick(pre: GameView, dir: Option<Direction>, post: GameView)
    requires
        tick_rel(pre, dir, post),
        pre.snake.wf(),
        move_valid(pre, dir),
        !pre.paused,
        eats_apple(pre, dir),
    ensures
        post.apple is None,
        post.score == pre.score + 1,
        post.snake.body.len() == pre.snake.body.len() + 1,
{
    crate::snake::lemma_grow_restores_tail(pre.snake, dir);
}

/// The executable game state.
pub struct Game {
    snake: Snake,
    level: usize,
    apple_exists: bool,
    apple_x: i32,
    apple_y: i32,
    width: i32,
    height: i32,
    game_over: bool,
    paused: bool,
    waiting_time: u64,
}

impl View for Game {
    type V = GameView;

    closed spec fn view(&self) -> GameView {
        GameView {
            snake: self.snake@,
            apple: if self.apple_exists {
                Some((self.apple_x as int, self.apple_y as int))
            } else {
                None
            },
            width: self.width as int,
            height: self.height as int,
            score: self.level as int,
            game_over: self.game_over,
            paused: self.paused,
            waiting_time: self.waiting_time as int,
        }
    }
}

/// Relies on rand::Rng::gen_range on the thread-local generator: the result
/// is drawn from the given half-open range, and the call panics only when
/// the range is empty.
#[verifier::external_body]
fn random_in_range(low: i32, high: i32) -> (r: i32)
    requires
        low < high,
    ensures
        low <= r < high,
{
    rand::Rng::gen_range(&mut rand::thread_rng(), low..high)
}

impl Game {
    /// Whether this game state is well-formed.
    pub open spec fn wf(self) -> bool {
        wf_view(self@)
    }

    /// Picks a cell strictly inside the border that the snake does not
    /// occupy, by rejection sampling with a deterministic fallback scan.
    /// Only when every interior cell is occupied does the result overlap
    /// the snake.
    fn randomise_apple_location(snake: &Snake, width: i32, height: i32) -> (r: (i32, i32))
        requires
            3 <= width,
            3 <= height,
        ensures
            0 < r.0 < width - 1,
            0 < r.1 < height - 1,
            has_free_cell(snake@, width as int, height as int) ==> !snake@.occupies(
                r.0 as int,
                r.1 as int,
            ),
    {
        let mut tries: u32 = 0;
        while tries < 64
            invariant
                3 <= width,
                3 <= height,
            decreases 64 - tries,
        {
            let new_x = random_in_range(1, width - 1);
            let new_y = random_in_range(1, height - 1);
            if !snake.is_overlapping(new_x, new_y) {
                return (new_x, new_y);
            }
            tries = tries + 1;
        }
        // Random sampling kept colliding with the snake: scan the interior
        // row by row for the first free cell instead.
        let mut y: i32 = 1;
        while y < height - 1
            invariant
                3 <= width,
                3 <= height,
                1 <= y <= height - 1,
                forall|cx: int, cy: int|
                    0 < cx < width - 1 && 0 < cy < y ==> #[trigger] snake@.occupies(cx, cy),
            decreases height - 1 - y,
        {
            let mut x: i32 = 1;
            while x < width - 1
                invariant
                    3 <= width,
                    3 <= height,
                    1 <= y < height - 1,
                    1 <= x <= width - 1,
                    forall|cx: int, cy: int|
                        0 < cx < width - 1 && 0 < cy < y ==> #[trigger] snake@.occupies(cx, cy),
                    forall|cx: int|
                        0 < cx < x ==> #[trigger] snake@.occupies(cx, y as int),
                decreases width - 1 - x,
            {
                if !snake.is_overlapping(x, y) {
                    return (x, y);
                }
                x = x + 1;
            }
            proof {
                assert forall|cx: int, cy: int|
                    0 < cx < width - 1 && 0 < cy < y + 1 implies #[trigger] snake@.occupies(
                    cx,
                    cy,
                ) by {
                    if cy == y {
                        assert(snake@.occupies(cx, y as int));
                    }
                }
            }
            y = y + 1;
        }
        // Every interior cell is occupied, so no free cell exists and the
        // placement promise holds vacuously.
        proof {
            assert(!has_free_cell(snake@, width as int, height as int));
        }
        (1, 1)
    }

    /// Creates a new game on a `width` by `height` board, with the initial
    /// snake and a fresh apple strictly inside the border and off the
    /// snake.  The board must be large enough to hold the initial snake
    /// inside the border with at least one interior cell left free.
    pub fn new(width: i32, height: i32) -> (g: Game)
        requires
            6 <= width,
            4 <= height,
        ensures
            g.wf(),
            g@.snake == initial_snake_view(),
            g@.width == width,
            g@.height == height,
            g@.score == 0,
            !g@.game_over,
            !g@.paused,
            g@.waiting_time == 0,
            (g@.apple matches Some(a) && inside_board(g@, a) && !g@.snake.occupies(a.0, a.1)),
    {
        let snake = Snake::new(2, 2);
        proof {
            assert(!snake@.occupies(1, 1));
            assert(has_free_cell(snake@, width as int, height as int));
        }
        let (apple_x, apple_y) = Self::randomise_apple_location(&snake, width, height);
        let g = Game {
            snake,
            level: 0,
            apple_exists: true,
            apple_x,
            apple_y,
            width,
            height,
            game_over: false,
            paused: false,
            waiting_time: 0,
        };
        proof {
            assert(g@.snake.body =~= initial_snake_view().body);
        }
        g
    }

    /// Creates a new game with the apple at the given cell instead of a
    /// random one; the cell must lie strictly inside the border.
    pub fn new_with_apple(width: i32, height: i32, apple_x: i32, apple_y: i32) -> (g: Game)
        requires
            6 <= width,
            4 <= height,
            0 < apple_x < width - 1,
            0 < apple_y < height - 1,
        ensures
            g.wf(),
            g@.snake == initial_snake_view(),
            g@.width == width,
            g@.height == height,
            g@.score == 0,
            !g@.game_over,
            !g@.paused,
            g@.waiting_time == 0,
            g@.apple == Some((apple_x as int, apple_y as int)),
    {
        let snake = Snake::new(2, 2);
        let g = Game {
            snake,
            level: 0,
            apple_exists: true,
            apple_x,
            apple_y,
            width,
            height,
            game_over: false,
            paused: false,
            waiting_time: 0,
        };
        proof {
            assert(g@.snake.body =~= initial_snake_view().body);
        }
        g
    }

    /// Whether the snake would survive a step in the chosen direction: the
    /// prospective head must be off the body and strictly inside the
    /// border.
    fn is_snake_alive(&self, dir: Option<Direction>) -> (r: bool)
        requires
            self.wf(),
        ensures
            r == move_valid(self@, dir),
    {
        let (next_x, next_y) = self.snake.next_head(dir);
        if self.snake.is_overlapping(next_x, next_y) {
            return false;
        }
        next_x > 0 && next_y > 0 && next_x < self.width - 1 && next_y < self.height - 1
    }

    /// Raises the score by one.
    fn up_level(&mut self)
        requires
            old(self).level < usize::MAX,
        ensures
            final(self)@ == old(self)@.with_score(old(self)@.score + 1),
    {
        self.level = self.level + 1;
    }

    /// Consumes the apple when the head has just landed on it: the
    /// apple disappears, the snake grows by the cached tail cell, and the
    /// score rises by one.  Meant to be called right after a move.
    fn has_eaten(&mut self)
        requires
            old(self)@.snake.wf(),
            (old(self)@.snake.tail is Some),
            old(self)@.score + 3 == old(self)@.snake.body.len(),
        ensures
            old(self)@.apple == Some(old(self)@.snake.head()) ==> final(self)@ == old(
                self,
            )@.eaten(),
            old(self)@.apple != Some(old(self)@.snake.head()) ==> final(self)@ == old(self)@,
    {
        let (head_x, head_y) = self.snake.head_position();
        if self.apple_exists && head_x == self.apple_x && head_y == self.apple_y {
            self.apple_exists = false;
            self.snake.grow_tail();
            // The body just grew to score + 4 cells, and its length fits in
            // usize, so the score has room to rise by one.
            let _grown_len = self.snake.get_length();
            self.up_level();
        }
    }

    /// One movement tick: computes the prospective head, ends the game if
    /// it is invalid, otherwise moves the snake (unless paused) and
    /// consumes the apple on an exact hit.  The waiting time is reset in
    /// every case.
    pub fn update_snake(&mut self, dir: Option<Direction>)
        requires
            old(self).wf(),
        ensures
            final(self).wf(),
            tick_rel(old(self)@, dir, final(self)@),
    {
        if self.is_snake_alive(dir) {
            if !self.paused {
                self.snake.move_forward(dir);
                self.has_eaten();
            }
        } else {
            self.game_over = true;
        }
        self.waiting_time = 0;
    }

    /// Places a fresh apple: strictly inside the border, and off the snake
    /// whenever a free interior cell exists.  Nothing else changes.
    fn add_apple(&mut self)
        requires
            old(self).wf(),
        ensures
            final(self).wf(),
            (final(self)@.apple matches Some(a) && placed_apple_ok(old(self)@, a)),
            final(self)@ == old(self)@.with_apple(final(self)@.apple),
    {
        let (new_x, new_y) = Self::randomise_apple_location(&self.snake, self.width, self.height);
        self.apple_x = new_x;
        self.apple_y = new_y;
        self.apple_exists = true;
    }

    /// Restarts the game after a game over: a fresh initial snake, score
    /// zero, flags cleared, timer zeroed, and a fresh apple off the new
    /// snake.  Board bounds are kept.
    fn restart(&mut self)
        requires
            old(self).wf(),
        ensures
            final(self).wf(),
            restarted_from(old(self)@, final(self)@),
    {
        let snake = Snake::new(2, 2);
        proof {
            assert(!snake@.occupies(1, 1));
            assert(has_free_cell(snake@, self.width as int, self.height as int));
        }
        let (apple_x, apple_y) = Self::randomise_apple_location(&snake, self.width, self.height);
        self.snake = snake;
        self.level = 0;
        self.apple_exists = true;
        self.apple_x = apple_x;
        self.apple_y = apple_y;
        self.game_over = false;
        self.paused = false;
        self.waiting_time = 0;
        proof {
            assert(self@.snake.body =~= initial_snake_view().body);
        }
    }

    /// Toggles between paused and running.
    fn pause_resume(&mut self)
        ensures
            final(self)@ == old(self)@.with_paused(!old(self)@.paused),
    {
        self.paused = !self.paused;
    }

    /// Handles one key press.  Ignored entirely after a game over.  Space
    /// toggles pause.  The key then resolves to a direction (movement keys
    /// map to theirs, any other key keeps the current one); an input that
    /// would reverse the snake into its own neck is dropped, and every
    /// other one fires an immediate movement tick in the resolved
    /// direction.
    pub fn key_pressed(&mut self, key: Key)
        requires
            old(self).wf(),
        ensures
            final(self).wf(),
            old(self)@.game_over ==> final(self)@ == old(self)@,
            !old(self)@.game_over && resolved_dir(key, old(self)@.snake.direction) == opposite_dir(
                old(self)@.snake.direction,
            ) ==> final(self)@ == old(self)@,
            !old(self)@.game_over && resolved_dir(key, old(self)@.snake.direction) != opposite_dir(
                old(self)@.snake.direction,
            ) ==> tick_rel(
                old(self)@.with_paused(
                    if key == Key::Space {
                        !old(self)@.paused
                    } else {
                        old(self)@.paused
                    },
                ),
                Some(resolved_dir(key, old(self)@.snake.direction)),
                final(self)@,
            ),
    {
        if self.game_over {
            return;
        }
        if key == Key::Space {
            self.pause_resume();
            proof {
                crate::snake::lemma_opposite_changes(old(self)@.snake.direction);
            }
        }
        let dir = match key {
            Key::W => Direction::Up,
            Key::Up => Direction::Up,
            Key::S => Direction::Down,
            Key::Down => Direction::Down,
            Key::A => Direction::Left,
            Key::Left => Direction::Left,
            Key::D => Direction::Right,
            Key::Right => Direction::Right,
            _ => self.snake.head_direction(),
        };
        if dir == self.snake.head_direction().opposite() {
            return;
        }
        self.update_snake(Some(dir));
    }

    /// Handles one frame's elapsed time, in milliseconds.  The time is
    /// accumulated (saturating).  After a game over the game restarts once
    /// the accumulated time exceeds the restart threshold.  Otherwise a
    /// missing apple is placed, and a movement tick fires once the
    /// accumulated time exceeds the moving period.
    pub fn update(&mut self, delta_ms: u64)
        requires
            old(self).wf(),
        ensures
            final(self).wf(),
            update_rel(old(self)@, delta_ms as int, final(self)@),
    {
        let w = if delta_ms <= u64::MAX - self.waiting_time {
            self.waiting_time + delta_ms
        } else {
            u64::MAX
        };
        self.waiting_time = w;
        proof {
            assert(self@ == accumulate(old(self)@, delta_ms as int));
        }
        if self.game_over {
            if self.waiting_time > RESTART_TIME_MS {
                self.restart();
            }
            return;
        }
        if !self.apple_exists {
            self.add_apple();
        }
        let ghost mid = self@;
        if self.waiting_time > MOVING_PERIOD_MS {
            self.update_snake(None);
        }
        proof {
            let acc = accumulate(old(self)@, delta_ms as int);
            if old(self)@.apple is None {
                let a = mid.apple->0;
                assert(placed_apple_ok(acc, a) && tick_if_due(acc.with_apple(Some(a)), self@));
            }
        }
    }

    /// The current score: the number of apples eaten since the last reset.
    pub fn score(&self) -> (r: usize)
        ensures
            r == self@.score,
    {
        self.level
    }

    /// Whether the game is over.
    pub fn is_game_over(&self) -> (r: bool)
        ensures
            r == self@.game_over,
    {
        self.game_over
    }

    /// Whether the game is paused.
    pub fn is_paused(&self) -> (r: bool)
        ensures
            r == self@.paused,
    {
        self.paused
    }

    /// The accumulated waiting time, in milliseconds.
    pub fn waiting_time_ms(&self) -> (r: u64)
        ensures
            r == self@.waiting_time,
    {
        self.waiting_time
    }

    /// The board bounds as (width, height), in cells.
    pub fn size(&self) -> (r: (i32, i32))
        ensures
            r.0 == self@.width,
            r.1 == self@.height,
    {
        (self.width, self.height)
    }

    /// The apple's cell, if an apple currently exists.
    pub fn apple(&self) -> (r: Option<(i32, i32)>)
        ensures
            match r {
                Some(c) => self@.apple == Some(cell_view(c)),
                None => self@.apple is None,
            },
    {
        if self.apple_exists {
            Some((self.apple_x, self.apple_y))
        } else {
            None
        }
    }

    /// The snake, for reading its body and direction; what a renderer
    /// draws.
    pub fn snake(&self) -> (r: &Snake)
        ensures
            r@ == self@.snake,
    {
        &self.snake
    }
}

} // verus!

