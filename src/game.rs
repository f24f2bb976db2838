use crate::term::{key_press, key_pressed, Event, Key};
use crate::utils::random_between;
use crate::vector::Vector;
use vstd::prelude::*;

verus! {

/// What a tick of the game came to.
#[derive(Debug, Clone, Copy, PartialEq, Eq, Structural)]
pub enum SnakeGameTickOutcome {
    Nothing,
    GameOver,
}

/// A game of snake on a board of `size.x` by `size.y` cells.
///
/// `snake` lists the occupied cells head first. `food_pos` is `None` while
/// the food waits to be placed.
pub struct SnakeGame {
    pub snake: Vec<Vector>,
    pub food_pos: Option<Vector>,
    pub score: i32,
    pub size: Vector,
    pub snake_direction: Vector,
}

/// Random draws made before falling back to a scan for a free cell.
pub const FOOD_ATTEMPTS: u32 = 64;

/// The cell `p` lies on a board of the given size.
pub open spec fn in_bounds(p: Vector, size: Vector) -> bool {
    0 <= p.x < size.x && 0 <= p.y < size.y
}

/// One of the four unit steps.
pub open spec fn is_direction(d: Vector) -> bool {
    (d.x == 0 && (d.y == 1 || d.y == -1)) || (d.y == 0 && (d.x == 1 || d.x == -1))
}

/// No cell appears twice.
pub open spec fn distinct(s: Seq<Vector>) -> bool {
    forall|i: int, j: int| 0 <= i < j < s.len() ==> s[i] != s[j]
}

/// `p` is a cell where food may be placed.
pub open spec fn free_cell(snake: Seq<Vector>, size: Vector, p: Vector) -> bool {
    in_bounds(p, size) && !snake.contains(p)
}

/// Every cell of the board is taken by the snake.
pub open spec fn board_full(snake: Seq<Vector>, size: Vector) -> bool {
    forall|p: Vector| #[trigger] in_bounds(p, size) ==> snake.contains(p)
}

/// What a food placement may give: a free cell, or nothing on a full board.
pub open spec fn placement_ok(snake: Seq<Vector>, size: Vector, food: Option<Vector>) -> bool {
    match food {
        Some(p) => free_cell(snake, size, p),
        None => board_full(snake, size),
    }
}

/// The direction after reading the arrow keys of `events`: a key turns the
/// snake only onto the axis it is not moving along, and Up, Down, Left,
/// Right are tried in that order.
pub open spec fn next_direction(d: Vector, events: Seq<Event>) -> Vector {
    if key_pressed(events, Key::Up) && d.y == 0 {
        Vector { x: 0, y: -1i32 }
    } else if key_pressed(events, Key::Down) && d.y == 0 {
        Vector { x: 0, y: 1 }
    } else if key_pressed(events, Key::Left) && d.x == 0 {
        Vector { x: -1i32, y: 0 }
    } else if key_pressed(events, Key::Right) && d.x == 0 {
        Vector { x: 1, y: 0 }
    } else {
        d
    }
}

/// The cell one step from `head` along `d`.
pub open spec fn step_from(head: Vector, d: Vector) -> Vector {
    Vector { x: (head.x + d.x) as i32, y: (head.y + d.y) as i32 }
}

/// Moving the head to `next` ends the game.
pub open spec fn collides(snake: Seq<Vector>, size: Vector, next: Vector) -> bool {
    !in_bounds(next, size) || snake.contains(next)
}

/// The snake after its head moved to `next`: one longer when it ate, else
/// the same length with the tail cell left.
pub open spec fn moved(snake: Seq<Vector>, next: Vector, ate: bool) -> Seq<Vector> {
    if ate {
        seq![next] + snake
    } else {
        seq![next] + snake.drop_last()
    }
}

impl SnakeGame {
    /// The game's invariant.
    pub open spec fn wf(&self) -> bool {
        &&& self.snake@.len() >= 1
        &&& distinct(self.snake@)
        &&& forall|i: int| 0 <= i < self.snake@.len() ==> in_bounds(#[trigger] self.snake@[i], self.size)
        &&& is_direction(self.snake_direction)
        &&& self.score >= 0
        &&& self.food_pos matches Some(f) ==> free_cell(self.snake@, self.size, f)
    }

    /// The cell the head moves to next.
    pub open spec fn next_head(&self) -> Vector {
        step_from(self.snake@[0], self.snake_direction)
    }

    /// `new` is `self` after moving one step with the food in place, and `r`
    /// says how that came out.
    pub open spec fn stepped(&self, new: SnakeGame, r: SnakeGameTickOutcome) -> bool {
        let next = self.next_head();
        &&& new.size == self.size
        &&& new.snake_direction == self.snake_direction
        &&& if collides(self.snake@, self.size, next) {
            &&& r == SnakeGameTickOutcome::GameOver
            &&& new.snake@ == self.snake@
            &&& new.score == self.score
            &&& new.food_pos == self.food_pos
        } else {
            let ate = self.food_pos == Some(next);
            &&& r == SnakeGameTickOutcome::Nothing
            &&& new.snake@ == moved(self.snake@, next, ate)
            &&& new.score == if ate { self.score + 1 } else { self.score as int }
            &&& new.food_pos == if ate { None } else { self.food_pos }
        }
    }

    /// `mid` is `self` after reading the keys of `events` and placing the
    /// food if none was placed.
    pub open spec fn turned_and_fed(&self, events: Seq<Event>, mid: SnakeGame) -> bool {
        &&& mid.snake@ == self.snake@
        &&& mid.score == self.score
        &&& mid.size == self.size
        &&& mid.snake_direction == next_direction(self.snake_direction, events)
        &&& if self.food_pos is Some {
            mid.food_pos == self.food_pos
        } else {
            placement_ok(self.snake@, self.size, mid.food_pos)
        }
    }

    /// A fresh game: a snake of one cell at the origin heading down, no
    /// score, food not placed yet.
    pub fn new(size: Vector) -> (r: Self)
        requires
            size.x >= 1,
            size.y >= 1,
        ensures
            r.wf(),
            r.size == size,
            r.snake@ == seq![Vector { x: 0, y: 0 }],
            r.score == 0,
            r.food_pos is None,
            r.snake_direction == (Vector { x: 0, y: 1 }),
    {
        let r = SnakeGame {
            size,
            snake: vec![Vector::new(0, 0)],
            score: 0,
            food_pos: None,
            snake_direction: Vector::new(0, 1),
        };
        assert(r.snake@ =~= seq![Vector { x: 0, y: 0 }]);
        r
    }
}

impl SnakeGame {
    /// The food's cell, placing it first if it is not placed yet. `None`
    /// only when the snake covers the whole board.
    pub fn get_food_pos(&mut self) -> (r: Option<Vector>)
        requires
            old(self).wf(),
        ensures
            final(self).wf(),
            final(self).food_pos == r,
            final(self).snake@ == old(self).snake@,
            final(self).score == old(self).score,
            final(self).size == old(self).size,
            final(self).snake_direction == old(self).snake_direction,
            old(self).food_pos is Some ==> r == old(self).food_pos,
            old(self).food_pos is None ==> placement_ok(old(self).snake@, old(self).size, r),
    {
        if self.food_pos.is_none() {
            assert(in_bounds(self.snake@[0], self.size));
            self.food_pos = self.calculate_food_position();
        }
        self.food_pos
    }

    /// A free cell for the food: random draws first, then the first free
    /// cell row by row. `None` when no cell is free.
    pub fn calculate_food_position(&self) -> (r: Option<Vector>)
        requires
            self.size.x >= 1,
            self.size.y >= 1,
        ensures
            placement_ok(self.snake@, self.size, r),
    {
        let mut attempt: u32 = 0;
        while attempt < FOOD_ATTEMPTS
            invariant
                self.size.x >= 1,
                self.size.y >= 1,
            decreases FOOD_ATTEMPTS - attempt,
        {
            let pos = Vector::new(random_between(0, self.size.x), random_between(0, self.size.y));
            if !occupies(&self.snake, pos) {
                return Some(pos);
            }
            attempt += 1;
        }
        first_free_cell(&self.snake, self.size)
    }
}

impl SnakeGame {
    /// Moves the snake one step with the food as it stands: the game ends
    /// when the head would leave the board or enter the snake, and nothing
    /// changes then; otherwise the head advances, and the snake grows and
    /// the score rises by one when the head reaches the food.
    pub fn move_snake(&mut self) -> (r: SnakeGameTickOutcome)
        requires
            old(self).wf(),
            old(self).score < i32::MAX,
        ensures
            final(self).wf(),
            old(self).stepped(*final(self), r),
    {
        let head_pos = self.snake[0];
        proof {
            assert(in_bounds(self.snake@[0], self.size));
        }
        let next_pos = head_pos + self.snake_direction;
        if next_pos.x < 0 || next_pos.y < 0 || next_pos.x >= self.size.x || next_pos.y >= self.size.y {
            return SnakeGameTickOutcome::GameOver;
        }
        if occupies(&self.snake, next_pos) {
            return SnakeGameTickOutcome::GameOver;
        }
        let ghost old_snake = self.snake@;
        let food_touched = match self.food_pos {
            Some(f) => f == next_pos,
            None => false,
        };
        if food_touched {
            self.score = self.score + 1;
            self.food_pos = None;
        } else {
            self.snake.pop();
        }
        self.snake.insert(0, next_pos);
        proof {
            let ns = self.snake@;
            assert(ns =~= moved(old_snake, next_pos, food_touched));
            assert forall|i: int| 0 <= i < ns.len() implies in_bounds(#[trigger] ns[i], self.size) by {
                if i > 0 {
                    assert(ns[i] == old_snake[i - 1]);
                }
            }
            assert forall|i: int, j: int| 0 <= i < j < ns.len() implies ns[i] != ns[j] by {
                assert(ns[j] == old_snake[j - 1]);
                if i > 0 {
                    assert(ns[i] == old_snake[i - 1]);
                } else {
                    assert(old_snake.contains(ns[j]));
                }
            }
            if let Some(f) = self.food_pos {
                if ns.contains(f) {
                    let k = choose|k: int| 0 <= k < ns.len() && ns[k] == f;
                    if k > 0 {
                        assert(ns[k] == old_snake[k - 1]);
                    }
                }
            }
        }
        SnakeGameTickOutcome::Nothing
    }

    /// One tick: the arrow keys of `events` may turn the snake, the food is
    /// placed if it is not, and the snake moves one step.
    pub fn run_game_tick(&mut self, key_events: &Vec<Event>) -> (r: SnakeGameTickOutcome)
        requires
            old(self).wf(),
            old(self).score < i32::MAX,
        ensures
            final(self).wf(),
            exists|mid: SnakeGame|
                old(self).turned_and_fed(key_events@, mid) && #[trigger] mid.stepped(*final(self), r),
            final(self).size == old(self).size,
            final(self).snake_direction == next_direction(old(self).snake_direction, key_events@),
            (r == SnakeGameTickOutcome::GameOver) == collides(
                old(self).snake@,
                old(self).size,
                step_from(old(self).snake@[0], final(self).snake_direction),
            ),
            r == SnakeGameTickOutcome::GameOver ==> final(self).snake@ == old(self).snake@
                && final(self).score == old(self).score,
            r == SnakeGameTickOutcome::Nothing ==> {
                let next = step_from(old(self).snake@[0], final(self).snake_direction);
                if final(self).score == old(self).score + 1 {
                    &&& final(self).snake@ == seq![next] + old(self).snake@
                    &&& final(self).food_pos is None
                } else {
                    &&& final(self).score == old(self).score
                    &&& final(self).snake@ == seq![next] + old(self).snake@.drop_last()
                }
            },
            r == SnakeGameTickOutcome::Nothing && old(self).food_pos is Some ==> {
                let next = step_from(old(self).snake@[0], final(self).snake_direction);
                let ate = old(self).food_pos == Some(next);
                &&& final(self).snake@ == moved(old(self).snake@, next, ate)
                &&& final(self).score == if ate { old(self).score + 1 } else { old(self).score as int }
                &&& final(self).food_pos == if ate { None } else { old(self).food_pos }
            },
    {
        if key_press(key_events, &Key::Up) && self.snake_direction.y == 0 {
            self.snake_direction = Vector::new(0, -1);
        } else if key_press(key_events, &Key::Down) && self.snake_direction.y == 0 {
            self.snake_direction = Vector::new(0, 1);
        } else if key_press(key_events, &Key::Left) && self.snake_direction.x == 0 {
            self.snake_direction = Vector::new(-1, 0);
        } else if key_press(key_events, &Key::Right) && self.snake_direction.x == 0 {
            self.snake_direction = Vector::new(1, 0);
        }
        let _ = self.get_food_pos();
        let ghost mid = *self;
        let r = self.move_snake();
        assert(mid.stepped(*self, r));
        r
    }
}

/// One of the four arrow keys.
pub open spec fn is_arrow(k: Key) -> bool {
    k == Key::Up || k == Key::Down || k == Key::Left || k == Key::Right
}

/// The direction an arrow key asks for.
pub open spec fn arrow_direction(k: Key) -> Vector {
    match k {
        Key::Up => Vector { x: 0, y: -1i32 },
        Key::Down => Vector { x: 0, y: 1 },
        Key::Left => Vector { x: -1i32, y: 0 },
        _ => Vector { x: 1, y: 0 },
    }
}

/// The component of `d` along the axis of the arrow key `k` is zero.
pub open spec fn axis_free(d: Vector, k: Key) -> bool {
    if k == Key::Up || k == Key::Down { d.y == 0 } else { d.x == 0 }
}

/// An arrow key pressed alone turns the snake exactly when the snake is not
/// already moving along that key's axis.
pub proof fn lemma_turn_accepted_iff_axis_free(d: Vector, k: Key)
    requires
        is_direction(d),
        is_arrow(k),
    ensures
        next_direction(d, seq![Event::Key(k)]) == if axis_free(d, k) {
            arrow_direction(k)
        } else {
            d
        },
{
    let events = seq![Event::Key(k)];
    assert(events[0] == Event::Key(k));
    assert(key_pressed(events, k));
    assert forall|other: Key| other != k implies !key_pressed(events, other) by {
        if key_pressed(events, other) {
            let i = choose|i: int| 0 <= i < events.len() && events[i] == Event::Key(other);
            assert(i == 0);
        }
    }
}

/// Whatever keys are pressed, the snake keeps a unit direction and never
/// turns straight back.
pub proof fn lemma_never_reverses(d: Vector, events: Seq<Event>)
    requires
        is_direction(d),
    ensures
        is_direction(next_direction(d, events)),
        next_direction(d, events) != (Vector { x: (-d.x) as i32, y: (-d.y) as i32 }),
{
}

/// A step that would leave the board ends the game and leaves the snake.
pub proof fn lemma_leaving_board_ends_game(g: SnakeGame, new: SnakeGame, r: SnakeGameTickOutcome)
    requires
        g.stepped(new, r),
        !in_bounds(g.next_head(), g.size),
    ensures
        r == SnakeGameTickOutcome::GameOver,
        new.snake@ == g.snake@,
        new.score == g.score,
{
}

/// A step into the snake's own body ends the game; in particular a step of
/// the head onto the segment behind it.
pub proof fn lemma_biting_ends_game(g: SnakeGame, new: SnakeGame, r: SnakeGameTickOutcome, i: int)
    requires
        g.stepped(new, r),
        0 <= i < g.snake@.len(),
        g.next_head() == g.snake@[i],
    ensures
        r == SnakeGameTickOutcome::GameOver,
{
    assert(g.snake@.contains(g.snake@[i]));
}

/// A step that goes on grows the snake by one and the score by one when the
/// head reaches the food, and keeps both otherwise.
pub proof fn lemma_growth_only_on_food(g: SnakeGame, new: SnakeGame, r: SnakeGameTickOutcome)
    requires
        g.wf(),
        g.stepped(new, r),
        r == SnakeGameTickOutcome::Nothing,
    ensures
        g.food_pos == Some(g.next_head()) ==> new.snake@.len() == g.snake@.len() + 1 && new.score
            == g.score + 1,
        g.food_pos != Some(g.next_head()) ==> new.snake@.len() == g.snake@.len() && new.score
            == g.score,
{
}

/// The first cell, row by row, that the snake does not take.
pub fn first_free_cell(snake: &Vec<Vector>, size: Vector) -> (r: Option<Vector>)
    ensures
        placement_ok(snake@, size, r),
        r matches Some(p) ==> forall|q: Vector|
            #[trigger] in_bounds(q, size) && (q.y < p.y || (q.y == p.y && q.x < p.x))
                ==> snake@.contains(q),
{
    let mut y: i32 = 0;
    while y < size.y
        invariant
            0 <= y,
            size.y <= 0 || y <= size.y,
            forall|p: Vector| #[trigger] in_bounds(p, size) && p.y < y ==> snake@.contains(p),
        decreases size.y - y,
    {
        let mut x: i32 = 0;
        while x < size.x
            invariant
                0 <= y < size.y,
                0 <= x,
                size.x <= 0 || x <= size.x,
                forall|p: Vector| #[trigger] in_bounds(p, size) && p.y < y ==> snake@.contains(p),
                forall|p: Vector| #[trigger] in_bounds(p, size) && p.y == y && p.x < x ==> snake@.contains(p),
            decreases size.x - x,
        {
            let pos = Vector::new(x, y);
            if !occupies(snake, pos) {
                return Some(pos);
            }
            x += 1;
        }
        y += 1;
    }
    None
}

/// Whether the snake takes the cell `p`.
pub fn occupies(snake: &Vec<Vector>, p: Vector) -> (r: bool)
    ensures
        r == snake@.contains(p),
{
    let mut i: usize = 0;
    while i < snake.len()
        invariant
            0 <= i <= snake@.len(),
            forall|j: int| 0 <= j < i ==> snake@[j] != p,
        decreases snake@.len() - i,
    {
        if snake[i] == p {
            return true;
        }
        i += 1;
    }
    false
}

} // verus!
