use crate::game::SnakeGame;
use crate::term::{key_press, key_pressed, pressed_in, Event, Key};
use crate::ui::{
    button, centered_end, extend_commands, centered_start, command_view, commands_view, text, text_command,
    DrawCommand,
};
use crate::utils::{decimal, lemma_decimal_len_u32, with_number};
use crate::vector::{plus, trunc_div, Vector};
use vstd::prelude::*;
use vstd::string::StringExecFns;

verus! {

/// `n` copies of the border glyph.
pub open spec fn border_line(n: int) -> Seq<char> {
    Seq::new(n as nat, |i: int| '*')
}

/// The frame drawn one cell outside a board of the given size: the top
/// line, then the left and right glyph of each row from 0 to `size.y`,
/// then the bottom line.
pub open spec fn border_around(size: Vector) -> Seq<(Vector, Seq<char>)> {
    let w = size.x as int;
    let h = size.y as int;
    seq![(Vector { x: -1i32, y: -1i32 }, border_line(w + 2))] + Seq::new(
        (2 * (h + 1)) as nat,
        |k: int|
            if k % 2 == 0 {
                (Vector { x: -1i32, y: (k / 2) as i32 }, seq!['*'])
            } else {
                (Vector { x: w as i32, y: (k / 2) as i32 }, seq!['*'])
            },
    ) + seq![(Vector { x: -1i32, y: h as i32 }, border_line(w + 2))]
}

/// Draw commands for the border around a board of the given size.
pub fn calculate_border_around(size: &Vector) -> (r: Vec<DrawCommand>)
    requires
        0 <= size.x <= i32::MAX - 2,
        0 <= size.y < i32::MAX,
    ensures
        commands_view(r@) == border_around(*size),
{
    let inner_width = size.x;
    let inner_height = size.y;
    let outer_width = size.x + 2;
    proof {
        reveal_strlit("*");
    }
    let mut horizontal_border = String::new();
    let mut n: i32 = 0;
    while n < outer_width
        invariant
            0 <= n <= outer_width,
            horizontal_border@ == border_line(n as int),
            "*"@ == seq!['*'],
        decreases outer_width - n,
    {
        horizontal_border.append("*");
        n += 1;
        assert(horizontal_border@ =~= border_line(n as int));
    }
    let mut deets: Vec<DrawCommand> = Vec::new();
    deets.push((Vector::new(-1, -1), horizontal_border.clone()));
    let ghost rows = Seq::new(
        (2 * (inner_height + 1)) as nat,
        |k: int|
            if k % 2 == 0 {
                (Vector { x: -1i32, y: (k / 2) as i32 }, seq!['*'])
            } else {
                (Vector { x: inner_width, y: (k / 2) as i32 }, seq!['*'])
            },
    );
    let mut i: i32 = 0;
    while i < inner_height + 1
        invariant
            0 <= i <= inner_height + 1,
            inner_height == size.y,
            inner_width == size.x,
            0 <= size.y < i32::MAX,
            horizontal_border@ == border_line(size.x + 2),
            "*"@ == seq!['*'],
            commands_view(deets@) =~= seq![(Vector { x: -1i32, y: -1i32 }, border_line(size.x + 2))]
                + rows.take(2 * i),
            rows == Seq::new(
                (2 * (inner_height + 1)) as nat,
                |k: int|
                    if k % 2 == 0 {
                        (Vector { x: -1i32, y: (k / 2) as i32 }, seq!['*'])
                    } else {
                        (Vector { x: inner_width, y: (k / 2) as i32 }, seq!['*'])
                    },
            ),
        decreases inner_height + 1 - i,
    {
        let ghost before = deets@;
        let left = (Vector::new(-1, i), String::from_str("*"));
        let right = (Vector::new(inner_width, i), String::from_str("*"));
        deets.push(left);
        deets.push(right);
        assert(commands_view(deets@) =~= commands_view(before).push(command_view(left)).push(
            command_view(right),
        ));
        assert(rows[2 * i] == (Vector { x: -1i32, y: i }, seq!['*']));
        assert(rows[2 * i + 1] == (Vector { x: inner_width, y: i }, seq!['*']));
        assert(rows.take(2 * i + 2) =~= rows.take(2 * i).push(rows[2 * i]).push(rows[2 * i + 1]));
        i += 1;
        assert(commands_view(deets@) =~= seq![(Vector { x: -1i32, y: -1i32 }, border_line(size.x + 2))]
            + rows.take(2 * i));
    }
    let ghost before = deets@;
    let bottom = (Vector::new(-1, inner_height), horizontal_border);
    deets.push(bottom);
    assert(commands_view(deets@) =~= commands_view(before).push(command_view(bottom)));
    assert(rows.take(2 * i) =~= rows);
    assert(commands_view(deets@) =~= border_around(*size));
    deets
}


/// Width of the board.
pub const GAME_WIDTH: i32 = 20;

/// Height of the board.
pub const GAME_HEIGHT: i32 = 10;

/// The board's size.
pub open spec fn board_size() -> Vector {
    Vector { x: GAME_WIDTH, y: GAME_HEIGHT }
}

/// The screen on show.
#[derive(Debug, Clone, Copy, PartialEq, Eq, Structural)]
pub enum GameScreen {
    Start,
    GameOver,
    Game,
}

/// A terminal size as the terminal reports it, in `u16` cells.
pub open spec fn term_ok(t: Vector) -> bool {
    0 <= t.x <= u16::MAX && 0 <= t.y <= u16::MAX
}

/// A label centred on the middle column, on row `y`.
pub open spec fn mid_column(t: Vector, y: i32) -> Vector {
    Vector { x: (t.x / 2) as i32, y }
}

/// A mouse press of `events` fell on the button labelled `label` at `position`.
pub open spec fn clicked(events: Seq<Event>, position: Vector, label: Seq<char>) -> bool {
    pressed_in(events, centered_start(position, label), centered_end(position, label))
}

/// The start screen: title, "Play" and "Cancel".
pub open spec fn start_draws(t: Vector) -> Seq<(Vector, Seq<char>)> {
    seq![
        text_command(mid_column(t, 5), "Rust Snake!"@),
        text_command(mid_column(t, 8), "Play"@),
        text_command(mid_column(t, 9), "Cancel"@),
    ]
}

/// The game over screen: title, final score and "Play Again".
pub open spec fn game_over_draws(t: Vector, score: i32) -> Seq<(Vector, Seq<char>)> {
    seq![
        text_command(mid_column(t, 5), "Game Over"@),
        text_command(mid_column(t, 6), "Final Score: "@ + decimal(score as nat)),
        text_command(mid_column(t, 8), "Play Again"@),
    ]
}

/// Where the board's origin is drawn: centred across, on row 3.
pub open spec fn board_offset(t: Vector) -> Vector {
    Vector { x: trunc_div(t.x - GAME_WIDTH, 2) as i32, y: 3 }
}

/// Draw commands moved by `off`.
pub open spec fn shifted(cs: Seq<(Vector, Seq<char>)>, off: Vector) -> Seq<(Vector, Seq<char>)> {
    cs.map_values(|c: (Vector, Seq<char>)| (plus(c.0, off), c.1))
}

/// The food's glyph, if the food is placed.
pub open spec fn food_draws(food: Option<Vector>, off: Vector) -> Seq<(Vector, Seq<char>)> {
    match food {
        Some(f) => seq![text_command(plus(f, off), "??"@)],
        None => seq![],
    }
}

/// One glyph per cell of the snake, head first.
pub open spec fn snake_draws(snake: Seq<Vector>, off: Vector) -> Seq<(Vector, Seq<char>)> {
    snake.map_values(|p: Vector| text_command(plus(p, off), "???"@))
}

/// The game screen: border, score, food, snake.
pub open spec fn game_draws(g: SnakeGame, t: Vector) -> Seq<(Vector, Seq<char>)> {
    let off = board_offset(t);
    shifted(border_around(g.size), off) + seq![
        text_command(Vector { x: (1 + off.x) as i32, y: 1 }, "Score: "@ + decimal(g.score as nat)),
    ] + food_draws(g.food_pos, off) + snake_draws(g.snake@, off)
}

/// A game as `SnakeGame::new` makes it on the board of this program.
pub open spec fn fresh(g: SnakeGame) -> bool {
    &&& g.wf()
    &&& g.size == board_size()
    &&& g.snake@ == seq![Vector { x: 0, y: 0 }]
    &&& g.score == 0
    &&& g.food_pos is None
    &&& g.snake_direction == (Vector { x: 0, y: 1 })
}

/// The screens and the game, advanced once per frame.
pub struct App {
    pub screen: GameScreen,
    pub snake_game: SnakeGame,
}

impl App {
    /// The invariant: a sound game on the board of this program.
    pub open spec fn wf(&self) -> bool {
        self.snake_game.wf() && self.snake_game.size == board_size()
    }

    /// The program starts in a fresh game.
    pub fn new() -> (r: Self)
        ensures
            r.wf(),
            r.screen == GameScreen::Game,
            fresh(r.snake_game),
    {
        App { screen: GameScreen::Game, snake_game: SnakeGame::new(Vector::new(GAME_WIDTH, GAME_HEIGHT)) }
    }
}

impl App {
    /// The start screen. Returns its draw commands and whether "Cancel" was
    /// clicked; "Play" starts a fresh game.
    fn start_frame(&mut self, term_size: Vector, events: &Vec<Event>) -> (r: (Vec<DrawCommand>, bool))
        requires
            old(self).wf(),
            term_ok(term_size),
        ensures
            final(self).wf(),
            commands_view(r.0@) == start_draws(term_size),
            r.1 == clicked(events@, mid_column(term_size, 9), "Cancel"@),
            if clicked(events@, mid_column(term_size, 8), "Play"@) {
                final(self).screen == GameScreen::Game && fresh(final(self).snake_game)
            } else {
                *final(self) == *old(self)
            },
    {
        proof {
            reveal_strlit("Rust Snake!");
            reveal_strlit("Play");
            reveal_strlit("Cancel");
        }
        let center_pos = term_size / Vector::new(2, 2);
        let mut comps: Vec<DrawCommand> = Vec::new();
        let title = text(center_pos.set_y(5), String::from_str("Rust Snake!"));
        extend_commands(&mut comps, title);
        let (play, play_clicked) = button(
            Vector::new(term_size.x / 2, 8),
            String::from_str("Play"),
            events,
        );
        extend_commands(&mut comps, play);
        if play_clicked {
            self.screen = GameScreen::Game;
            self.snake_game = SnakeGame::new(Vector::new(GAME_WIDTH, GAME_HEIGHT));
        }
        let (cancel, should_cancel) = button(
            Vector::new(term_size.x / 2, 9),
            String::from_str("Cancel"),
            events,
        );
        extend_commands(&mut comps, cancel);
        assert(commands_view(comps@) =~= start_draws(term_size));
        (comps, should_cancel)
    }

    /// The game over screen. Returns its draw commands; "Play Again"
    /// starts a fresh game.
    fn game_over_frame(&mut self, term_size: Vector, events: &Vec<Event>) -> (r: Vec<DrawCommand>)
        requires
            old(self).wf(),
            term_ok(term_size),
        ensures
            final(self).wf(),
            commands_view(r@) == game_over_draws(term_size, old(self).snake_game.score),
            if clicked(events@, mid_column(term_size, 8), "Play Again"@) {
                final(self).screen == GameScreen::Game && fresh(final(self).snake_game)
            } else {
                *final(self) == *old(self)
            },
    {
        proof {
            reveal_strlit("Game Over");
            reveal_strlit("Final Score: ");
            reveal_strlit("Play Again");
            lemma_decimal_len_u32(self.snake_game.score as u32);
        }
        let center_pos = term_size / Vector::new(2, 2);
        let mut comps: Vec<DrawCommand> = Vec::new();
        let title = text(center_pos.set_y(5), String::from_str("Game Over"));
        extend_commands(&mut comps, title);
        let score_text = with_number("Final Score: ", self.snake_game.score as u32);
        let score = text(center_pos.set_y(6), score_text);
        extend_commands(&mut comps, score);
        let (again, again_clicked) = button(
            Vector::new(term_size.x / 2, 8),
            String::from_str("Play Again"),
            events,
        );
        extend_commands(&mut comps, again);
        if again_clicked {
            self.screen = GameScreen::Game;
            self.snake_game = SnakeGame::new(Vector::new(GAME_WIDTH, GAME_HEIGHT));
        }
        assert(commands_view(comps@) =~= game_over_draws(term_size, old(self).snake_game.score));
        comps
    }
}

/// `new` is `g` with the food placed if it was not.
pub open spec fn food_resolved(g: SnakeGame, new: SnakeGame) -> bool {
    &&& new.snake@ == g.snake@
    &&& new.score == g.score
    &&& new.size == g.size
    &&& new.snake_direction == g.snake_direction
    &&& if g.food_pos is Some {
        new.food_pos == g.food_pos
    } else {
        crate::game::placement_ok(g.snake@, g.size, new.food_pos)
    }
}

impl App {
    /// The game screen: runs one tick of the game, switches to the game
    /// over screen when the tick ends the game, and draws the result.
    fn game_frame(&mut self, term_size: Vector, events: &Vec<Event>) -> (r: Vec<DrawCommand>)
        requires
            old(self).wf(),
            old(self).snake_game.score < i32::MAX,
            term_ok(term_size),
        ensures
            final(self).wf(),
            exists|mid: SnakeGame, ticked: SnakeGame, o: crate::game::SnakeGameTickOutcome|
                old(self).snake_game.turned_and_fed(events@, mid) && #[trigger] mid.stepped(
                    ticked,
                    o,
                ) && food_resolved(ticked, final(self).snake_game) && final(self).screen == (
                if o == crate::game::SnakeGameTickOutcome::GameOver {
                    GameScreen::GameOver
                } else {
                    old(self).screen
                }),
            commands_view(r@) == game_draws(final(self).snake_game, term_size),
    {
        proof {
            reveal_strlit("Score: ");
            reveal_strlit("??");
            reveal_strlit("???");
        }
        let game_size = Vector::new(GAME_WIDTH, GAME_HEIGHT);
        let game_offset = ((term_size - game_size) / Vector::new(2, 2)).set_y(3);
        let border = calculate_border_around(&self.snake_game.size);
        let ghost border_spec = border_around(self.snake_game.size);
        let mut comps: Vec<DrawCommand> = Vec::new();
        let mut i: usize = 0;
        while i < border.len()
            invariant
                0 <= i <= border@.len(),
                commands_view(border@) == border_spec,
                border_spec == border_around(board_size()),
                game_offset == board_offset(term_size),
                term_ok(term_size),
                commands_view(comps@) =~= shifted(border_spec, game_offset).take(i as int),
            decreases border@.len() - i,
        {
            let ghost before = comps@;
            proof {
                assert(command_view(border@[i as int]) == border_spec[i as int]);
                assert(-1 <= border_spec[i as int].0.x <= GAME_WIDTH);
                assert(-1 <= border_spec[i as int].0.y <= GAME_HEIGHT);
            }
            let item = (border[i].0 + game_offset, border[i].1.clone());
            comps.push(item);
            assert(commands_view(comps@) =~= commands_view(before).push(command_view(item)));
            i += 1;
            assert(shifted(border_spec, game_offset).take(i as int) =~= shifted(
                border_spec,
                game_offset,
            ).take(i - 1).push(shifted(border_spec, game_offset)[i - 1]));
        }
        assert(shifted(border_spec, game_offset).take(i as int) =~= shifted(border_spec, game_offset));
        let ghost before_tick = self.snake_game;
        let result = self.snake_game.run_game_tick(events);
        let ghost ticked = self.snake_game;
        if result == crate::game::SnakeGameTickOutcome::GameOver {
            self.screen = GameScreen::GameOver;
        }
        let ghost screen_after = self.screen;
        proof {
            lemma_decimal_len_u32(self.snake_game.score as u32);
        }
        let score_text = with_number("Score: ", self.snake_game.score as u32);
        extend_commands(&mut comps, text(Vector::new(1, 1) + game_offset.set_y(0), score_text));
        let food = self.snake_game.get_food_pos();
        if let Some(f) = food {
            extend_commands(&mut comps, text(f + game_offset, String::from_str("??")));
        }
        let ghost head_part = commands_view(comps@);
        let mut k: usize = 0;
        while k < self.snake_game.snake.len()
            invariant
                0 <= k <= self.snake_game.snake@.len(),
                self.snake_game.wf(),
                self.snake_game.size == board_size(),
                game_offset == board_offset(term_size),
                term_ok(term_size),
                "???"@.len() == 3,
                commands_view(comps@) =~= head_part + snake_draws(self.snake_game.snake@, game_offset).take(k as int),
            decreases self.snake_game.snake@.len() - k,
        {
            let p = self.snake_game.snake[k];
            proof {
                assert(crate::game::in_bounds(self.snake_game.snake@[k as int], self.snake_game.size));
            }
            extend_commands(&mut comps, text(p + game_offset, String::from_str("???")));
            k += 1;
            assert(snake_draws(self.snake_game.snake@, game_offset).take(k as int) =~= snake_draws(
                self.snake_game.snake@,
                game_offset,
            ).take(k - 1).push(snake_draws(self.snake_game.snake@, game_offset)[k - 1]));
        }
        proof {
            assert(snake_draws(self.snake_game.snake@, game_offset).take(k as int) =~= snake_draws(
                self.snake_game.snake@,
                game_offset,
            ));
            let mid = choose|mid: SnakeGame|
                before_tick.turned_and_fed(events@, mid) && #[trigger] mid.stepped(ticked, result);
            assert(mid.stepped(ticked, result));
            assert(commands_view(comps@) =~= game_draws(self.snake_game, term_size));
        }
        comps
    }
}

impl App {
    /// One frame. Returns the frame's draw commands and whether the program
    /// should exit: Ctrl-C exits before anything else; otherwise the screen
    /// on show reads `events`, changes state and draws.
    pub fn tick(&mut self, term_size: Vector, events: &Vec<Event>) -> (r: (Vec<DrawCommand>, bool))
        requires
            old(self).wf(),
            old(self).snake_game.score < i32::MAX,
            term_ok(term_size),
        ensures
            final(self).wf(),
            key_pressed(events@, Key::Ctrl('c')) ==> r.1 && r.0@.len() == 0 && *final(self) == *old(
                self,
            ),
            !key_pressed(events@, Key::Ctrl('c')) ==> match old(self).screen {
                GameScreen::Start => {
                    &&& commands_view(r.0@) == start_draws(term_size)
                    &&& r.1 == clicked(events@, mid_column(term_size, 9), "Cancel"@)
                    &&& if clicked(events@, mid_column(term_size, 8), "Play"@) {
                        final(self).screen == GameScreen::Game && fresh(final(self).snake_game)
                    } else {
                        *final(self) == *old(self)
                    }
                },
                GameScreen::Game => {
                    &&& !r.1
                    &&& commands_view(r.0@) == game_draws(final(self).snake_game, term_size)
                    &&& exists|mid: SnakeGame, ticked: SnakeGame, o: crate::game::SnakeGameTickOutcome|
                        old(self).snake_game.turned_and_fed(events@, mid) && #[trigger] mid.stepped(
                            ticked,
                            o,
                        ) && food_resolved(ticked, final(self).snake_game) && final(self).screen == (
                        if o == crate::game::SnakeGameTickOutcome::GameOver {
                            GameScreen::GameOver
                        } else {
                            GameScreen::Game
                        })
                },
                GameScreen::GameOver => {
                    &&& !r.1
                    &&& commands_view(r.0@) == game_over_draws(term_size, old(self).snake_game.score)
                    &&& if clicked(events@, mid_column(term_size, 8), "Play Again"@) {
                        final(self).screen == GameScreen::Game && fresh(final(self).snake_game)
                    } else {
                        *final(self) == *old(self)
                    }
                },
            },
    {
        if key_press(events, &Key::Ctrl('c')) {
            return (Vec::new(), true);
        }
        match self.screen {
            GameScreen::Start => self.start_frame(term_size, events),
            GameScreen::Game => (self.game_frame(term_size, events), false),
            GameScreen::GameOver => (self.game_over_frame(term_size, events), false),
        }
    }
}

} // verus!
