//! One game session: the snake, the food, the score and whether play goes on.

use std::collections::VecDeque;
use vstd::prelude::*;
use crate::food::{spawnable, Food};
use crate::grid::{is_collision, Direction, Point};
use crate::input::{turned, Key};
use crate::snake::{advanced, collides, grown, Snake};

verus! {

/// Whether the game is being played or is over.
#[derive(Clone, Copy, Debug, PartialEq, Eq, Structural)]
pub enum GameState {
    Active,
    Inactive,
}

/// The mathematical content of a `Game`.
pub struct GameView {
    pub body: Seq<Point>,
    pub dir: Direction,
    pub food: Point,
    pub score: nat,
    pub state: GameState,
}

/// The cell where a new snake starts.
pub open spec fn start_cell() -> Point {
    Point { x: 2, y: 5 }
}

/// A new session: a snake of one cell at the start cell moving right, the
/// food at `food`, no score, play going on.
pub open spec fn initial(food: Point) -> GameView {
    GameView {
        body: seq![start_cell()],
        dir: Direction::Right,
        food,
        score: 0,
        state: GameState::Active,
    }
}

/// The head reaches the food on the next move.
pub open spec fn eats(g: GameView) -> bool {
    advanced(g.body, g.dir)[0] == g.food
}

/// The session after one update tick, where `fresh` is the cell the food
/// moves to if it is eaten. Nothing changes once the game is over. Otherwise
/// the snake moves; if its head lands on the food, the score goes up by one,
/// the food moves to `fresh` and the snake grows; the game is over when the
/// head then shares a cell with the rest of the body.
pub open spec fn tick(g: GameView, fresh: Point) -> GameView {
    if g.state == GameState::Inactive {
        g
    } else {
        let moved = advanced(g.body, g.dir);
        let body = if eats(g) { grown(moved, g.dir) } else { moved };
        GameView {
            body,
            dir: g.dir,
            food: if eats(g) { fresh } else { g.food },
            score: if eats(g) { g.score + 1 } else { g.score },
            state: if collides(body) { GameState::Inactive } else { GameState::Active },
        }
    }
}

/// The session after `key` is pressed, where `fresh` is the food cell of a
/// new session. During play the key may turn the snake; once the game is
/// over, the space key starts a new session and every other key is ignored.
pub open spec fn pressed(g: GameView, key: Key, fresh: Point) -> GameView {
    match g.state {
        GameState::Active => GameView { dir: turned(g.dir, key), ..g },
        GameState::Inactive => if key == Key::Space { initial(fresh) } else { g },
    }
}

impl GameView {
    /// The body is not empty; every cell but the last lies on the field and
    /// the last at most one cell off it; each point scored added a cell.
    pub open spec fn wf(self) -> bool {
        &&& self.body.len() > 0
        &&& forall|i: int| 0 <= i < self.body.len() - 1 ==> (#[trigger] self.body[i]).in_grid()
        &&& self.body.last().near_grid()
        &&& self.body[0].in_grid()
        &&& self.score < self.body.len()
    }
}

/// A game session.
pub struct Game {
    pub snake: Snake,
    pub food: Food,
    pub score: u64,
    pub state: GameState,
}

impl View for Game {
    type V = GameView;

    open spec fn view(&self) -> GameView {
        GameView {
            body: self.snake.body@,
            dir: self.snake.dir,
            food: self.food.coord,
            score: self.score as nat,
            state: self.state,
        }
    }
}

impl Game {
    /// The session's content is well formed; every operation keeps it so.
    pub open spec fn wf(&self) -> bool {
        self@.wf()
    }

    /// A new session, with the food at a random cell.
    pub fn new() -> (r: Game)
        ensures
            r.wf(),
            r@ == initial(r.food.coord),
            spawnable(r.food.coord),
    {
        let mut food = Food::new();
        food.spawn();
        Game { snake: initial_snake(), food, score: 0, state: GameState::Active }
    }

    /// Runs one update tick; see `tick`.
    pub fn update(&mut self)
        requires
            old(self).wf(),
        ensures
            final(self).wf(),
            final(self)@ == tick(old(self)@, final(self).food.coord),
            old(self).state == GameState::Active && eats(old(self)@) ==> spawnable(
                final(self).food.coord,
            ),
    {
        if self.state == GameState::Active {
            let ghost g = self@;
            let len = self.snake.body.len();
            self.snake.update();
            assert(forall|i: int| 0 <= i < self.snake.body@.len() ==> (#[trigger] self.snake.body@[i]).in_grid()) by {
                assert forall|i: int| 0 <= i < self.snake.body@.len() implies (#[trigger] self.snake.body@[i]).in_grid() by {
                    if i > 0 {
                        assert(self.snake.body@[i] == g.body[i - 1]);
                    }
                }
            }
            if is_collision(&self.snake.body[0], &self.food.coord) {
                self.score = self.score + 1;
                self.food.spawn();
                self.snake.grow();
                assert(self.snake.body@[len as int] == self.snake.body@.last());
            }
            if self.snake.will_die() {
                self.end();
            }
        }
    }

    /// Handles a key press; see `pressed`.
    pub fn on_press(&mut self, key: Key)
        requires
            old(self).wf(),
        ensures
            final(self).wf(),
            final(self)@ == pressed(old(self)@, key, final(self).food.coord),
            old(self).state == GameState::Inactive && key == Key::Space ==> spawnable(
                final(self).food.coord,
            ),
    {
        match self.state {
            GameState::Active => self.snake.on_press(key),
            GameState::Inactive => {
                if key == Key::Space {
                    self.reset();
                }
            },
        }
    }

    /// Ends the game; the snake, the food and the score stay as they are.
    pub fn end(&mut self)
        ensures
            final(self)@ == (GameView { state: GameState::Inactive, ..old(self)@ }),
    {
        self.state = GameState::Inactive;
    }

    /// Starts a new session, with the food at a random cell.
    pub fn reset(&mut self)
        ensures
            final(self).wf(),
            final(self)@ == initial(final(self).food.coord),
            spawnable(final(self).food.coord),
    {
        self.snake = initial_snake();
        self.food.spawn();
        self.score = 0;
        self.state = GameState::Active;
    }
}

/// A snake of one cell at the start cell, moving right.
fn initial_snake() -> (r: Snake)
    ensures
        r.body@ == seq![start_cell()],
        r.dir == Direction::Right,
{
    let mut body = VecDeque::new();
    body.push_back(Point { x: 2, y: 5 });
    Snake { body, dir: Direction::Right }
}

} // verus!
