//! Facts about the game's rules that hold for every input.

use vstd::prelude::*;
use crate::game::{eats, initial, pressed, start_cell, tick, GameState, GameView};
use crate::grid::{step, Direction, Point};
use crate::input::{turned, Key};
use crate::snake::{advanced, collides, grown};

verus! {

/// A move keeps the snake on the field, and stepping over an edge re-enters
/// the field at the opposite edge, in the same row or column.
pub proof fn wraparound(p: Point)
    requires
        p.in_grid(),
    ensures
        step(p, Direction::Left).in_grid(),
        step(p, Direction::Right).in_grid(),
        step(p, Direction::Up).in_grid(),
        step(p, Direction::Down).in_grid(),
        p.x == 9 ==> step(p, Direction::Right) == (Point { x: 0, y: p.y }),
        p.x == 0 ==> step(p, Direction::Left) == (Point { x: 9, y: p.y }),
        p.y == 0 ==> step(p, Direction::Up) == (Point { x: p.x, y: 9 }),
        p.y == 9 ==> step(p, Direction::Down) == (Point { x: p.x, y: 0 }),
{
}

/// Moving keeps the length of the body; growing adds exactly one cell.
pub proof fn length_laws(body: Seq<Point>, d: Direction)
    requires
        body.len() > 0,
    ensures
        advanced(body, d).len() == body.len(),
        grown(body, d).len() == body.len() + 1,
{
}

/// A key pointing straight back leaves the direction as it is; any other
/// arrow key sets the direction it points to.
pub proof fn reversal_guard(d: Direction, key: Key)
    ensures
        key.spec_direction() == Some(d.opposite()) ==> turned(d, key) == d,
        key.spec_direction() is Some && key.spec_direction() != Some(d.opposite()) ==> turned(
            d,
            key,
        ) == key.spec_direction().unwrap(),
{
}

/// A head that re-enters a cell of the rest of the body is a collision.
pub proof fn reentry_collides(body: Seq<Point>, i: int)
    requires
        1 <= i < body.len(),
        body[i] == body[0],
    ensures
        collides(body),
{
}

/// A body whose cells are all distinct is no collision.
pub proof fn distinct_body_survives(body: Seq<Point>)
    requires
        forall|i: int, j: int| 0 <= i < j < body.len() ==> body[i] != body[j],
    ensures
        !collides(body),
{
    assert forall|i: int| 1 <= i < body.len() implies #[trigger] body[i] != body[0] by {
        assert(body[0] != body[i]);
    }
}

/// A tick in which the snake reaches the food scores exactly one point, grows
/// the snake by exactly one cell and moves the food to the freshly drawn cell.
pub proof fn eating_scores_and_grows(g: GameView, fresh: Point)
    requires
        g.wf(),
        g.state == GameState::Active,
        eats(g),
    ensures
        tick(g, fresh).score == g.score + 1,
        tick(g, fresh).body.len() == g.body.len() + 1,
        tick(g, fresh).food == fresh,
{
}

/// A tick in which the snake does not reach the food keeps the score, the
/// food and the length of the body.
pub proof fn moving_keeps_score_and_length(g: GameView, fresh: Point)
    requires
        g.wf(),
        !eats(g),
    ensures
        tick(g, fresh).score == g.score,
        tick(g, fresh).body.len() == g.body.len(),
        tick(g, fresh).food == g.food,
{
}

/// Once the game is over, every key but space changes nothing, and space
/// starts a new session: play goes on, no score, a one-cell snake at the
/// start cell, and the food at the freshly drawn cell.
pub proof fn restart(g: GameView, key: Key, fresh: Point)
    requires
        g.state == GameState::Inactive,
    ensures
        key != Key::Space ==> pressed(g, key, fresh) == g,
        key == Key::Space ==> pressed(g, key, fresh) == initial(fresh),
        key == Key::Space ==> pressed(g, key, fresh).state == GameState::Active,
        key == Key::Space ==> pressed(g, key, fresh).score == 0,
        key == Key::Space ==> pressed(g, key, fresh).body == seq![start_cell()],
        key == Key::Space ==> pressed(g, key, fresh).food == fresh,
{
}

/// Once the game is over, ticks change nothing.
pub proof fn over_is_frozen(g: GameView, fresh: Point)
    requires
        g.state == GameState::Inactive,
    ensures
        tick(g, fresh) == g,
{
}

} // verus!
