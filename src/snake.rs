//! The snake: an ordered body of cells, head first, and a direction.

use std::collections::VecDeque;
use vstd::prelude::*;
use crate::grid::{behind, is_collision, step, step_back, wrapped_step, Direction, Point};
use crate::input::{turned, Key};

verus! {

/// The body after one move in direction `d`: a new head one step ahead of
/// the old one, and the last cell given up.
pub open spec fn advanced(body: Seq<Point>, d: Direction) -> Seq<Point> {
    seq![step(body[0], d)] + body.drop_last()
}

/// The body with one more cell behind its last one, against direction `d`.
pub open spec fn grown(body: Seq<Point>, d: Direction) -> Seq<Point> {
    body.push(behind(body.last(), d))
}

/// The head shares its cell with another part of the body.
pub open spec fn collides(body: Seq<Point>) -> bool {
    exists|i: int| 1 <= i < body.len() && #[trigger] body[i] == body[0]
}

/// The snake. `body[0]` is its head and the back of `body` its tail.
pub struct Snake {
    pub body: VecDeque<Point>,
    pub dir: Direction,
}

impl Snake {
    /// The body is not empty and the head lies on the field.
    pub open spec fn wf(&self) -> bool {
        &&& self.body@.len() > 0
        &&& self.body@[0].in_grid()
    }

    /// Moves the snake one cell in its direction, wrapping around the edges;
    /// its length stays the same.
    pub fn update(&mut self)
        requires
            old(self).wf(),
        ensures
            final(self).wf(),
            final(self).body@ == advanced(old(self).body@, old(self).dir),
            final(self).body@.len() == old(self).body@.len(),
            final(self).dir == old(self).dir,
    {
        let new_head = wrapped_step(self.body[0], self.dir);
        self.body.pop_back();
        self.body.push_front(new_head);
    }

    /// Turns the snake as `key` asks, unless it would turn straight back.
    pub fn on_press(&mut self, key: Key)
        ensures
            final(self).body@ == old(self).body@,
            final(self).dir == turned(old(self).dir, key),
    {
        match key.direction() {
            Some(d) => {
                if !is_opposite(d, self.dir) {
                    self.dir = d;
                }
            },
            None => {},
        }
    }

    /// Adds one cell behind the tail, against the direction of movement.
    pub fn grow(&mut self)
        requires
            old(self).wf(),
            old(self).body@.last().steppable(),
        ensures
            final(self).wf(),
            final(self).body@ == grown(old(self).body@, old(self).dir),
            final(self).body@.len() == old(self).body@.len() + 1,
            final(self).dir == old(self).dir,
    {
        let n = self.body.len();
        let new_tail = step_back(self.body[n - 1], self.dir);
        self.body.push_back(new_tail);
    }

    /// Whether the head has run into another part of the body.
    pub fn will_die(&self) -> (r: bool)
        requires
            self.wf(),
        ensures
            r == collides(self.body@),
    {
        let head = self.body[0];
        let n = self.body.len();
        let mut i: usize = 1;
        while i < n
            invariant
                1 <= i <= n,
                n == self.body@.len(),
                head == self.body@[0],
                forall|j: int| 1 <= j < i ==> self.body@[j] != head,
            decreases n - i,
        {
            if is_collision(&head, &self.body[i]) {
                return true;
            }
            i = i + 1;
        }
        false
    }
}

/// Whether `a` points straight back along `b`.
fn is_opposite(a: Direction, b: Direction) -> (r: bool)
    ensures
        r == (a == b.opposite()),
{
    match (a, b) {
        (Direction::Left, Direction::Right) => true,
        (Direction::Right, Direction::Left) => true,
        (Direction::Up, Direction::Down) => true,
        (Direction::Down, Direction::Up) => true,
        _ => false,
    }
}

} // verus!
