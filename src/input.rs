//! The keys the game reacts to.

use vstd::prelude::*;
use crate::grid::Direction;

verus! {

/// A pressed key, as far as the game tells keys apart.
#[derive(Clone, Copy, Debug, PartialEq, Eq, Structural)]
pub enum Key {
    Left,
    Right,
    Up,
    Down,
    /// The key that starts a new game once the current one is over.
    Space,
    /// Any other key.
    Other,
}

impl Key {
    /// The direction an arrow key asks for; `None` for the other keys.
    pub open spec fn spec_direction(self) -> Option<Direction> {
        match self {
            Key::Left => Some(Direction::Left),
            Key::Right => Some(Direction::Right),
            Key::Up => Some(Direction::Up),
            Key::Down => Some(Direction::Down),
            _ => None,
        }
    }

    /// The direction an arrow key asks for; `None` for the other keys.
    pub fn direction(&self) -> (r: Option<Direction>)
        ensures
            r == self.spec_direction(),
    {
        match self {
            Key::Left => Some(Direction::Left),
            Key::Right => Some(Direction::Right),
            Key::Up => Some(Direction::Up),
            Key::Down => Some(Direction::Down),
            _ => None,
        }
    }
}

/// The direction after `key` is pressed while moving in direction `d`: an
/// arrow key is taken unless it points straight back, every other key leaves
/// `d` as it is.
pub open spec fn turned(d: Direction, key: Key) -> Direction {
    match key.spec_direction() {
        Some(n) => if n == d.opposite() { d } else { n },
        None => d,
    }
}

} // verus!
