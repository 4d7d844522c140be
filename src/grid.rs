//! Cells of the playing field and the directions the snake can move in.

use vstd::prelude::*;

verus! {

/// Number of cells along each side of the square playing field.
pub const GRID_SIZE: i32 = 10;

/// A cell of the playing field; `x` grows to the right, `y` grows downwards.
#[derive(Clone, Copy, Debug, PartialEq, Eq, Structural)]
pub struct Point {
    pub x: i32,
    pub y: i32,
}

impl Point {
    /// The cell lies on the playing field.
    pub open spec fn in_grid(self) -> bool {
        0 <= self.x < GRID_SIZE && 0 <= self.y < GRID_SIZE
    }

    /// The cell lies on the playing field or in the ring of cells around it.
    pub open spec fn near_grid(self) -> bool {
        -1 <= self.x <= GRID_SIZE && -1 <= self.y <= GRID_SIZE
    }

    /// Both neighbours of the cell in each axis are representable.
    pub open spec fn steppable(self) -> bool {
        i32::MIN < self.x < i32::MAX && i32::MIN < self.y < i32::MAX
    }
}

/// Two cells collide when they are the same cell.
pub fn is_collision(p1: &Point, p2: &Point) -> (r: bool)
    ensures
        r == (*p1 == *p2),
{
    p1.x == p2.x && p1.y == p2.y
}

/// A direction of movement on the grid.
#[derive(Clone, Copy, Debug, PartialEq, Eq, Structural)]
pub enum Direction {
    Left,
    Right,
    Up,
    Down,
}

impl Direction {
    /// The direction pointing the other way.
    pub open spec fn opposite(self) -> Direction {
        match self {
            Direction::Left => Direction::Right,
            Direction::Right => Direction::Left,
            Direction::Up => Direction::Down,
            Direction::Down => Direction::Up,
        }
    }

    /// Horizontal component of one step in this direction.
    pub open spec fn dx(self) -> int {
        match self {
            Direction::Left => -1,
            Direction::Right => 1,
            _ => 0,
        }
    }

    /// Vertical component of one step in this direction.
    pub open spec fn dy(self) -> int {
        match self {
            Direction::Up => -1,
            Direction::Down => 1,
            _ => 0,
        }
    }
}

/// The cell one step from `p` in direction `d`, wrapping around each edge of
/// the field independently.
pub open spec fn step(p: Point, d: Direction) -> Point {
    Point {
        x: ((p.x + d.dx()) % (GRID_SIZE as int)) as i32,
        y: ((p.y + d.dy()) % (GRID_SIZE as int)) as i32,
    }
}

/// The cell one step from `p` against direction `d`, without wrapping.
pub open spec fn behind(p: Point, d: Direction) -> Point {
    Point { x: (p.x - d.dx()) as i32, y: (p.y - d.dy()) as i32 }
}

/// Moves `p` one cell in direction `d`, re-entering the field on the opposite
/// side when it steps over an edge.
pub fn wrapped_step(p: Point, d: Direction) -> (r: Point)
    requires
        p.in_grid(),
    ensures
        r == step(p, d),
        r.in_grid(),
{
    match d {
        Direction::Left => {
            if p.x == 0 {
                Point { x: GRID_SIZE - 1, y: p.y }
            } else {
                Point { x: p.x - 1, y: p.y }
            }
        },
        Direction::Right => {
            if p.x == GRID_SIZE - 1 {
                Point { x: 0, y: p.y }
            } else {
                Point { x: p.x + 1, y: p.y }
            }
        },
        Direction::Up => {
            if p.y == 0 {
                Point { x: p.x, y: GRID_SIZE - 1 }
            } else {
                Point { x: p.x, y: p.y - 1 }
            }
        },
        Direction::Down => {
            if p.y == GRID_SIZE - 1 {
                Point { x: p.x, y: 0 }
            } else {
                Point { x: p.x, y: p.y + 1 }
            }
        },
    }
}

/// Moves `p` one cell against direction `d`, without wrapping.
pub fn step_back(p: Point, d: Direction) -> (r: Point)
    requires
        p.steppable(),
    ensures
        r == behind(p, d),
{
    match d {
        Direction::Left => Point { x: p.x + 1, y: p.y },
        Direction::Right => Point { x: p.x - 1, y: p.y },
        Direction::Up => Point { x: p.x, y: p.y + 1 },
        Direction::Down => Point { x: p.x, y: p.y - 1 },
    }
}

} // verus!
