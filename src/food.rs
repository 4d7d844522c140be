//! The single food cell and its random respawn.

use vstd::prelude::*;
use crate::grid::Point;

verus! {

/// Food only ever appears at coordinates below this bound, so the last row
/// and the last column of the field never hold food.
pub const FOOD_RANGE: i32 = 9;

/// A cell where a freshly spawned piece of food may land.
pub open spec fn spawnable(p: Point) -> bool {
    0 <= p.x < FOOD_RANGE && 0 <= p.y < FOOD_RANGE
}

/// The piece of food on the field.
pub struct Food {
    pub coord: Point,
}

impl Food {
    /// Food on the cell where a new snake starts.
    pub fn new() -> (r: Food)
        ensures
            r.coord == (Point { x: 2, y: 5 }),
    {
        Food { coord: Point { x: 2, y: 5 } }
    }

    /// Moves the food to a random cell below `FOOD_RANGE` in both axes; the
    /// snake's body is not avoided.
    pub fn spawn(&mut self)
        ensures
            spawnable(final(self).coord),
    {
        let x = random_below(FOOD_RANGE);
        let y = random_below(FOOD_RANGE);
        self.coord = Point { x, y };
    }
}

/// Relies on rand's `thread_rng` and `Rng::gen_range`: a value drawn from
/// `0..hi`; `gen_range` panics on an empty range, hence `0 < hi`.
#[verifier::external_body]
fn random_below(hi: i32) -> (r: i32)
    requires
        0 < hi,
    ensures
        0 <= r < hi,
{
    rand::Rng::gen_range(&mut rand::thread_rng(), 0..hi)
}

} // verus!
