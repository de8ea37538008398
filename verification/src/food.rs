//! Food and its placement on a free cell of the interior.

use vstd::prelude::*;
use crate::geometry::{Point, in_interior};
use crate::snake::Snake;

verus! {

/// The food: the cell it lies on.
#[derive(Clone, Copy, Debug, PartialEq, Eq, Structural)]
pub struct Food {
    pub x: i32,
    pub y: i32,
}

impl Food {
    /// The cell the food lies on.
    pub open spec fn cell(&self) -> Point {
        Point { x: self.x, y: self.y }
    }

    /// The cell the food lies on.
    pub fn position(&self) -> (p: Point)
        ensures
            p == self.cell(),
    {
        Point { x: self.x, y: self.y }
    }
}

/// How many random cells are tried before the interior is searched in order.
pub const DRAWS: u32 = 64;

/// Whether food may be put on `p`: it lies in the interior of the surface and
/// under no segment of `body`.
pub open spec fn free_cell(body: Seq<Point>, cols: int, lines: int, p: Point) -> bool {
    in_interior(p, cols, lines) && !body.contains(p)
}

/// Whether the interior has a cell that no segment of `body` covers.
pub open spec fn has_free_cell(body: Seq<Point>, cols: int, lines: int) -> bool {
    exists|p: Point| free_cell(body, cols, lines, p)
}

/// Whether `p` comes before `q` when the grid is read row by row, each row
/// from its first column on.
pub open spec fn reads_before(p: Point, q: Point) -> bool {
    p.y < q.y || (p.y == q.y && p.x < q.x)
}

/// What a placement may answer: some free cell, or nothing when there is none.
pub open spec fn placed(body: Seq<Point>, cols: int, lines: int, r: Option<Food>) -> bool {
    match r {
        Some(food) => free_cell(body, cols, lines, food.cell()),
        None => !has_free_cell(body, cols, lines),
    }
}

/// Calls `gen_range` of `rand::Rng` on the thread's generator with the bounds
/// `low` and `high`. The generator answers with a number from `low` up to, but
/// not including, `high`; it panics unless `low < high`. Which number comes is
/// left open: two calls may differ.
#[verifier::external_body]
fn random_in(low: i32, high: i32) -> (n: i32)
    requires
        low < high,
    ensures
        low <= n < high,
{
    rand::Rng::gen_range(&mut rand::thread_rng(), low, high)
}

/// Food on the cell drawn, column `x` of row `y`, unless a segment of the
/// snake covers that cell.
pub fn food_on(snake: &Snake, x: i32, y: i32) -> (r: Option<Food>)
    ensures
        r == (if snake.body@.contains(Point { x, y }) {
            None::<Food>
        } else {
            Some(Food { x, y })
        }),
{
    if snake.covers(Point { x, y }) {
        None
    } else {
        Some(Food { x, y })
    }
}

/// The first free cell of the interior when it is read row by row, if there is one.
pub fn first_free_cell(snake: &Snake, cols: i32, lines: i32) -> (r: Option<Food>)
    ensures
        placed(snake.body@, cols as int, lines as int, r),
        r matches Some(food) ==> forall|p: Point|
            free_cell(snake.body@, cols as int, lines as int, p) ==> !reads_before(p, food.cell()),
{
    if cols < 3 || lines < 3 {
        return None;
    }
    let mut y: i32 = 1;
    while y <= lines - 2
        invariant
            cols >= 3,
            lines >= 3,
            1 <= y <= lines - 1,
            forall|p: Point| p.y < y ==> !free_cell(snake.body@, cols as int, lines as int, p),
        decreases lines - y,
    {
        let mut x: i32 = 1;
        while x <= cols - 2
            invariant
                cols >= 3,
                lines >= 3,
                1 <= y <= lines - 2,
                1 <= x <= cols - 1,
                forall|p: Point| p.y < y ==> !free_cell(snake.body@, cols as int, lines as int, p),
                forall|p: Point|
                    p.y == y && p.x < x ==> !free_cell(snake.body@, cols as int, lines as int, p),
            decreases cols - x,
        {
            match food_on(snake, x, y) {
                Some(food) => {
                    return Some(food);
                },
                None => {},
            }
            x += 1;
        }
        y += 1;
    }
    None
}

/// Places food on a free cell of the interior.
///
/// Up to `DRAWS` cells are drawn at random from the interior, and the first
/// that no segment covers is taken. Should all of them be covered, the
/// interior is searched in order, so that a free cell is found whenever one
/// exists. The answer is `None` only when the interior has no free cell.
pub fn create_food(snake: &Snake, cols: i32, lines: i32) -> (r: Option<Food>)
    ensures
        placed(snake.body@, cols as int, lines as int, r),
        r is Some <==> has_free_cell(snake.body@, cols as int, lines as int),
{
    if cols < 3 || lines < 3 {
        return None;
    }
    let mut left: u32 = DRAWS;
    while left > 0
        invariant
            cols >= 3,
            lines >= 3,
        decreases left,
    {
        let x: i32 = random_in(1, cols - 1);
        let y: i32 = random_in(1, lines - 1);
        match food_on(snake, x, y) {
            Some(food) => {
                return Some(food);
            },
            None => {},
        }
        left -= 1;
    }
    first_free_cell(snake, cols, lines)
}

/// Food placement never answers with a cell under the snake, and with every
/// interior cell but one covered it answers with that one cell.
pub proof fn lemma_last_free_cell_is_found(
    body: Seq<Point>,
    cols: int,
    lines: int,
    only: Point,
    r: Option<Food>,
)
    requires
        placed(body, cols, lines, r),
        free_cell(body, cols, lines, only),
        forall|p: Point| free_cell(body, cols, lines, p) ==> p == only,
    ensures
        r matches Some(food) && food.cell() == only && !body.contains(food.cell()),
{
}

} // verus!
