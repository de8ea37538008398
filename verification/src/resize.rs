//! Reconciling snake and food with the size of the surface.

use vstd::prelude::*;
use crate::food::Food;
use crate::geometry::{Point, in_interior, is_in_interior, is_on_surface, on_surface};
use crate::movement::{renew_food, renewed};
use crate::outcome::GameOver;
use crate::snake::Snake;

verus! {

/// The size of the surface as it was last seen: columns and rows.
#[derive(Clone, Copy, Debug, PartialEq, Eq, Structural)]
pub struct WinSize {
    pub w: i32,
    pub h: i32,
}

/// Whether every segment of `body` lies on a surface of `cols` columns and `lines` rows.
pub open spec fn all_on_surface(body: Seq<Point>, cols: int, lines: int) -> bool {
    forall|i: int| 0 <= i < body.len() ==> on_surface(#[trigger] body[i], cols, lines)
}

/// How food stands after it was reconciled with the surface: untouched where
/// it lay in the interior, placed anew where it did not.
pub open spec fn reconciled(body: Seq<Point>, cols: int, lines: int, before: Food, after: Food) -> bool {
    if in_interior(before.cell(), cols, lines) {
        after == before
    } else {
        renewed(body, cols, lines, before, after)
    }
}

/// Whether every segment of the snake lies on the surface.
pub fn snake_on_surface(snake: &Snake, cols: i32, lines: i32) -> (r: bool)
    ensures
        r == all_on_surface(snake.body@, cols as int, lines as int),
{
    let mut i: usize = 0;
    while i < snake.body.len()
        invariant
            i <= snake.body@.len(),
            forall|j: int| 0 <= j < i ==> on_surface(#[trigger] snake.body@[j], cols as int, lines as int),
        decreases snake.body@.len() - i,
    {
        if !is_on_surface(snake.body[i], cols, lines) {
            return false;
        }
        i += 1;
    }
    true
}

/// Reconciles the game with a surface that now has `cols` columns and
/// `lines` rows; `seen` is the size met at the previous tick.
///
/// Food that no longer lies in the interior is placed anew. A snake with a
/// segment off the surface is lost. Otherwise the size is recorded in `seen`,
/// and the answer says whether the screen is to be cleared before the next
/// frame: it is when the size changed or the food lay outside the interior.
pub fn win_size_change(
    snake: &Snake,
    food: &mut Food,
    seen: &mut WinSize,
    cols: i32,
    lines: i32,
) -> (res: Result<bool, GameOver>)
    ensures
        reconciled(snake.body@, cols as int, lines as int, *old(food), *final(food)),
        res is Err <==> !all_on_surface(snake.body@, cols as int, lines as int),
        res matches Err(e) ==> e == GameOver::SnakeLost && *final(seen) == *old(seen),
        res matches Ok(clear) ==> {
            &&& final(seen).w == cols && final(seen).h == lines
            &&& clear == (old(seen).w != cols || old(seen).h != lines || !in_interior(
                old(food).cell(),
                cols as int,
                lines as int,
            ))
        },
{
    let mut clear = seen.w != cols || seen.h != lines;
    if !is_in_interior(food.position(), cols, lines) {
        renew_food(snake, food, cols, lines);
        clear = true;
    }
    if !snake_on_surface(snake, cols, lines) {
        return Err(GameOver::SnakeLost);
    }
    seen.w = cols;
    seen.h = lines;
    Ok(clear)
}

} // verus!
