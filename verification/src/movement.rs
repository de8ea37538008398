//! One step of the snake: wall check, self-collision check, then growth on
//! food or a slide.

use vstd::prelude::*;
use crate::food::{Food, create_food, free_cell, has_free_cell};
use crate::geometry::{Point, SnakeDir, in_interior, shifted, step_fits};
use crate::outcome::{GameOver, Moved};
use crate::snake::{Snake, crash_body, hit_the_wall, next_head, wall_ahead};

verus! {

/// What one step of `snake` comes to, by the order of the checks: the wall
/// first, then the body, then the food.
pub open spec fn verdict(snake: Snake, food: Food, cols: int, lines: int) -> Result<
    Moved,
    GameOver,
>
    recommends
        snake.can_step(),
{
    if wall_ahead(snake.head(), snake.dir, cols, lines) {
        Err(GameOver::HitWall)
    } else if snake.body@.contains(snake.candidate()) {
        Err(GameOver::CrashedIntoSelf)
    } else if snake.candidate() == food.cell() {
        Ok(Moved::Grew)
    } else {
        Ok(Moved::Slid { vacated: snake.body@.last() })
    }
}

/// The body after a move `m` that put `head` in front of `body`: all of
/// `body` behind it where the snake grew, all but the tail where it slid.
pub open spec fn body_after(m: Moved, head: Point, body: Seq<Point>) -> Seq<Point> {
    match m {
        Moved::Slid { .. } => seq![head] + body.drop_last(),
        Moved::Grew => seq![head] + body,
    }
}

/// How food stands after a new placement was asked for around `body`: on a
/// free cell of the interior, or, when the interior has none, where it was.
pub open spec fn renewed(body: Seq<Point>, cols: int, lines: int, before: Food, after: Food) -> bool {
    if has_free_cell(body, cols, lines) {
        free_cell(body, cols, lines, after.cell())
    } else {
        after == before
    }
}

/// Whether the candidate head lies on the food.
pub fn get_food(snake: &Snake, food: &Food) -> (eats: bool)
    requires
        snake.can_step(),
    ensures
        eats == (snake.candidate() == food.cell()),
{
    let head = next_head(snake);
    head.x == food.x && head.y == food.y
}

/// Asks for a new placement of `food` around `snake` and takes it; where the
/// interior has no free cell the food stays.
pub fn renew_food(snake: &Snake, food: &mut Food, cols: i32, lines: i32)
    ensures
        renewed(snake.body@, cols as int, lines as int, *old(food), *final(food)),
{
    match create_food(snake, cols, lines) {
        Some(fresh) => {
            *food = fresh;
        },
        None => {},
    }
}

/// Advances the snake by one step on a surface of `cols` columns and `lines` rows.
///
/// The wall check comes first and looks at the current head only; the
/// self-collision check follows. A snake whose candidate head lies on the
/// food grows by that head and the food is placed anew; any other snake
/// slides: the candidate head is prepended and the tail removed.
pub fn move_snake(snake: &mut Snake, food: &mut Food, cols: i32, lines: i32) -> (res: Result<
    Moved,
    GameOver,
>)
    requires
        old(snake).can_step(),
    ensures
        res == verdict(*old(snake), *old(food), cols as int, lines as int),
        final(snake).dir == old(snake).dir,
        old(snake).wf() ==> final(snake).wf(),
        // the wall is reported exactly when the current head sits at the threshold
        res == Err::<Moved, GameOver>(GameOver::HitWall) <==> wall_ahead(
            old(snake).head(),
            old(snake).dir,
            cols as int,
            lines as int,
        ),
        // the body is reported exactly when the wall is not and the candidate
        // head lies on a segment
        res == Err::<Moved, GameOver>(GameOver::CrashedIntoSelf) <==> !wall_ahead(
            old(snake).head(),
            old(snake).dir,
            cols as int,
            lines as int,
        ) && old(snake).body@.contains(old(snake).candidate()),
        // a game that ends leaves snake and food as they were
        res is Err ==> *final(snake) == *old(snake) && *final(food) == *old(food),
        res matches Ok(m) ==> final(snake).body@ == body_after(
            m,
            old(snake).candidate(),
            old(snake).body@,
        ),
        // a slide: same length, head one step on, tail gone, food untouched
        res matches Ok(Moved::Slid { vacated }) ==> {
            &&& final(snake).body@.len() == old(snake).body@.len()
            &&& final(snake).head() == shifted(old(snake).head(), old(snake).dir)
            &&& vacated == old(snake).body@.last()
            &&& *final(food) == *old(food)
        },
        // growth: one segment more, tail kept, food on a cell free of the grown body
        res matches Ok(Moved::Grew) ==> {
            &&& final(snake).body@.len() == old(snake).body@.len() + 1
            &&& final(snake).head() == old(food).cell()
            &&& renewed(final(snake).body@, cols as int, lines as int, *old(food), *final(food))
            &&& has_free_cell(final(snake).body@, cols as int, lines as int) ==> {
                &&& !final(snake).body@.contains(final(food).cell())
                &&& in_interior(final(food).cell(), cols as int, lines as int)
            }
        },
{
    if hit_the_wall(snake, cols, lines) {
        return Err(GameOver::HitWall);
    }
    if crash_body(snake) {
        return Err(GameOver::CrashedIntoSelf);
    }
    let head = next_head(snake);
    if get_food(snake, food) {
        snake.body.insert(0, head);
        renew_food(snake, food, cols, lines);
        Ok(Moved::Grew)
    } else {
        let tail = snake.body.pop().unwrap();
        snake.body.insert(0, head);
        Ok(Moved::Slid { vacated: tail })
    }
}

/// The wall is ahead exactly when the candidate head would lie in the row or
/// column of wall that the snake faces: row 0 heading `DOWN`, the last row
/// heading `UP`, column 0 heading `LEFT`, the last column heading `RIGHT`.
pub proof fn lemma_wall_ahead_is_candidate_in_wall(
    head: Point,
    dir: SnakeDir,
    cols: i32,
    lines: i32,
)
    requires
        step_fits(head, dir),
    ensures
        wall_ahead(head, dir, cols as int, lines as int) <==> match dir {
            SnakeDir::DOWN => shifted(head, dir).y == 0,
            SnakeDir::UP => shifted(head, dir).y == lines - 1,
            SnakeDir::LEFT => shifted(head, dir).x == 0,
            SnakeDir::RIGHT => shifted(head, dir).x == cols - 1,
        },
{
}

/// The wall check guards the interior: a head in the interior that passes it
/// has a cell ahead, and that cell lies in the interior too.
pub proof fn lemma_step_stays_inside(head: Point, dir: SnakeDir, cols: i32, lines: i32)
    requires
        in_interior(head, cols as int, lines as int),
        !wall_ahead(head, dir, cols as int, lines as int),
    ensures
        step_fits(head, dir),
        in_interior(shifted(head, dir), cols as int, lines as int),
{
}

/// A snake that lies in the interior still lies in it after a move that did
/// not end the game.
pub proof fn lemma_move_stays_inside(snake: Snake, food: Food, cols: i32, lines: i32)
    requires
        snake.body@.len() > 0,
        forall|i: int|
            0 <= i < snake.body@.len() ==> in_interior(
                #[trigger] snake.body@[i],
                cols as int,
                lines as int,
            ),
        verdict(snake, food, cols as int, lines as int) is Ok,
    ensures
        snake.can_step(),
        ({
            let m = verdict(snake, food, cols as int, lines as int)->Ok_0;
            let body = body_after(m, snake.candidate(), snake.body@);
            forall|j: int|
                0 <= j < body.len() ==> in_interior(#[trigger] body[j], cols as int, lines as int)
        }),
{
    lemma_step_stays_inside(snake.head(), snake.dir, cols, lines);
}

} // verus!
