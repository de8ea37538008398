//! The game as a whole: its state, and what one tick makes of it.

use vstd::prelude::*;
use crate::food::{Food, create_food, free_cell, has_free_cell};
use crate::geometry::{Point, SnakeDir, in_interior, vertical};
use crate::input::{Key, hit_key, turned};
use crate::movement::{body_after, move_snake, renewed, verdict};
use crate::outcome::{GameOver, Moved};
use crate::render::{Mark, add_food, add_snake, add_wall, food_mark, snake_marks, wall};
use crate::resize::{WinSize, all_on_surface, snake_on_surface, win_size_change};
use crate::snake::Snake;

verus! {

/// A running game: the snake, the food, and the size of the surface as the
/// previous tick met it.
#[derive(Debug)]
pub struct Game {
    pub snake: Snake,
    pub food: Food,
    pub seen: WinSize,
}

/// What the terminal is to do after a tick that did not end the game, in this
/// order: blank the vacated cell, clear the screen, put the marks on their
/// cells, wait.
#[derive(Debug)]
pub struct Frame {
    /// The cell the tail left, if the snake slid.
    pub vacated: Option<Point>,
    /// Whether the whole screen is to be cleared before drawing.
    pub clear: bool,
    /// What to draw, in drawing order: the wall, the snake, the food.
    pub marks: Vec<Mark>,
    /// How long to wait after drawing, in microseconds.
    pub delay: u32,
}

/// The wait after a frame, in microseconds: a character cell is taller than
/// wide, so a vertical step takes twice the time of a horizontal one.
pub open spec fn pause(dir: SnakeDir) -> u32 {
    if vertical(dir) {
        400000
    } else {
        200000
    }
}

/// The cell to blank after a move.
pub open spec fn vacated_by(m: Moved) -> Option<Point> {
    match m {
        Moved::Slid { vacated } => Some(vacated),
        Moved::Grew => None,
    }
}

/// Whether a tick with move `m` asks for a new placement of `food`: the snake
/// ate it, or it lies outside the interior.
pub open spec fn food_due(m: Moved, food: Food, cols: int, lines: int) -> bool {
    m == Moved::Grew || !in_interior(food.cell(), cols, lines)
}

/// Whether food lay outside the interior when the tick came to reconcile it
/// with the surface: `food` did at the start of the tick, and, had the snake
/// eaten it, no free cell was there to take its successor.
pub open spec fn food_astray(m: Moved, body: Seq<Point>, food: Food, cols: int, lines: int) -> bool {
    !in_interior(food.cell(), cols, lines) && (m == Moved::Grew ==> !has_free_cell(
        body,
        cols,
        lines,
    ))
}

/// A whole frame in drawing order: the wall, then the snake, then the food.
pub open spec fn frame_marks(body: Seq<Point>, food: Food, cols: int, lines: int) -> Seq<Mark> {
    (wall(cols, lines) + snake_marks(body)).push(food_mark(food))
}

/// The wait after a frame drawn with heading `dir`, in microseconds.
pub fn tick_pause(dir: SnakeDir) -> (micros: u32)
    ensures
        micros == pause(dir),
{
    match dir {
        SnakeDir::UP => 400000,
        SnakeDir::DOWN => 400000,
        SnakeDir::LEFT => 200000,
        SnakeDir::RIGHT => 200000,
    }
}

/// The marks of a whole frame for `snake` and `food` on a surface of `cols`
/// columns and `lines` rows.
pub fn draw(snake: &Snake, food: &Food, cols: i32, lines: i32) -> (marks: Vec<Mark>)
    requires
        cols > i32::MIN,
        lines > i32::MIN,
    ensures
        marks@ == frame_marks(snake.body@, *food, cols as int, lines as int),
{
    let mut marks: Vec<Mark> = Vec::new();
    add_wall(&mut marks, cols, lines);
    add_snake(&mut marks, snake);
    add_food(&mut marks, food);
    marks
}

impl Game {
    /// The snake is well formed and every segment has coordinates from 0 up
    /// to, but not including, `i32::MAX`: whatever the heading, the cell
    /// ahead of the head then has coordinates that fit in `i32`.
    pub open spec fn wf(&self) -> bool {
        self.snake.wf() && all_on_surface(self.snake.body@, i32::MAX as int, i32::MAX as int)
    }

    /// Whether the game is well formed.
    pub fn is_wf(&self) -> (r: bool)
        ensures
            r == self.wf(),
    {
        self.snake.is_wf() && snake_on_surface(&self.snake, i32::MAX, i32::MAX)
    }

    /// A new game on a surface of `cols` columns and `lines` rows: the
    /// starting snake, food on a free cell, and no size seen yet.
    ///
    /// There is no game on a surface without interior: with fewer than three
    /// columns or three rows.
    pub fn start(cols: i32, lines: i32) -> (r: Option<Game>)
        ensures
            r is Some <==> cols >= 3 && lines >= 3,
            r matches Some(game) ==> {
                &&& game.wf()
                &&& game.snake.dir == SnakeDir::RIGHT
                &&& game.snake.body@ == seq![Point { x: 3, y: 3 }, Point { x: 2, y: 3 }]
                &&& free_cell(game.snake.body@, cols as int, lines as int, game.food.cell())
                &&& game.seen.w == 0 && game.seen.h == 0
            },
    {
        let snake = Snake::new();
        proof {
            if cols >= 3 && lines >= 3 {
                assert(free_cell(snake.body@, cols as int, lines as int, Point { x: 1, y: 1 }));
            }
        }
        match create_food(&snake, cols, lines) {
            Some(food) => Some(Game { snake, food, seen: WinSize { w: 0, h: 0 } }),
            None => None,
        }
    }
}

/// One tick of the game on a surface that now has `cols` columns and `lines`
/// rows; `key` is the arrow key read for this tick, if one was.
///
/// The key turns the snake, the snake moves, the game is reconciled with the
/// surface, and the frame is made up. The first step that ends the game ends
/// the tick.
pub fn tick(game: &mut Game, key: Option<Key>, cols: i32, lines: i32) -> (res: Result<
    Frame,
    GameOver,
>)
    requires
        old(game).wf(),
    ensures
        res is Ok ==> final(game).wf(),
        final(game).snake.dir == turned(old(game).snake.dir, key),
        ({
            let dir = turned(old(game).snake.dir, key);
            let start = Snake { dir, body: old(game).snake.body };
            let food = old(game).food;
            let body = final(game).snake.body@;
            match verdict(start, food, cols as int, lines as int) {
                // the move ended the game: nothing but the heading changed
                Err(e) => {
                    &&& res == Err::<Frame, GameOver>(e)
                    &&& final(game).snake.body == old(game).snake.body
                    &&& final(game).food == food
                    &&& final(game).seen == old(game).seen
                },
                Ok(m) => {
                    &&& body == body_after(m, start.candidate(), old(game).snake.body@)
                    &&& if food_due(m, food, cols as int, lines as int) {
                        renewed(body, cols as int, lines as int, food, final(game).food)
                    } else {
                        final(game).food == food
                    }
                    &&& if all_on_surface(body, cols as int, lines as int) {
                        &&& res matches Ok(frame)
                        &&& frame.vacated == vacated_by(m)
                        &&& frame.clear == (old(game).seen.w != cols || old(game).seen.h != lines
                            || food_astray(m, body, food, cols as int, lines as int))
                        &&& frame.marks@ == frame_marks(
                            body,
                            final(game).food,
                            cols as int,
                            lines as int,
                        )
                        &&& frame.delay == pause(dir)
                        &&& final(game).seen.w == cols && final(game).seen.h == lines
                    } else {
                        // the snake is lost: the size is not recorded
                        &&& res == Err::<Frame, GameOver>(GameOver::SnakeLost)
                        &&& final(game).seen == old(game).seen
                    }
                },
            }
        }),
        // as long as the interior has a free cell to offer, the food lies in
        // the interior after the tick, and food that lay under no segment
        // lies under none
        res is Ok && has_free_cell(final(game).snake.body@, cols as int, lines as int) ==> {
            &&& in_interior(final(game).food.cell(), cols as int, lines as int)
            &&& !old(game).snake.body@.contains(old(game).food.cell())
                ==> !final(game).snake.body@.contains(final(game).food.cell())
        },
{
    hit_key(&mut game.snake, key);
    let moved = match move_snake(&mut game.snake, &mut game.food, cols, lines) {
        Ok(m) => m,
        Err(e) => {
            return Err(e);
        },
    };
    let clear = match win_size_change(&game.snake, &mut game.food, &mut game.seen, cols, lines) {
        Ok(c) => c,
        Err(e) => {
            return Err(e);
        },
    };
    let vacated = match moved {
        Moved::Slid { vacated } => Some(vacated),
        Moved::Grew => None,
    };
    let marks = draw(&game.snake, &game.food, cols, lines);
    Ok(Frame { vacated, clear, marks, delay: tick_pause(game.snake.dir) })
}

} // verus!
