//! What is to be drawn: the wall, the snake and the food as a list of marks
//! for the terminal to put on its cells, in drawing order.

use vstd::prelude::*;
use crate::food::Food;
use crate::geometry::Point;
use crate::snake::Snake;

verus! {

/// What a mark shows.
#[derive(Clone, Copy, Debug, PartialEq, Eq, Structural)]
pub enum Glyph {
    /// A segment of the snake.
    Segment,
    /// The food.
    Food,
    /// A horizontal piece of wall.
    HLine,
    /// A vertical piece of wall.
    VLine,
    /// The upper left corner of the wall.
    UpperLeft,
    /// The upper right corner of the wall.
    UpperRight,
    /// The lower right corner of the wall.
    LowerRight,
    /// The lower left corner of the wall.
    LowerLeft,
}

/// One cell to draw: column `x`, row `y`, and what it shows.
#[derive(Clone, Copy, Debug, PartialEq, Eq, Structural)]
pub struct Mark {
    pub x: i32,
    pub y: i32,
    pub glyph: Glyph,
}

/// A horizontal run of wall in row `y`: columns 1 to `cols - 2`, left to right.
pub open spec fn wall_row(y: int, cols: int) -> Seq<Mark> {
    Seq::new(
        if cols > 2 { (cols - 2) as nat } else { 0 },
        |i: int| Mark { x: (i + 1) as i32, y: y as i32, glyph: Glyph::HLine },
    )
}

/// A vertical run of wall in column `x`: rows 1 to `lines - 2`, top to bottom.
pub open spec fn wall_column(x: int, lines: int) -> Seq<Mark> {
    Seq::new(
        if lines > 2 { (lines - 2) as nat } else { 0 },
        |i: int| Mark { x: x as i32, y: (i + 1) as i32, glyph: Glyph::VLine },
    )
}

/// The four corners of the wall, in drawing order.
pub open spec fn wall_corners(cols: int, lines: int) -> Seq<Mark> {
    seq![
        Mark { x: 0, y: 0, glyph: Glyph::UpperLeft },
        Mark { x: (cols - 1) as i32, y: 0, glyph: Glyph::UpperRight },
        Mark { x: (cols - 1) as i32, y: (lines - 1) as i32, glyph: Glyph::LowerRight },
        Mark { x: 0, y: (lines - 1) as i32, glyph: Glyph::LowerLeft },
    ]
}

/// The wall around a surface of `cols` columns and `lines` rows, in drawing
/// order: top run, right run, bottom run, left run, then the corners.
pub open spec fn wall(cols: int, lines: int) -> Seq<Mark> {
    wall_row(0, cols) + wall_column(cols - 1, lines) + wall_row(lines - 1, cols) + wall_column(
        0,
        lines,
    ) + wall_corners(cols, lines)
}

/// The mark of the food.
pub open spec fn food_mark(food: Food) -> Mark {
    Mark { x: food.x, y: food.y, glyph: Glyph::Food }
}

/// The marks of a snake's body, head first.
pub open spec fn snake_marks(body: Seq<Point>) -> Seq<Mark> {
    Seq::new(body.len(), |i: int| Mark { x: body[i].x, y: body[i].y, glyph: Glyph::Segment })
}

/// Appends a horizontal run of wall in row `y`.
fn add_wall_row(marks: &mut Vec<Mark>, y: i32, cols: i32)
    requires
        cols > i32::MIN,
    ensures
        final(marks)@ == old(marks)@ + wall_row(y as int, cols as int),
{
    let ghost before = marks@;
    let mut x: i32 = 1;
    while x < cols - 1
        invariant
            cols > i32::MIN,
            x >= 1,
            cols > 2 ==> x <= cols - 1,
            cols <= 2 ==> x == 1,
            marks@.len() == before.len() + x - 1,
            forall|j: int| 0 <= j < before.len() ==> marks@[j] == before[j],
            forall|j: int|
                before.len() <= j < marks@.len() ==> marks@[j] == (Mark {
                    x: (j - before.len() + 1) as i32,
                    y,
                    glyph: Glyph::HLine,
                }),
        decreases cols - x,
    {
        marks.push(Mark { x, y, glyph: Glyph::HLine });
        x += 1;
    }
    assert(marks@ =~= before + wall_row(y as int, cols as int));
}

/// Appends a vertical run of wall in column `x`.
fn add_wall_column(marks: &mut Vec<Mark>, x: i32, lines: i32)
    requires
        lines > i32::MIN,
    ensures
        final(marks)@ == old(marks)@ + wall_column(x as int, lines as int),
{
    let ghost before = marks@;
    let mut y: i32 = 1;
    while y < lines - 1
        invariant
            lines > i32::MIN,
            y >= 1,
            lines > 2 ==> y <= lines - 1,
            lines <= 2 ==> y == 1,
            marks@.len() == before.len() + y - 1,
            forall|j: int| 0 <= j < before.len() ==> marks@[j] == before[j],
            forall|j: int|
                before.len() <= j < marks@.len() ==> marks@[j] == (Mark {
                    x,
                    y: (j - before.len() + 1) as i32,
                    glyph: Glyph::VLine,
                }),
        decreases lines - y,
    {
        marks.push(Mark { x, y, glyph: Glyph::VLine });
        y += 1;
    }
    assert(marks@ =~= before + wall_column(x as int, lines as int));
}

/// Appends the wall around a surface of `cols` columns and `lines` rows: the
/// top, right, bottom and left runs between the corners, then the four
/// corners, so that on a small surface a corner is drawn over a run.
pub fn add_wall(marks: &mut Vec<Mark>, cols: i32, lines: i32)
    requires
        cols > i32::MIN,
        lines > i32::MIN,
    ensures
        final(marks)@ == old(marks)@ + wall(cols as int, lines as int),
{
    let ghost before = marks@;
    add_wall_row(marks, 0, cols);
    add_wall_column(marks, cols - 1, lines);
    add_wall_row(marks, lines - 1, cols);
    add_wall_column(marks, 0, lines);
    marks.push(Mark { x: 0, y: 0, glyph: Glyph::UpperLeft });
    marks.push(Mark { x: cols - 1, y: 0, glyph: Glyph::UpperRight });
    marks.push(Mark { x: cols - 1, y: lines - 1, glyph: Glyph::LowerRight });
    marks.push(Mark { x: 0, y: lines - 1, glyph: Glyph::LowerLeft });
    assert(marks@ =~= before + wall(cols as int, lines as int));
}

/// Appends one mark for each segment of the snake, head first.
pub fn add_snake(marks: &mut Vec<Mark>, snake: &Snake)
    ensures
        final(marks)@ == old(marks)@ + snake_marks(snake.body@),
{
    let ghost before = marks@;
    let mut i: usize = 0;
    while i < snake.body.len()
        invariant
            i <= snake.body@.len(),
            marks@.len() == before.len() + i,
            forall|j: int| 0 <= j < before.len() ==> marks@[j] == before[j],
            forall|j: int|
                before.len() <= j < marks@.len() ==> marks@[j] == (Mark {
                    x: snake.body@[j - before.len()].x,
                    y: snake.body@[j - before.len()].y,
                    glyph: Glyph::Segment,
                }),
        decreases snake.body@.len() - i,
    {
        let p = snake.body[i];
        marks.push(Mark { x: p.x, y: p.y, glyph: Glyph::Segment });
        i += 1;
    }
    assert(marks@ =~= before + snake_marks(snake.body@));
}

/// Appends the mark of the food.
pub fn add_food(marks: &mut Vec<Mark>, food: &Food)
    ensures
        final(marks)@ == old(marks)@.push(food_mark(*food)),
{
    marks.push(Mark { x: food.x, y: food.y, glyph: Glyph::Food });
}

} // verus!
