//! Grid cells, headings, and the regions of a terminal surface.

use vstd::prelude::*;

verus! {

/// A cell of the character grid: column `x`, row `y`.
#[derive(Clone, Copy, Debug, PartialEq, Eq, Structural)]
pub struct Point {
    pub x: i32,
    pub y: i32,
}

/// The four headings a snake can have.
#[allow(non_camel_case_types)]
#[derive(Clone, Copy, Debug, PartialEq, Eq, Structural)]
pub enum SnakeDir {
    UP,
    DOWN,
    LEFT,
    RIGHT,
}

/// Column offset of one step with heading `dir`.
pub open spec fn dx(dir: SnakeDir) -> int {
    match dir {
        SnakeDir::LEFT => -1,
        SnakeDir::RIGHT => 1,
        _ => 0,
    }
}

/// Row offset of one step with heading `dir`. The vertical axis is inverted
/// with respect to the screen: `UP` increases the row, `DOWN` decreases it.
pub open spec fn dy(dir: SnakeDir) -> int {
    match dir {
        SnakeDir::UP => 1,
        SnakeDir::DOWN => -1,
        _ => 0,
    }
}

/// Whether the cell one step from `p` with heading `dir` has coordinates that fit in `i32`.
pub open spec fn step_fits(p: Point, dir: SnakeDir) -> bool {
    &&& i32::MIN <= p.x + dx(dir) <= i32::MAX
    &&& i32::MIN <= p.y + dy(dir) <= i32::MAX
}

/// The cell one step from `p` with heading `dir`.
pub open spec fn shifted(p: Point, dir: SnakeDir) -> Point
    recommends
        step_fits(p, dir),
{
    Point { x: (p.x + dx(dir)) as i32, y: (p.y + dy(dir)) as i32 }
}

/// Whether `a` and `b` are exactly one grid unit apart along one axis.
pub open spec fn adjacent(a: Point, b: Point) -> bool {
    ||| a.x == b.x && (a.y - b.y == 1 || b.y - a.y == 1)
    ||| a.y == b.y && (a.x - b.x == 1 || b.x - a.x == 1)
}

/// Whether `p` lies on a surface of `cols` columns and `lines` rows.
pub open spec fn on_surface(p: Point, cols: int, lines: int) -> bool {
    0 <= p.x <= cols - 1 && 0 <= p.y <= lines - 1
}

/// Whether `p` lies in the playable interior of the surface: everything but
/// the one-cell-thick ring of wall along its border.
pub open spec fn in_interior(p: Point, cols: int, lines: int) -> bool {
    1 <= p.x <= cols - 2 && 1 <= p.y <= lines - 2
}

/// The heading `dir` runs along a column of the grid.
pub open spec fn vertical(dir: SnakeDir) -> bool {
    dir == SnakeDir::UP || dir == SnakeDir::DOWN
}

/// The cell one step from `p` with heading `dir`.
pub fn step(p: Point, dir: SnakeDir) -> (q: Point)
    requires
        step_fits(p, dir),
    ensures
        q == shifted(p, dir),
        q.x == p.x + dx(dir),
        q.y == p.y + dy(dir),
{
    match dir {
        SnakeDir::UP => Point { x: p.x, y: p.y + 1 },
        SnakeDir::DOWN => Point { x: p.x, y: p.y - 1 },
        SnakeDir::LEFT => Point { x: p.x - 1, y: p.y },
        SnakeDir::RIGHT => Point { x: p.x + 1, y: p.y },
    }
}

/// Whether `a` and `b` are exactly one grid unit apart along one axis.
pub fn is_adjacent(a: Point, b: Point) -> (r: bool)
    ensures
        r == adjacent(a, b),
{
    let across: i64 = a.x as i64 - b.x as i64;
    let along: i64 = a.y as i64 - b.y as i64;
    (across == 0 && (along == 1 || along == -1)) || (along == 0 && (across == 1 || across == -1))
}

/// Whether `p` lies on a surface of `cols` columns and `lines` rows.
pub fn is_on_surface(p: Point, cols: i32, lines: i32) -> (r: bool)
    ensures
        r == on_surface(p, cols as int, lines as int),
{
    0 <= p.x && p.x < cols && 0 <= p.y && p.y < lines
}

/// Whether `p` lies in the interior of a surface of `cols` columns and `lines` rows.
pub fn is_in_interior(p: Point, cols: i32, lines: i32) -> (r: bool)
    ensures
        r == in_interior(p, cols as int, lines as int),
{
    1 <= p.x && (p.x as i64) <= (cols as i64) - 2 && 1 <= p.y && (p.y as i64) <= (lines as i64) - 2
}

} // verus!
