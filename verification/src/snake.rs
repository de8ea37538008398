//! The snake: its body, its candidate head, and the two collision checks.

use vstd::prelude::*;
use crate::geometry::{Point, SnakeDir, adjacent, is_adjacent, shifted, step, step_fits};

verus! {

/// A snake: its heading and its body, head first, tail last.
#[derive(Debug)]
pub struct Snake {
    pub dir: SnakeDir,
    pub body: Vec<Point>,
}

/// Whether each segment of `body` is one grid unit from the next.
pub open spec fn connected(body: Seq<Point>) -> bool {
    forall|i: int| 0 <= i < body.len() - 1 ==> adjacent(#[trigger] body[i], body[i + 1])
}

/// Whether the wall stands directly ahead of a head at `head` with heading `dir`,
/// on a surface of `cols` columns and `lines` rows.
pub open spec fn wall_ahead(head: Point, dir: SnakeDir, cols: int, lines: int) -> bool {
    match dir {
        SnakeDir::DOWN => head.y == 1,
        SnakeDir::UP => head.y == lines - 2,
        SnakeDir::LEFT => head.x == 1,
        SnakeDir::RIGHT => head.x == cols - 2,
    }
}

impl Snake {
    /// The head: the first cell of the body.
    pub open spec fn head(&self) -> Point
        recommends
            self.body@.len() > 0,
    {
        self.body@[0]
    }

    /// The body is never empty, and adjacent segments are one grid unit apart.
    pub open spec fn wf(&self) -> bool {
        self.body@.len() > 0 && connected(self.body@)
    }

    /// The cell ahead of the head has coordinates that fit in `i32`.
    pub open spec fn can_step(&self) -> bool {
        self.body@.len() > 0 && step_fits(self.head(), self.dir)
    }

    /// The candidate head: the cell one step ahead of the head.
    pub open spec fn candidate(&self) -> Point
        recommends
            self.can_step(),
    {
        shifted(self.head(), self.dir)
    }

    /// The snake a game starts with: two segments, head at column 3 of row 3,
    /// heading `RIGHT`.
    pub fn new() -> (s: Snake)
        ensures
            s.dir == SnakeDir::RIGHT,
            s.body@ == seq![Point { x: 3, y: 3 }, Point { x: 2, y: 3 }],
            s.wf(),
    {
        let mut body: Vec<Point> = Vec::new();
        body.push(Point { x: 3, y: 3 });
        body.push(Point { x: 2, y: 3 });
        Snake { dir: SnakeDir::RIGHT, body }
    }

    /// Whether the snake is well formed.
    pub fn is_wf(&self) -> (r: bool)
        ensures
            r == self.wf(),
    {
        if self.body.len() == 0 {
            return false;
        }
        let mut i: usize = 1;
        while i < self.body.len()
            invariant
                1 <= i <= self.body@.len(),
                forall|j: int| 0 <= j < i - 1 ==> adjacent(#[trigger] self.body@[j], self.body@[j + 1]),
            decreases self.body@.len() - i,
        {
            if !is_adjacent(self.body[i - 1], self.body[i]) {
                return false;
            }
            i += 1;
        }
        true
    }

    /// Whether some segment of the body lies on `p`.
    pub fn covers(&self, p: Point) -> (r: bool)
        ensures
            r == self.body@.contains(p),
    {
        let mut i: usize = 0;
        while i < self.body.len()
            invariant
                i <= self.body@.len(),
                forall|j: int| 0 <= j < i ==> self.body@[j] != p,
            decreases self.body@.len() - i,
        {
            if self.body[i] == p {
                return true;
            }
            i += 1;
        }
        false
    }
}

/// The wall check: whether the current head already sits next to the wall in
/// the direction of travel. Only the current head and heading are examined.
pub fn hit_the_wall(snake: &Snake, cols: i32, lines: i32) -> (hit: bool)
    requires
        snake.body@.len() > 0,
    ensures
        hit == wall_ahead(snake.head(), snake.dir, cols as int, lines as int),
{
    let head = snake.body[0];
    match snake.dir {
        SnakeDir::DOWN => head.y == 1,
        SnakeDir::UP => (head.y as i64) == (lines as i64) - 2,
        SnakeDir::LEFT => head.x == 1,
        SnakeDir::RIGHT => (head.x as i64) == (cols as i64) - 2,
    }
}

/// The candidate head: the head shifted one cell in the current heading.
pub fn next_head(snake: &Snake) -> (p: Point)
    requires
        snake.can_step(),
    ensures
        p == snake.candidate(),
        p.x == snake.head().x + crate::geometry::dx(snake.dir),
        p.y == snake.head().y + crate::geometry::dy(snake.dir),
{
    step(snake.body[0], snake.dir)
}

/// The self-collision check: whether the candidate head lies on a segment of
/// the current body, the tail included.
pub fn crash_body(snake: &Snake) -> (crash: bool)
    requires
        snake.can_step(),
    ensures
        crash == snake.body@.contains(snake.candidate()),
{
    snake.covers(next_head(snake))
}

} // verus!
