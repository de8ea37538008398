//! Arrow keys and the turns they ask for.

use vstd::prelude::*;
use crate::geometry::{SnakeDir, vertical};
use crate::snake::Snake;

verus! {

/// The four arrow keys.
#[derive(Clone, Copy, Debug, PartialEq, Eq, Structural)]
pub enum Key {
    Up,
    Down,
    Left,
    Right,
}

/// The heading that `key` asks for. The vertical axis is inverted: the up
/// arrow asks for `DOWN`, the heading that decreases the row, and the down
/// arrow for `UP`.
pub open spec fn asked(key: Key) -> SnakeDir {
    match key {
        Key::Up => SnakeDir::DOWN,
        Key::Down => SnakeDir::UP,
        Key::Left => SnakeDir::LEFT,
        Key::Right => SnakeDir::RIGHT,
    }
}

/// The heading after `key` was pressed while heading `dir`: the heading asked
/// for where it is orthogonal to `dir`, and `dir` otherwise. `None` stands for
/// a tick without an arrow key.
pub open spec fn turned(dir: SnakeDir, key: Option<Key>) -> SnakeDir {
    match key {
        Some(k) => if vertical(asked(k)) != vertical(dir) {
            asked(k)
        } else {
            dir
        },
        None => dir,
    }
}

/// The new heading that `key` brings about while heading `dir`, if any.
///
/// A key takes effect only where the heading it asks for is orthogonal to
/// `dir`: one that asks for `dir` itself or for its reverse changes nothing.
pub fn turn(dir: SnakeDir, key: Key) -> (new_dir: Option<SnakeDir>)
    ensures
        new_dir matches Some(d) ==> d == asked(key) && vertical(d) != vertical(dir),
        new_dir is None ==> vertical(asked(key)) == vertical(dir),
        turned(dir, Some(key)) == (match new_dir {
            Some(d) => d,
            None => dir,
        }),
{
    let sideways = match dir {
        SnakeDir::LEFT => true,
        SnakeDir::RIGHT => true,
        SnakeDir::UP => false,
        SnakeDir::DOWN => false,
    };
    match key {
        Key::Up => if sideways {
            Some(SnakeDir::DOWN)
        } else {
            None
        },
        Key::Down => if sideways {
            Some(SnakeDir::UP)
        } else {
            None
        },
        Key::Left => if sideways {
            None
        } else {
            Some(SnakeDir::LEFT)
        },
        Key::Right => if sideways {
            None
        } else {
            Some(SnakeDir::RIGHT)
        },
    }
}

/// Applies the key read for this tick, if one was read, to the snake's
/// heading. The body is not touched.
pub fn hit_key(snake: &mut Snake, key: Option<Key>)
    ensures
        final(snake).dir == turned(old(snake).dir, key),
        final(snake).body == old(snake).body,
{
    match key {
        Some(k) => match turn(snake.dir, k) {
            Some(d) => {
                snake.dir = d;
            },
            None => {},
        },
        None => {},
    }
}

/// A key never reverses the heading and never leaves the axis unchanged
/// while changing the heading: the heading stays, or turns by a quarter.
pub proof fn lemma_turn_is_quarter_or_none(dir: SnakeDir, key: Option<Key>)
    ensures
        turned(dir, key) == dir || vertical(turned(dir, key)) != vertical(dir),
        turned(turned(dir, key), key) == turned(dir, key),
{
}

} // verus!
