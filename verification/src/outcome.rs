//! How a game ends, and what a successful move did.

use vstd::prelude::*;
use crate::geometry::Point;

verus! {

/// The three ways a game ends. None of them is recoverable.
#[derive(Clone, Copy, Debug, PartialEq, Eq, Structural)]
pub enum GameOver {
    /// The head sat next to the wall in the direction of travel.
    HitWall,
    /// The candidate head would have occupied a cell of the body.
    CrashedIntoSelf,
    /// The surface shrank and part of the body is no longer on it.
    SnakeLost,
}

impl GameOver {
    /// The words that name this ending.
    pub open spec fn reason(&self) -> Seq<char> {
        match self {
            GameOver::HitWall => "hit the wall"@,
            GameOver::CrashedIntoSelf => "you crash body"@,
            GameOver::SnakeLost => "snake is lost"@,
        }
    }

    /// The words that name this ending, to be shown to the player.
    pub fn message(&self) -> (s: String)
        ensures
            s@ == self.reason(),
    {
        match self {
            GameOver::HitWall => "hit the wall".to_owned(),
            GameOver::CrashedIntoSelf => "you crash body".to_owned(),
            GameOver::SnakeLost => "snake is lost".to_owned(),
        }
    }
}

/// What a move that did not end the game did to the snake.
#[derive(Clone, Copy, Debug, PartialEq, Eq, Structural)]
pub enum Moved {
    /// The snake slid one cell: the tail left `vacated`, which is to be
    /// cleared on the screen.
    Slid { vacated: Point },
    /// The snake ate and grew by one segment; no cell was vacated.
    Grew,
}

} // verus!
