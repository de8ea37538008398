//! Rules of a terminal snake game: movement, collisions, food placement,
//! key handling and reconciliation with a resized surface.

pub mod food;
pub mod game;
pub mod geometry;
pub mod input;
pub mod movement;
pub mod outcome;
pub mod render;
pub mod resize;
pub mod snake;
