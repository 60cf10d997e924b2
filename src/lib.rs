//! A tick-driven clock and the rules of a grid snake game: geometry, the
//! snake's body, and the per-step decisions of the game loop.

pub mod board;
pub mod clock;
pub mod game;
pub mod geometry;
pub mod session;
pub mod snake;
