//! A snake game on a square toroidal grid: the board geometry, the snake,
//! its food and the per-frame rules that tie them together.

pub mod grid;
pub mod snake;
pub mod food;
pub mod game;
pub mod render;
pub mod laws;
