//! A grid-based snake game simulation: movement, collision, growth, reset
//! and food placement, with every operation verified against its contract.

pub mod food;
pub mod game;
pub mod grid;
pub mod snake;
