//! A snake game on a ten-by-ten toroidal grid: the simulation state, one
//! update tick, and the handling of key presses, all verified.

pub mod grid;
pub mod input;
pub mod snake;
pub mod food;
pub mod game;
pub mod laws;
