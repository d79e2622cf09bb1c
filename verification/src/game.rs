//! The entities of the arena and the rules that move them.

pub mod app;
pub mod ball;
pub mod enemy;
pub mod input;
pub mod paddle;
pub mod player;
pub mod render;
pub mod shape;
pub mod state;
pub mod units;
