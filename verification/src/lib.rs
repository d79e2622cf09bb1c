//! A two-paddle arena game: entity geometry, collision resolution and the
//! per-frame update, verified over exact fixed-point coordinates.

pub mod game;
pub mod graphics;
