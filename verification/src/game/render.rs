//! What a frame asks of the renderer.

use vstd::prelude::*;

verus! {

/// The three things on screen.
#[derive(Clone, Copy, Debug, PartialEq, Eq, Structural)]
pub enum Entity {
    Player,
    Enemy,
    Ball,
}

/// A request to draw the geometry bound to `entity`, displaced by `offset`
/// from its rest position.
#[derive(Clone, Copy, Debug, PartialEq, Eq)]
pub struct DrawCommand {
    pub entity: Entity,
    pub offset: (i64, i64),
}

} // verus!
