//! The paddle on the left, moved by the keys.

use vstd::prelude::*;
use crate::game::input::{Key, KeySet};
use crate::game::paddle::{move_down, move_up, moved_down, moved_up};
use crate::game::render::{DrawCommand, Entity};
use crate::game::shape::{bind_shape, Shape, ShapeModel};

verus! {

#[derive(Clone, Copy, Debug, PartialEq, Eq)]
pub struct Player {
    pub shape: Shape,
}

/// The paddle after a frame in which `keys` are held: a step up for `MoveUp`
/// alone, a step down for `MoveDown` alone. Held together the two keys
/// cancel, and the paddle stays where it is, at a wall as anywhere else.
pub open spec fn steered(s: ShapeModel, keys: Set<Key>) -> ShapeModel {
    if keys.contains(Key::MoveUp) && !keys.contains(Key::MoveDown) {
        moved_up(s)
    } else if keys.contains(Key::MoveDown) && !keys.contains(Key::MoveUp) {
        moved_down(s)
    } else {
        s
    }
}

/// The left paddle as the game begins: at rest, halfway up the left wall.
pub open spec fn player_at_start() -> ShapeModel {
    ShapeModel {
        start: (-9000, 0),
        offset: (0, 0),
        velocity: (0, 0),
        half_width: 400,
        half_height: 2500,
    }
}

/// The left paddle as the game begins.
pub fn bind_player() -> (player: Player)
    ensures
        player.wf(),
        player.shape@ == player_at_start(),
{
    Player { shape: bind_shape(-9000, 0, 400, 2500) }
}

impl Player {
    pub open spec fn wf(&self) -> bool {
        self.shape.wf()
    }

    /// What the renderer is to draw for the paddle.
    pub fn draw(&self) -> (command: DrawCommand)
        ensures
            command == (DrawCommand { entity: Entity::Player, offset: self.shape.offset }),
    {
        DrawCommand { entity: Entity::Player, offset: self.shape.offset }
    }

    /// One step up, no further than the top wall.
    pub fn move_up(&mut self)
        requires
            old(self).wf(),
        ensures
            final(self).shape@ == moved_up(old(self).shape@),
            final(self).wf(),
    {
        move_up(&mut self.shape);
    }

    /// One step down, no further than the bottom wall.
    pub fn move_down(&mut self)
        requires
            old(self).wf(),
        ensures
            final(self).shape@ == moved_down(old(self).shape@),
            final(self).wf(),
    {
        move_down(&mut self.shape);
    }

    /// Moves the paddle as the held keys ask.
    pub fn update(&mut self, keys_pressed: &KeySet)
        requires
            old(self).wf(),
        ensures
            final(self).shape@ == steered(old(self).shape@, keys_pressed@),
            keys_pressed@.contains(Key::MoveUp) == keys_pressed@.contains(Key::MoveDown)
                ==> final(self).shape@ == old(self).shape@,
            final(self).wf(),
    {
        let up = keys_pressed.contains(Key::MoveUp);
        let down = keys_pressed.contains(Key::MoveDown);
        if up && !down {
            self.move_up();
        } else if down && !up {
            self.move_down();
        }
    }
}

} // verus!
