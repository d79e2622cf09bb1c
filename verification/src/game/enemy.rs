//! The paddle on the right, which follows the ball.

use vstd::prelude::*;
use crate::game::ball::Ball;
use crate::game::paddle::{in_arena, move_down, move_up, moved_down, moved_up, Y_VELOCITY};
use crate::game::render::{DrawCommand, Entity};
use crate::game::shape::{bind_shape, Shape, ShapeModel};
use crate::game::units::UNIT;

verus! {

#[derive(Clone, Copy, Debug, PartialEq, Eq)]
pub struct Enemy {
    pub shape: Shape,
}

/// The paddle after one step towards the height `ball_y`; it stays where it
/// is when its centre is at that height already.
pub open spec fn followed(s: ShapeModel, ball_y: int) -> ShapeModel {
    if ball_y > s.center_y() {
        moved_up(s)
    } else if ball_y < s.center_y() {
        moved_down(s)
    } else {
        s
    }
}

/// The right paddle as the game begins: at rest, halfway up the right wall.
pub open spec fn enemy_at_start() -> ShapeModel {
    ShapeModel {
        start: (9000, 0),
        offset: (0, 0),
        velocity: (0, 0),
        half_width: 400,
        half_height: 2500,
    }
}

/// The right paddle as the game begins.
pub fn bind_enemy() -> (enemy: Enemy)
    ensures
        enemy.wf(),
        enemy.shape@ == enemy_at_start(),
{
    Enemy { shape: bind_shape(9000, 0, 400, 2500) }
}

impl Enemy {
    pub open spec fn wf(&self) -> bool {
        self.shape.wf()
    }

    /// One step up, no further than the top wall.
    pub fn move_up(&mut self)
        requires
            old(self).wf(),
        ensures
            final(self).shape@ == moved_up(old(self).shape@),
            final(self).wf(),
    {
        move_up(&mut self.shape);
    }

    /// One step down, no further than the bottom wall.
    pub fn move_down(&mut self)
        requires
            old(self).wf(),
        ensures
            final(self).shape@ == moved_down(old(self).shape@),
            final(self).wf(),
    {
        move_down(&mut self.shape);
    }

    /// Moves the paddle one step towards the height of the ball.
    pub fn update(&mut self, ball: &Ball)
        requires
            old(self).wf(),
            ball.shape.wf(),
        ensures
            final(self).shape@ == followed(old(self).shape@, ball.shape@.center_y()),
            final(self).wf(),
            ball.shape@.center_y() > old(self).shape@.center_y() && old(self).shape@.top_edge()
                < UNIT ==> final(self).shape@.offset.1 > old(self).shape@.offset.1,
            ball.shape@.center_y() < old(self).shape@.center_y() && old(self).shape@.bottom_edge()
                > -UNIT ==> final(self).shape@.offset.1 < old(self).shape@.offset.1,
    {
        if ball.shape.center_y() > self.shape.center_y() {
            self.move_up();
        } else if ball.shape.center_y() < self.shape.center_y() {
            self.move_down();
        }
    }

    /// What the renderer is to draw for the paddle.
    pub fn draw(&self) -> (command: DrawCommand)
        ensures
            command == (DrawCommand { entity: Entity::Enemy, offset: self.shape.offset }),
    {
        DrawCommand { entity: Entity::Enemy, offset: self.shape.offset }
    }
}

/// A paddle between the walls that is not level with the ball ends its step
/// no further from the ball's height than it was, or within one step of it.
pub proof fn lemma_tracking_closes_in(s: ShapeModel, ball_y: int)
    requires
        in_arena(s),
    ensures
        ball_y > s.center_y() ==> s.center_y() <= followed(s, ball_y).center_y() < ball_y
            + Y_VELOCITY,
        ball_y < s.center_y() ==> ball_y - Y_VELOCITY < followed(s, ball_y).center_y()
            <= s.center_y(),
        in_arena(followed(s, ball_y)),
{
}

} // verus!
