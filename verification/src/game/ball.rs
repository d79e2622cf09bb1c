//! The ball: one frame of motion, scoring, wall bounces and paddle bounces.

use vstd::prelude::*;
use crate::game::render::{DrawCommand, Entity};
use crate::game::shape::{bind_shape, collision_of, in_collision, Collision, Shape, ShapeModel};
use crate::game::units::{abs, magnitude, OFFSET_LIMIT, UNIT};

verus! {

/// The side wall that the ball has passed, if any.
#[derive(Clone, Copy, Debug, PartialEq, Eq, Structural)]
pub enum Edge {
    Within,
    Left,
    Right,
}

/// The ball after its horizontal speed is added to its displacement.
pub open spec fn stepped_x(b: ShapeModel) -> ShapeModel {
    ShapeModel { offset: (b.offset.0 + b.velocity.0, b.offset.1), ..b }
}

/// The side wall beyond which an edge of `b` lies, the left one first.
pub open spec fn edge_crossed(b: ShapeModel) -> Edge {
    if b.left_edge() < -UNIT {
        Edge::Left
    } else if b.right_edge() > UNIT {
        Edge::Right
    } else {
        Edge::Within
    }
}

/// The ball back at its rest position, its velocity kept.
pub open spec fn served(b: ShapeModel) -> ShapeModel {
    ShapeModel { offset: (0, 0), ..b }
}

/// The horizontal step: the ball advances, and is served again if that took
/// it past a side wall.
pub open spec fn after_horizontal(b: ShapeModel) -> ShapeModel {
    let moved = stepped_x(b);
    if edge_crossed(moved) == Edge::Within {
        moved
    } else {
        served(moved)
    }
}

/// The vertical step: the ball advances, and its vertical speed is reversed
/// if the new displacement lies more than one unit from zero. The position is
/// not corrected.
pub open spec fn after_vertical(b: ShapeModel) -> ShapeModel {
    let y = b.offset.1 + b.velocity.1;
    ShapeModel {
        offset: (b.offset.0, y),
        velocity: (
            b.velocity.0,
            if y < -UNIT || y > UNIT {
                -b.velocity.1
            } else {
                b.velocity.1
            },
        ),
        ..b
    }
}

/// The ball after meeting the left paddle `p`: if they touch, the ball is put
/// against the paddle's right edge and sent to the right.
pub open spec fn bounced_off_player(b: ShapeModel, p: ShapeModel) -> ShapeModel {
    if collision_of(b, p) == Collision::Apart {
        b
    } else {
        b.with_center_x(p.right_edge() + b.half_width).with_velocity_x(abs(b.velocity.0))
    }
}

/// The ball after meeting the right paddle `e`: if they touch, the ball is put
/// against the paddle's left edge and sent to the left.
pub open spec fn bounced_off_enemy(b: ShapeModel, e: ShapeModel) -> ShapeModel {
    if collision_of(b, e) == Collision::Apart {
        b
    } else {
        b.with_center_x(e.left_edge() - b.half_width).with_velocity_x(-abs(b.velocity.0))
    }
}

/// The ball as both of its steps leave it, before the paddles are consulted.
pub open spec fn after_motion(b: ShapeModel) -> ShapeModel {
    after_vertical(after_horizontal(b))
}

/// One whole frame of the ball between the left paddle `p` and the right
/// paddle `e`: horizontal step, vertical step, then `p`, then `e`.
pub open spec fn after_frame(b: ShapeModel, p: ShapeModel, e: ShapeModel) -> ShapeModel {
    bounced_off_enemy(bounced_off_player(after_motion(b), p), e)
}

/// The shape is well formed, and its next vertical step keeps it so.
pub open spec fn steady(b: ShapeModel) -> bool {
    b.wf() && abs(b.offset.1 + b.velocity.1) <= OFFSET_LIMIT
}

/// The ball is between the top and the bottom wall, or less than one step
/// beyond one of them and not moving further away.
pub open spec fn between_walls(b: ShapeModel) -> bool {
    &&& -UNIT - abs(b.velocity.1) <= b.offset.1 <= UNIT + abs(b.velocity.1)
    &&& b.offset.1 > UNIT ==> b.velocity.1 <= 0
    &&& b.offset.1 < -UNIT ==> b.velocity.1 >= 0
}

#[derive(Clone, Copy, Debug, PartialEq, Eq)]
pub struct Ball {
    pub shape: Shape,
}

/// The ball as the game begins: in the centre of the arena, on its way up
/// and towards the left paddle.
pub open spec fn ball_at_start() -> ShapeModel {
    ShapeModel {
        start: (0, 0),
        offset: (0, 0),
        velocity: (-75, 50),
        half_width: 200,
        half_height: 200,
    }
}

/// The ball as the game begins.
pub fn bind_ball() -> (ball: Ball)
    ensures
        ball.wf(),
        ball.shape@ == ball_at_start(),
{
    let mut shape = bind_shape(0, 0, 200, 200);
    shape.velocity = (-75, 50);
    Ball { shape }
}

impl Ball {
    pub open spec fn wf(&self) -> bool {
        steady(self.shape@)
    }

    /// Decides `wf`.
    pub fn is_wf(&self) -> (b: bool)
        ensures
            b == self.wf(),
    {
        if !self.shape.is_wf() {
            return false;
        }
        let y: i64 = self.shape.offset.1 + self.shape.velocity.1;
        -OFFSET_LIMIT <= y && y <= OFFSET_LIMIT
    }

    /// What the renderer is to draw for the ball.
    pub fn draw(&self) -> (command: DrawCommand)
        ensures
            command == (DrawCommand { entity: Entity::Ball, offset: self.shape.offset }),
    {
        DrawCommand { entity: Entity::Ball, offset: self.shape.offset }
    }

    /// Advances the ball horizontally and reports the side wall it has passed.
    /// The displacement is left as it is, past the wall.
    pub fn move_x(&mut self) -> (edge: Edge)
        requires
            old(self).shape.wf(),
        ensures
            final(self).shape@ == stepped_x(old(self).shape@),
            edge == edge_crossed(final(self).shape@),
            edge == Edge::Within ==> final(self).shape.wf(),
    {
        self.shape.offset.0 = self.shape.offset.0 + self.shape.velocity.0;
        let center: i64 = self.shape.start_location.0 + self.shape.offset.0;
        if center - self.shape.half_width < -UNIT {
            Edge::Left
        } else if center + self.shape.half_width > UNIT {
            Edge::Right
        } else {
            Edge::Within
        }
    }

    /// Advances the ball vertically and turns it round beyond the top or the
    /// bottom wall.
    pub fn move_y(&mut self)
        requires
            old(self).wf(),
        ensures
            final(self).shape@ == after_vertical(old(self).shape@),
            final(self).wf(),
    {
        self.shape.offset.1 = self.shape.offset.1 + self.shape.velocity.1;
        if self.shape.offset.1 < -UNIT || self.shape.offset.1 > UNIT {
            self.shape.velocity.1 = -self.shape.velocity.1;
        }
    }

    /// Plays one frame of the ball between the two paddles and reports the
    /// side wall it passed on the way, for the score.
    pub fn update(&mut self, player: &Shape, enemy: &Shape) -> (edge: Edge)
        requires
            old(self).wf(),
            player.wf(),
            enemy.wf(),
        ensures
            final(self).shape@ == after_frame(old(self).shape@, player@, enemy@),
            edge == edge_crossed(stepped_x(old(self).shape@)),
            final(self).wf(),
    {
        let edge = self.move_x();
        match edge {
            Edge::Within => {},
            Edge::Left => {
                self.shape.offset = (0, 0);
            },
            Edge::Right => {
                self.shape.offset = (0, 0);
            },
        }
        self.move_y();
        match in_collision(&self.shape, player) {
            Collision::Apart => {},
            _ => {
                let x: i64 = player.right_edge() + self.shape.half_width;
                self.shape.set_center_x(x);
                self.shape.velocity.0 = magnitude(self.shape.velocity.0);
            },
        }
        match in_collision(&self.shape, enemy) {
            Collision::Apart => {},
            _ => {
                let x: i64 = enemy.left_edge() - self.shape.half_width;
                self.shape.set_center_x(x);
                self.shape.velocity.0 = -magnitude(self.shape.velocity.0);
            },
        }
        edge
    }
}

/// A ball that touches the left paddle leaves it with its left edge exactly on
/// the paddle's right edge and moving to the right, unless it had no
/// horizontal speed at all.
pub proof fn lemma_player_bounce_contact(b: ShapeModel, p: ShapeModel)
    requires
        collision_of(b, p) != Collision::Apart,
    ensures
        bounced_off_player(b, p).left_edge() == p.right_edge(),
        bounced_off_player(b, p).velocity.0 >= 0,
        b.velocity.0 != 0 ==> bounced_off_player(b, p).velocity.0 > 0,
{
}

/// A ball that touches the right paddle leaves it with its right edge exactly
/// on the paddle's left edge and moving to the left, unless it had no
/// horizontal speed at all.
pub proof fn lemma_enemy_bounce_contact(b: ShapeModel, e: ShapeModel)
    requires
        collision_of(b, e) != Collision::Apart,
    ensures
        bounced_off_enemy(b, e).right_edge() == e.left_edge(),
        bounced_off_enemy(b, e).velocity.0 <= 0,
        b.velocity.0 != 0 ==> bounced_off_enemy(b, e).velocity.0 < 0,
{
}

/// A frame in which the ball meets the left paddle, and is then clear of the
/// right one, ends with the ball in contact with the left paddle.
pub proof fn lemma_frame_ends_on_player(b: ShapeModel, p: ShapeModel, e: ShapeModel)
    requires
        collision_of(after_motion(b), p) != Collision::Apart,
        collision_of(bounced_off_player(after_motion(b), p), e) == Collision::Apart,
    ensures
        after_frame(b, p, e).left_edge() == p.right_edge(),
        after_frame(b, p, e).velocity.0 == abs(b.velocity.0),
{
}

/// A frame in which the ball meets the right paddle ends with the ball in
/// contact with it.
pub proof fn lemma_frame_ends_on_enemy(b: ShapeModel, p: ShapeModel, e: ShapeModel)
    requires
        collision_of(bounced_off_player(after_motion(b), p), e) != Collision::Apart,
    ensures
        after_frame(b, p, e).right_edge() == e.left_edge(),
        after_frame(b, p, e).velocity.0 == -abs(b.velocity.0),
{
}

/// A ball that passes a side wall is served from its rest position: when the
/// paddles are consulted it stands one vertical step from there, at the
/// velocity it had.
pub proof fn lemma_score_serves_again(b: ShapeModel)
    requires
        edge_crossed(stepped_x(b)) != Edge::Within,
    ensures
        after_horizontal(b).offset == (0int, 0int),
        after_horizontal(b).velocity == b.velocity,
        after_motion(b).offset == (0int, b.velocity.1),
{
}

/// A frame changes the direction of the ball at most: its speed along each
/// axis stays what it was, so a ball that moves along both axes always will.
pub proof fn lemma_frame_keeps_speed(b: ShapeModel, p: ShapeModel, e: ShapeModel)
    ensures
        abs(after_frame(b, p, e).velocity.0) == abs(b.velocity.0),
        abs(after_frame(b, p, e).velocity.1) == abs(b.velocity.1),
        after_frame(b, p, e).start == b.start,
        after_frame(b, p, e).half_width == b.half_width,
        after_frame(b, p, e).half_height == b.half_height,
{
}

/// A frame leaves a well-formed ball well formed, wherever the paddles are.
pub proof fn lemma_frame_keeps_ball_steady(b: ShapeModel, p: ShapeModel, e: ShapeModel)
    requires
        steady(b),
        p.wf(),
        e.wf(),
    ensures
        steady(after_frame(b, p, e)),
{
}

/// The top and the bottom wall hold the ball: from between them it overshoots
/// either by less than one step, turns round, and is back between them before
/// it turns again. A serve puts it between them too.
pub proof fn lemma_frame_keeps_ball_between_walls(b: ShapeModel, p: ShapeModel, e: ShapeModel)
    requires
        between_walls(b),
    ensures
        between_walls(after_vertical(b)),
        between_walls(after_frame(b, p, e)),
{
}

} // verus!
