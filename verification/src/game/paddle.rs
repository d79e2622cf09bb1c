//! The vertical motion that both paddles share: one fixed step up or down,
//! stopped at the walls of the arena.

use vstd::prelude::*;
use crate::game::input::Key;
use crate::game::shape::{Shape, ShapeModel};
use crate::game::units::UNIT;

verus! {

/// Ticks that a paddle travels in one frame.
pub const Y_VELOCITY: i64 = 100;

/// The vertical offset at which the top edge of `s` lies on the top wall.
pub open spec fn top_limit(s: ShapeModel) -> int {
    UNIT - s.half_height - s.start.1
}

/// The vertical offset at which the bottom edge of `s` lies on the bottom wall.
pub open spec fn bottom_limit(s: ShapeModel) -> int {
    -UNIT + s.half_height - s.start.1
}

/// The paddle one step higher, or against the top wall if that is nearer.
pub open spec fn moved_up(s: ShapeModel) -> ShapeModel {
    let y = s.offset.1 + Y_VELOCITY;
    ShapeModel {
        offset: (
            s.offset.0,
            if y <= top_limit(s) {
                y
            } else {
                top_limit(s)
            },
        ),
        ..s
    }
}

/// The paddle one step lower, or against the bottom wall if that is nearer.
pub open spec fn moved_down(s: ShapeModel) -> ShapeModel {
    let y = s.offset.1 - Y_VELOCITY;
    ShapeModel {
        offset: (
            s.offset.0,
            if y >= bottom_limit(s) {
                y
            } else {
                bottom_limit(s)
            },
        ),
        ..s
    }
}

/// Neither the top nor the bottom edge of `s` lies beyond a wall.
pub open spec fn in_arena(s: ShapeModel) -> bool {
    -UNIT <= s.bottom_edge() && s.top_edge() <= UNIT
}

/// The paddle after one step for each key of `keys`, in their order.
pub open spec fn after_moves(s: ShapeModel, keys: Seq<Key>) -> ShapeModel
    decreases keys.len(),
{
    if keys.len() == 0 {
        s
    } else {
        let before = after_moves(s, keys.drop_last());
        match keys.last() {
            Key::MoveUp => moved_up(before),
            Key::MoveDown => moved_down(before),
        }
    }
}

/// Moves `shape` one step up, no further than the top wall.
pub fn move_up(shape: &mut Shape)
    requires
        old(shape).wf(),
    ensures
        final(shape)@ == moved_up(old(shape)@),
        final(shape).wf(),
{
    let y: i64 = shape.offset.1 + Y_VELOCITY;
    let limit: i64 = UNIT - shape.half_height - shape.start_location.1;
    shape.offset.1 = if y <= limit {
        y
    } else {
        limit
    };
}

/// Moves `shape` one step down, no further than the bottom wall.
pub fn move_down(shape: &mut Shape)
    requires
        old(shape).wf(),
    ensures
        final(shape)@ == moved_down(old(shape)@),
        final(shape).wf(),
{
    let y: i64 = shape.offset.1 - Y_VELOCITY;
    let limit: i64 = -UNIT + shape.half_height - shape.start_location.1;
    shape.offset.1 = if y >= limit {
        y
    } else {
        limit
    };
}

/// A step either way leaves a well-formed paddle well formed.
pub proof fn lemma_step_keeps_well_formed(s: ShapeModel)
    requires
        s.wf(),
    ensures
        moved_up(s).wf(),
        moved_down(s).wf(),
{
}

/// A step up never leaves the top edge above the top wall, and a step down
/// never leaves the bottom edge below the bottom wall, wherever the paddle was.
pub proof fn lemma_step_stops_at_wall(s: ShapeModel)
    ensures
        moved_up(s).top_edge() <= UNIT,
        moved_down(s).bottom_edge() >= -UNIT,
{
}

/// A paddle between the walls is still between them after a step either way.
pub proof fn lemma_step_stays_in_arena(s: ShapeModel)
    requires
        in_arena(s),
    ensures
        in_arena(moved_up(s)),
        in_arena(moved_down(s)),
{
}

/// A paddle between the walls stays between them through any sequence of
/// steps up and down.
pub proof fn lemma_moves_stay_in_arena(s: ShapeModel, keys: Seq<Key>)
    requires
        in_arena(s),
    ensures
        in_arena(after_moves(s, keys)),
    decreases keys.len(),
{
    if keys.len() > 0 {
        lemma_moves_stay_in_arena(s, keys.drop_last());
        lemma_step_stays_in_arena(after_moves(s, keys.drop_last()));
    }
}

/// A step up raises the paddle unless its top edge is already on or above the
/// top wall; a step down lowers it unless its bottom edge is already on or
/// below the bottom wall.
pub proof fn lemma_step_moves_until_wall(s: ShapeModel)
    ensures
        s.top_edge() < UNIT ==> moved_up(s).offset.1 > s.offset.1,
        s.bottom_edge() > -UNIT ==> moved_down(s).offset.1 < s.offset.1,
{
}

/// One step up followed by one step down leaves the paddle where it was when
/// it has room for both.
pub proof fn lemma_up_then_down_cancels(s: ShapeModel)
    requires
        s.top_edge() + Y_VELOCITY <= UNIT,
        -UNIT <= s.bottom_edge(),
    ensures
        moved_down(moved_up(s)) == s,
{
}

} // verus!
