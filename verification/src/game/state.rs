//! The states of the game. One is active at a time; the frame driver asks it
//! to update the entities and then to say what is to be drawn.

use vstd::prelude::*;
use crate::game::ball::{
    after_frame, between_walls, edge_crossed, lemma_frame_keeps_ball_between_walls,
    lemma_frame_keeps_ball_steady, steady, stepped_x, Ball, Edge,
};
use crate::game::enemy::{followed, Enemy};
use crate::game::input::{Key, KeySet};
use crate::game::paddle::{in_arena, lemma_step_keeps_well_formed};
use crate::game::player::{steered, Player};
use crate::game::render::{DrawCommand, Entity};
use crate::game::shape::ShapeModel;
use crate::game::units::abs;

verus! {

/// The three entities of a frame, as the contracts of a state speak of them.
pub struct Scene {
    pub player: ShapeModel,
    pub enemy: ShapeModel,
    pub ball: ShapeModel,
}

impl Scene {
    pub open spec fn of(player: Player, enemy: Enemy, ball: Ball) -> Scene {
        Scene { player: player.shape@, enemy: enemy.shape@, ball: ball.shape@ }
    }

    /// All three entities are well formed.
    pub open spec fn wf(self) -> bool {
        self.player.wf() && self.enemy.wf() && steady(self.ball)
    }

    /// `other` holds the same three bodies, moved or sped up.
    pub open spec fn same_bodies(self, other: Scene) -> bool {
        &&& self.player.same_body(other.player)
        &&& self.enemy.same_body(other.enemy)
        &&& self.ball.same_body(other.ball)
    }
}

/// What the frame driver needs of a state of the game. A state keeps nothing
/// from one frame to the next: what it does is a function of the entities and
/// of the keys held.
pub trait State {
    /// The entities after one frame in this state.
    spec fn step(&self, scene: Scene, keys: Set<Key>) -> Scene;

    /// The side wall that the ball passes during that frame.
    spec fn scored(&self, scene: Scene, keys: Set<Key>) -> Edge;

    /// What is to be drawn in this state, in drawing order.
    spec fn drawn(&self, player: Player, enemy: Enemy, ball: Ball) -> Seq<DrawCommand>;

    /// Advances the entities by one frame while `keys_pressed` are held, and
    /// reports the side wall that the ball passed, for the score. Whatever the
    /// state does, the entities stay well formed, where they rest and as large
    /// as they were.
    fn update(
        &self,
        player: &mut Player,
        enemy: &mut Enemy,
        ball: &mut Ball,
        keys_pressed: &KeySet,
    ) -> (scored: Edge)
        requires
            old(player).wf(),
            old(enemy).wf(),
            old(ball).wf(),
        ensures
            final(player).wf(),
            final(enemy).wf(),
            final(ball).wf(),
            Scene::of(*final(player), *final(enemy), *final(ball)) == self.step(
                Scene::of(*old(player), *old(enemy), *old(ball)),
                keys_pressed@,
            ),
            scored == self.scored(Scene::of(*old(player), *old(enemy), *old(ball)), keys_pressed@),
            Scene::of(*old(player), *old(enemy), *old(ball)).same_bodies(
                Scene::of(*final(player), *final(enemy), *final(ball)),
            ),
    ;

    /// The draw commands of one frame, in the order in which the renderer is
    /// to carry them out.
    fn draw(&self, player: &Player, enemy: &Enemy, ball: &Ball) -> (commands: Vec<DrawCommand>)
        ensures
            commands@ == self.drawn(*player, *enemy, *ball),
    ;
}

/// The state in which the game is played.
#[derive(Clone, Copy, Debug, PartialEq, Eq)]
pub struct GameplayState;

impl State for GameplayState {
    /// The player moves first, then the enemy follows the ball as it stands,
    /// then the ball moves between the two paddles as they now stand.
    open spec fn step(&self, scene: Scene, keys: Set<Key>) -> Scene {
        let player = steered(scene.player, keys);
        let enemy = followed(scene.enemy, scene.ball.center_y());
        Scene { player, enemy, ball: after_frame(scene.ball, player, enemy) }
    }

    open spec fn scored(&self, scene: Scene, keys: Set<Key>) -> Edge {
        edge_crossed(stepped_x(scene.ball))
    }

    /// The player, then the enemy, then the ball.
    open spec fn drawn(&self, player: Player, enemy: Enemy, ball: Ball) -> Seq<DrawCommand> {
        seq![
            (DrawCommand { entity: Entity::Player, offset: player.shape.offset }),
            (DrawCommand { entity: Entity::Enemy, offset: enemy.shape.offset }),
            (DrawCommand { entity: Entity::Ball, offset: ball.shape.offset }),
        ]
    }

    fn update(
        &self,
        player: &mut Player,
        enemy: &mut Enemy,
        ball: &mut Ball,
        keys_pressed: &KeySet,
    ) -> (scored: Edge) {
        player.update(keys_pressed);
        enemy.update(ball);
        ball.update(&player.shape, &enemy.shape)
    }

    fn draw(&self, player: &Player, enemy: &Enemy, ball: &Ball) -> (commands: Vec<DrawCommand>) {
        let mut commands: Vec<DrawCommand> = Vec::new();
        commands.push(player.draw());
        commands.push(enemy.draw());
        commands.push(ball.draw());
        assert(commands@ =~= self.drawn(*player, *enemy, *ball));
        commands
    }
}

/// While the game is played, paddles that stand between the top and the
/// bottom wall stay there, whatever keys are held and wherever the ball is.
pub proof fn lemma_gameplay_keeps_paddles_in_arena(scene: Scene, keys: Set<Key>)
    requires
        in_arena(scene.player),
        in_arena(scene.enemy),
    ensures
        in_arena(GameplayState.step(scene, keys).player),
        in_arena(GameplayState.step(scene, keys).enemy),
{
}

/// While the game is played, the paddles never move sideways and nothing but
/// the ball has its velocity changed.
pub proof fn lemma_gameplay_moves_paddles_vertically(scene: Scene, keys: Set<Key>)
    ensures
        GameplayState.step(scene, keys).player.offset.0 == scene.player.offset.0,
        GameplayState.step(scene, keys).enemy.offset.0 == scene.enemy.offset.0,
        GameplayState.step(scene, keys).player.velocity == scene.player.velocity,
        GameplayState.step(scene, keys).enemy.velocity == scene.enemy.velocity,
{
}

/// The entities after the game has been played for one frame per element of
/// `frames`, each with the keys held during it.
pub open spec fn played(scene: Scene, frames: Seq<Set<Key>>) -> Scene
    decreases frames.len(),
{
    if frames.len() == 0 {
        scene
    } else {
        GameplayState.step(played(scene, frames.drop_last()), frames.last())
    }
}

/// One frame of play leaves well-formed entities well formed.
pub proof fn lemma_gameplay_keeps_scene_well_formed(scene: Scene, keys: Set<Key>)
    requires
        scene.wf(),
    ensures
        GameplayState.step(scene, keys).wf(),
        scene.same_bodies(GameplayState.step(scene, keys)),
{
    let next = GameplayState.step(scene, keys);
    lemma_step_keeps_well_formed(scene.player);
    lemma_step_keeps_well_formed(scene.enemy);
    lemma_frame_keeps_ball_steady(scene.ball, next.player, next.enemy);
}

/// However long the game is played and whatever keys are held, nothing
/// drifts: the entities stay well formed and as large as they were, paddles
/// that began between the top and the bottom wall are still there, and a
/// ball that began between them has the speed it began with along both axes
/// and is at most one step beyond a wall.
pub proof fn lemma_play_never_diverges(scene: Scene, frames: Seq<Set<Key>>)
    requires
        scene.wf(),
        in_arena(scene.player),
        in_arena(scene.enemy),
        between_walls(scene.ball),
    ensures
        played(scene, frames).wf(),
        scene.same_bodies(played(scene, frames)),
        in_arena(played(scene, frames).player),
        in_arena(played(scene, frames).enemy),
        between_walls(played(scene, frames).ball),
        abs(played(scene, frames).ball.velocity.0) == abs(scene.ball.velocity.0),
        abs(played(scene, frames).ball.velocity.1) == abs(scene.ball.velocity.1),
    decreases frames.len(),
{
    if frames.len() > 0 {
        let before = played(scene, frames.drop_last());
        let after = GameplayState.step(before, frames.last());
        lemma_play_never_diverges(scene, frames.drop_last());
        lemma_gameplay_keeps_scene_well_formed(before, frames.last());
        lemma_gameplay_keeps_paddles_in_arena(before, frames.last());
        lemma_frame_keeps_ball_between_walls(before.ball, after.player, after.enemy);
    }
}

} // verus!
