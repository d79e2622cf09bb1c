//! The game as the frame driver holds it: the entities, the keys held and the
//! active state, with the decision of what each event leads to.

use vstd::prelude::*;
use crate::game::ball::{ball_at_start, bind_ball, Ball, Edge};
use crate::game::enemy::{bind_enemy, enemy_at_start, Enemy};
use crate::game::input::{Key, KeySet};
use crate::game::player::{bind_player, player_at_start, Player};
use crate::game::render::DrawCommand;
use crate::game::state::{GameplayState, Scene, State};

verus! {

/// What the window reports to the game.
#[derive(Clone, Copy, Debug, PartialEq, Eq)]
pub enum Event {
    CloseRequested,
    RedrawRequested,
    KeyPressed(Key),
    KeyReleased(Key),
    /// Anything else: another key, a resize, a pointer.
    Other,
}

/// What the frame driver is to do after an event.
#[derive(Debug, PartialEq, Eq)]
pub enum Action {
    /// Leave the event loop.
    Exit,
    /// Clear the surface, carry out the draw commands in order, show the
    /// result and ask for the next frame. The edge is the side wall that the
    /// ball passed in this frame.
    Present(Edge, Vec<DrawCommand>),
    /// Nothing.
    Idle,
}

pub struct App<S: State> {
    pub keys_pressed: KeySet,
    pub player: Option<Player>,
    pub enemy: Option<Enemy>,
    pub ball: Option<Ball>,
    pub current_state: S,
}

impl App<GameplayState> {
    /// A game that is about to be played: no key held, and no entity yet.
    pub fn new() -> (app: Self)
        ensures
            app.wf(),
            !app.ready(),
            app.keys_pressed@ == Set::<Key>::empty(),
            app.player is None,
            app.enemy is None,
            app.ball is None,
    {
        App {
            keys_pressed: KeySet::new(),
            player: None,
            enemy: None,
            ball: None,
            current_state: GameplayState,
        }
    }
}

impl<S: State> App<S> {
    /// Every entity that exists is well formed.
    pub open spec fn wf(&self) -> bool {
        &&& self.player matches Some(p) ==> p.wf()
        &&& self.enemy matches Some(e) ==> e.wf()
        &&& self.ball matches Some(b) ==> b.wf()
    }

    /// All three entities exist.
    pub open spec fn ready(&self) -> bool {
        self.player is Some && self.enemy is Some && self.ball is Some
    }

    /// The entities, once all of them exist.
    pub open spec fn scene(&self) -> Scene
        recommends
            self.ready(),
    {
        Scene::of(self.player->0, self.enemy->0, self.ball->0)
    }

    /// Decides `wf`.
    pub fn is_wf(&self) -> (b: bool)
        ensures
            b == self.wf(),
    {
        let player_ok = match &self.player {
            Some(p) => p.shape.is_wf(),
            None => true,
        };
        let enemy_ok = match &self.enemy {
            Some(e) => e.shape.is_wf(),
            None => true,
        };
        let ball_ok = match &self.ball {
            Some(b) => b.is_wf(),
            None => true,
        };
        player_ok && enemy_ok && ball_ok
    }

    /// Puts the three entities at their rest positions, once the renderer is
    /// there to draw them.
    pub fn resumed(&mut self)
        ensures
            final(self).wf(),
            final(self).ready(),
            final(self).scene() == (Scene {
                player: player_at_start(),
                enemy: enemy_at_start(),
                ball: ball_at_start(),
            }),
            final(self).keys_pressed == old(self).keys_pressed,
            final(self).current_state == old(self).current_state,
    {
        self.player = Some(bind_player());
        self.enemy = Some(bind_enemy());
        self.ball = Some(bind_ball());
    }

    /// Takes one event from the window and says what the frame driver is to
    /// do. Until the entities exist nothing happens. After that a redraw
    /// request plays one frame, update first and then draw, and a key event
    /// changes the set of keys held.
    pub fn window_event(&mut self, event: Event) -> (action: Action)
        requires
            old(self).wf(),
        ensures
            final(self).wf(),
            final(self).current_state == old(self).current_state,
            final(self).ready() == old(self).ready(),
            !old(self).ready() ==> *final(self) == *old(self) && action is Idle,
            old(self).ready() ==> match event {
                Event::CloseRequested => *final(self) == *old(self) && action is Exit,
                Event::RedrawRequested => {
                    &&& final(self).keys_pressed == old(self).keys_pressed
                    &&& final(self).scene() == old(self).current_state.step(
                        old(self).scene(),
                        old(self).keys_pressed@,
                    )
                    &&& action matches Action::Present(scored, commands)
                    &&& scored == old(self).current_state.scored(
                        old(self).scene(),
                        old(self).keys_pressed@,
                    )
                    &&& commands@ == old(self).current_state.drawn(
                        final(self).player->0,
                        final(self).enemy->0,
                        final(self).ball->0,
                    )
                },
                Event::KeyPressed(key) => {
                    &&& final(self).keys_pressed@ == old(self).keys_pressed@.insert(key)
                    &&& final(self).scene() == old(self).scene()
                    &&& action is Idle
                },
                Event::KeyReleased(key) => {
                    &&& final(self).keys_pressed@ == old(self).keys_pressed@.remove(key)
                    &&& final(self).scene() == old(self).scene()
                    &&& action is Idle
                },
                Event::Other => *final(self) == *old(self) && action is Idle,
            },
    {
        if self.player.is_none() || self.enemy.is_none() || self.ball.is_none() {
            return Action::Idle;
        }
        match event {
            Event::CloseRequested => Action::Exit,
            Event::RedrawRequested => {
                let mut player = self.player.take().unwrap();
                let mut enemy = self.enemy.take().unwrap();
                let mut ball = self.ball.take().unwrap();
                let scored = self.current_state.update(
                    &mut player,
                    &mut enemy,
                    &mut ball,
                    &self.keys_pressed,
                );
                let commands = self.current_state.draw(&player, &enemy, &ball);
                self.player = Some(player);
                self.enemy = Some(enemy);
                self.ball = Some(ball);
                Action::Present(scored, commands)
            },
            Event::KeyPressed(key) => {
                self.keys_pressed.insert(key);
                Action::Idle
            },
            Event::KeyReleased(key) => {
                self.keys_pressed.remove(key);
                Action::Idle
            },
            Event::Other => Action::Idle,
        }
    }
}

} // verus!
