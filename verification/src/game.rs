//! The simulation as a whole: one camera, one level, one player.
//!
//! The camera's turns and the player are coupled here. When a turn starts,
//! at a request or out of the queue, the player is adjusted to the new
//! viewpoint; in every tick the player moves first and the camera second, so
//! that the player stays frozen through the tick that ends a turn.

use vstd::prelude::*;
use crate::camera::{Camera, CameraView, Direction, Perspective};
use crate::level::{Level, LevelView};
use crate::player::{Player, PlayerView};

verus! {

pub struct Game {
    pub camera: Camera,
    pub level: Level,
    pub player: Player,
}

/// The simulation as contracts see it.
pub struct GameView {
    pub camera: CameraView,
    pub level: LevelView,
    pub player: PlayerView,
}

impl View for Game {
    type V = GameView;

    open spec fn view(&self) -> GameView {
        GameView { camera: self.camera@, level: self.level@, player: self.player@ }
    }
}

impl GameView {
    /// The camera is well formed, and the platform that carries the player,
    /// if any, is one of the level.
    pub open spec fn wf(self) -> bool {
        self.camera.wf() && self.player.stands_within(self.level.platforms)
    }

    /// The simulation after a request to turn the camera.
    pub open spec fn turned(self, dir: Direction) -> GameView {
        let camera = self.camera.rotate(dir);
        GameView {
            camera,
            player: if self.camera.turning is None {
                self.player.snapped_from_camera(camera.facing, self.level.platforms)
            } else {
                self.player
            },
            level: self.level,
        }
    }

    /// The simulation after `delta` milliseconds.
    pub open spec fn tick(self, delta: nat) -> GameView {
        let player = self.player.tick(delta, self.camera, self.level.platforms);
        let camera = self.camera.tick(delta);
        GameView {
            camera,
            player: if self.camera.completes(delta) && self.camera.queued is Some {
                player.snapped_from_camera(camera.facing, self.level.platforms)
            } else {
                player
            },
            level: self.level,
        }
    }

    /// The simulation after the zoom has changed by `diff`.
    pub open spec fn zoomed(self, diff: int) -> GameView {
        GameView { camera: self.camera.zoomed(diff), ..self }
    }
}

impl Game {
    /// A simulation that starts with the camera at rest in the south and
    /// the player in the air at `player_pos`.
    pub fn new(level: Level, player_pos: (i64, i64, i64)) -> (r: Game)
        ensures
            r@ == (GameView {
                camera: CameraView::settled(Perspective::S, 0),
                level: level@,
                player: PlayerView::fresh(
                    (player_pos.0 as int, player_pos.1 as int, player_pos.2 as int),
                ),
            }),
            r@.wf(),
            r.level.bg_color == level.bg_color,
    {
        Game { camera: Camera::new(Perspective::S), level, player: Player::new(player_pos) }
    }

    /// Whether the platform that carries the player, if any, is one of the
    /// level. It is, unless the player's footing or the level's platforms
    /// were changed by hand.
    pub fn is_consistent(&self) -> (r: bool)
        ensures
            r == self@.player.stands_within(self@.level.platforms),
    {
        match self.player.standing_on {
            Some(i) => i < self.level.platforms.len(),
            None => true,
        }
    }

    fn turn_camera(&mut self, dir: Direction)
        requires
            old(self)@.player.stands_within(old(self)@.level.platforms),
        ensures
            final(self)@ == old(self)@.turned(dir),
            final(self)@.wf(),
            final(self).level.bg_color == old(self).level.bg_color,
    {
        let resting: bool = !self.camera.is_rotating();
        self.camera.rotate(dir);
        if resting {
            self.player.snap_from_camera_position(self.camera.perspective(), &self.level);
        }
    }

    pub fn move_camera_left(&mut self)
        requires
            old(self)@.player.stands_within(old(self)@.level.platforms),
        ensures
            final(self)@ == old(self)@.turned(Direction::Left),
            final(self)@.wf(),
            final(self).level.bg_color == old(self).level.bg_color,
    {
        self.turn_camera(Direction::Left)
    }

    pub fn move_camera_right(&mut self)
        requires
            old(self)@.player.stands_within(old(self)@.level.platforms),
        ensures
            final(self)@ == old(self)@.turned(Direction::Right),
            final(self)@.wf(),
            final(self).level.bg_color == old(self).level.bg_color,
    {
        self.turn_camera(Direction::Right)
    }

    pub fn zoom_camera(&mut self, diff: i32)
        ensures
            final(self)@ == old(self)@.zoomed(diff as int),
            final(self).level.bg_color == old(self).level.bg_color,
    {
        self.camera.zoom_by(diff);
    }

    /// Advances the simulation by `delta` milliseconds: the player first,
    /// then the camera.
    pub fn tick(&mut self, delta: u32)
        requires
            old(self)@.player.stands_within(old(self)@.level.platforms),
        ensures
            final(self)@ == old(self)@.tick(delta as nat),
            final(self)@.wf(),
            final(self).level.bg_color == old(self).level.bg_color,
    {
        self.player.tick(delta, &self.camera, &self.level);
        let waiting: bool = self.camera.queued().is_some();
        self.camera.tick(delta);
        if waiting && self.camera.queued().is_none() {
            self.player.snap_from_camera_position(self.camera.perspective(), &self.level);
        }
    }
}

/// Through a tick that finds the camera turning the player keeps its
/// height, its speed, its flags and its footing, and unless a queued turn
/// starts in that tick, its whole state.
pub proof fn lemma_game_freezes_player_during_turn(g: GameView, delta: nat)
    requires
        g.wf(),
        g.camera.turning is Some,
    ensures
        g.tick(delta).player.pos.2 == g.player.pos.2,
        g.tick(delta).player.z_vel == g.player.z_vel,
        g.tick(delta).player.movement == g.player.movement,
        g.tick(delta).player.standing_on == g.player.standing_on,
        !(g.camera.completes(delta) && g.camera.queued is Some) ==> g.tick(delta).player
            == g.player,
{
    let facing = g.camera.tick(delta).facing;
    let over = g.player.brought_over(facing, g.level.platforms);
    crate::player::lemma_pull_changes_depth_only(
        over.pos,
        facing,
        g.level.platforms,
        g.level.platforms.len() as int,
    );
}

/// Requests and ticks keep the simulation well formed.
pub proof fn lemma_game_stays_well_formed(g: GameView, dir: Direction, delta: nat, diff: int)
    requires
        g.wf(),
    ensures
        g.turned(dir).wf(),
        g.tick(delta).wf(),
        g.zoomed(diff).wf(),
{
    crate::camera::lemma_rotate_steps_once(g.camera, dir);
    crate::camera::lemma_tick_steps_at_most_once(g.camera, delta);
    crate::player::lemma_tick_keeps_footing(g.player, delta, g.camera, g.level.platforms);
}

} // verus!
