//! The player: sideways movement relative to the camera, jumping and
//! falling under two rates of gravity, landing on platforms, and staying in
//! view when a platform would hide it.
//!
//! Landing looks at platform tops only, along the axis that runs across the
//! screen; platform sides stop nothing. When several platforms are met in
//! one tick the one that comes last in the level wins, which need not be the
//! nearest. Within a tick the player moves sideways first and is then
//! tested, where it has arrived, against the heights that it crosses on the
//! way down: a long tick can carry it past a platform on which several
//! short ones would have landed it.

use vstd::prelude::*;
use crate::camera::{Camera, CameraView, Perspective};
use crate::fixed::{clamp_i64, distance, half_up, magnitude, saturate};
use crate::level::{last_hit, lemma_last_hit_is_last, Level, Platform};
use crate::movement::{Flag, Movement};

verus! {

/// Sideways speed: six world units per second.
pub const MOVE_VEL: i64 = 12_000;

/// Upward speed at the start of a jump: fourteen world units per second.
pub const JUMP_VEL: i64 = 28_000;

/// Gravity while a jump is held, as the speed lost in one millisecond:
/// twenty-five world units per second and second.
pub const JUMP_GRAVITY: i64 = 50;

/// Gravity otherwise: fifty world units per second and second.
pub const DEFAULT_GRAVITY: i64 = 100;

/// The greatest speed of a fall: twenty-four world units per second.
pub const MAX_FALL_VEL: i64 = 48_000;

/// The width and the height of the player: one world unit.
pub const PLAYER_SIZE: u64 = 2_000_000;

/// Half of `PLAYER_SIZE`.
pub const PLAYER_HALF: i64 = 1_000_000;

/// How far a jump with the down key held lowers the player: a hundredth
/// of a world unit.
pub const DROP_NUDGE: i64 = 20_000;

pub struct Player {
    pub pos: (i64, i64, i64),
    pub movement: Movement,
    pub z_vel: i64,
    /// The index, in the level, of the platform that carries the player.
    pub standing_on: Option<usize>,
    /// Set when a turn of the camera left the player hidden behind a
    /// platform, until no platform hides it.
    pub behind_wall: bool,
}

/// The player as contracts see it.
pub struct PlayerView {
    pub pos: (int, int, int),
    pub movement: Set<Flag>,
    pub z_vel: int,
    pub standing_on: Option<int>,
    pub behind_wall: bool,
}

impl View for Player {
    type V = PlayerView;

    open spec fn view(&self) -> PlayerView {
        PlayerView {
            pos: (self.pos.0 as int, self.pos.1 as int, self.pos.2 as int),
            movement: self.movement@,
            z_vel: self.z_vel as int,
            standing_on: index_view(self.standing_on),
            behind_wall: self.behind_wall,
        }
    }
}

/// An index as contracts see it.
pub open spec fn index_view(index: Option<usize>) -> Option<int> {
    match index {
        Some(i) => Some(i as int),
        None => None,
    }
}

/// The height gained in `delta` milliseconds from the speed `z_vel` under
/// the gravity `g`: the way covered at that speed, less half the gravity
/// for each millisecond squared. Both gravities of this library are even,
/// so nothing is rounded.
pub open spec fn rise(z_vel: int, g: int, delta: nat) -> int {
    delta * z_vel - delta * delta * (g / 2)
}

/// The speed after `delta` milliseconds under the gravity `g`, which never
/// falls faster than `MAX_FALL_VEL`.
pub open spec fn speed_after(z_vel: int, g: int, delta: nat) -> int {
    let v = z_vel - delta * g;
    if v < -MAX_FALL_VEL {
        -MAX_FALL_VEL as int
    } else {
        v
    }
}

/// `v` taken with the sign of `s`.
pub open spec fn with_sign(s: int, v: int) -> int {
    if s > 0 {
        v
    } else if s < 0 {
        -v
    } else {
        0
    }
}

/// The sign of the axis across the screen that points to the right of the
/// screen.
pub open spec fn screen_right(facing: Perspective) -> int {
    match facing {
        Perspective::S | Perspective::E => 1,
        Perspective::N | Perspective::W => -1,
    }
}

/// Whether the camera stands on the low side of its depth axis.
pub open spec fn camera_on_low_side(facing: Perspective) -> bool {
    facing == Perspective::S || facing == Perspective::W
}

/// The coordinate of `v` that runs across the screen.
pub open spec fn across(facing: Perspective, v: (int, int, int)) -> int {
    if facing.along_x() {
        v.0
    } else {
        v.1
    }
}

/// The coordinate of `v` that runs into the screen.
pub open spec fn depth(facing: Perspective, v: (int, int, int)) -> int {
    if facing.along_x() {
        v.1
    } else {
        v.0
    }
}

/// The centre of the surface of `p`.
pub open spec fn center_of(p: Platform) -> (int, int, int) {
    (p.surface_center.0 as int, p.surface_center.1 as int, p.surface_center.2 as int)
}

/// The extent of `p` across the screen.
pub open spec fn extent_across(facing: Perspective, p: Platform) -> int {
    if facing.along_x() {
        p.surface_dim.0 as int
    } else {
        p.surface_dim.1 as int
    }
}

/// The extent of `p` into the screen.
pub open spec fn extent_in_depth(facing: Perspective, p: Platform) -> int {
    if facing.along_x() {
        p.surface_dim.1 as int
    } else {
        p.surface_dim.0 as int
    }
}

/// Whether `p` hides a player at `pos` from the given viewpoint: the
/// player stands below the surface and reaches above the base, is over the
/// platform across the screen by more than a touch, and is not wholly in
/// front of the face that the camera sees.
pub open spec fn hidden_by(pos: (int, int, int), facing: Perspective, p: Platform) -> bool {
    let c = center_of(p);
    &&& pos.2 < c.2
    &&& pos.2 + PLAYER_SIZE > c.2 - p.height
    &&& 2 * magnitude(across(facing, pos) - across(facing, c)) < extent_across(facing, p)
        + PLAYER_SIZE
    &&& if camera_on_low_side(facing) {
        2 * (depth(facing, pos) + PLAYER_HALF) > 2 * depth(facing, c) - extent_in_depth(facing, p)
    } else {
        2 * (depth(facing, pos) - PLAYER_HALF) < 2 * depth(facing, c) + extent_in_depth(facing, p)
    }
}

/// Whether one of the first `n` platforms hides a player at `pos`.
pub open spec fn hidden_among(
    pos: (int, int, int),
    facing: Perspective,
    platforms: Seq<Platform>,
    n: int,
) -> bool {
    exists|i: int| 0 <= i < n && hidden_by(pos, facing, #[trigger] platforms[i])
}

/// The depth at which a player stands wholly in front of the face of `p`
/// that the camera sees; half the extent is rounded away from the platform.
pub open spec fn in_front_of(facing: Perspective, p: Platform) -> int {
    let reach = half_up(extent_in_depth(facing, p)) + PLAYER_HALF;
    if camera_on_low_side(facing) {
        depth(facing, center_of(p)) - reach
    } else {
        depth(facing, center_of(p)) + reach
    }
}

/// `pos` with its depth, as seen from `facing`, replaced.
pub open spec fn with_depth(pos: (int, int, int), facing: Perspective, depth: int) -> (
    int,
    int,
    int,
) {
    if facing.along_x() {
        (pos.0, depth, pos.2)
    } else {
        (depth, pos.1, pos.2)
    }
}

/// `pos` with its coordinate across the screen, as seen from `facing`, replaced.
pub open spec fn with_across(pos: (int, int, int), facing: Perspective, across: int) -> (
    int,
    int,
    int,
) {
    if facing.along_x() {
        (across, pos.1, pos.2)
    } else {
        (pos.0, across, pos.2)
    }
}

/// `pos` brought in front of `p` if `p` hides it.
pub open spec fn pulled_before(pos: (int, int, int), facing: Perspective, p: Platform) -> (
    int,
    int,
    int,
) {
    if hidden_by(pos, facing, p) {
        with_depth(pos, facing, clamp_i64(in_front_of(facing, p)))
    } else {
        pos
    }
}

/// `pos` after the first `n` platforms, taken in order, have each pulled it
/// in front of themselves.
pub open spec fn pulled_out(
    pos: (int, int, int),
    facing: Perspective,
    platforms: Seq<Platform>,
    n: int,
) -> (int, int, int)
    decreases n,
{
    if n <= 0 {
        pos
    } else {
        pulled_before(pulled_out(pos, facing, platforms, n - 1), facing, platforms[n - 1])
    }
}

impl PlayerView {
    pub open spec fn fresh(pos: (int, int, int)) -> PlayerView {
        PlayerView {
            pos,
            movement: Set::empty(),
            z_vel: 0,
            standing_on: None,
            behind_wall: false,
        }
    }

    /// Whether the platform that carries the player, if any, is one of `platforms`.
    pub open spec fn stands_within(self, platforms: Seq<Platform>) -> bool {
        self.standing_on matches Some(i) ==> 0 <= i < platforms.len()
    }

    /// The player after one tick for each of `deltas`, in order, with the
    /// camera and the level as given.
    pub open spec fn ticked_through(
        self,
        deltas: Seq<nat>,
        camera: CameraView,
        platforms: Seq<Platform>,
    ) -> PlayerView
        decreases deltas.len(),
    {
        if deltas.len() == 0 {
            self
        } else {
            self.ticked_through(deltas.drop_last(), camera, platforms).tick(
                deltas.last(),
                camera,
                platforms,
            )
        }
    }

    /// Whether the vertical speed lies between the fastest fall and the
    /// start of a jump.
    pub open spec fn speed_in_bounds(self) -> bool {
        -MAX_FALL_VEL <= self.z_vel <= JUMP_VEL
    }

    /// Minus one while moving left, one while moving right, else zero.
    pub open spec fn heading(self) -> int {
        if self.movement.contains(Flag::MovingLeft) {
            -1
        } else if self.movement.contains(Flag::MovingRight) {
            1
        } else {
            0
        }
    }

    /// The gravity that acts on the player.
    pub open spec fn gravity(self) -> int {
        if self.movement.contains(Flag::Jumping) {
            JUMP_GRAVITY as int
        } else {
            DEFAULT_GRAVITY as int
        }
    }

    /// The player after `delta` milliseconds of sideways movement.
    pub open spec fn walked(self, facing: Perspective, delta: nat) -> PlayerView {
        let step = with_sign(
            self.heading(),
            with_sign(screen_right(facing), MOVE_VEL * delta),
        );
        PlayerView {
            pos: with_across(self.pos, facing, clamp_i64(across(facing, self.pos) + step)),
            ..self
        }
    }

    /// The height after `delta` milliseconds, before any landing.
    pub open spec fn height_after(self, delta: nat) -> int {
        clamp_i64(self.pos.2 + rise(self.z_vel, self.gravity(), delta))
    }

    /// The lowest height that the player passes in `delta` milliseconds.
    pub open spec fn swept_lower(self, delta: nat) -> int {
        if self.pos.2 <= self.height_after(delta) {
            self.pos.2
        } else {
            self.height_after(delta)
        }
    }

    /// The greatest height that the player passes in `delta` milliseconds.
    pub open spec fn swept_upper(self, delta: nat) -> int {
        if self.pos.2 <= self.height_after(delta) {
            self.height_after(delta)
        } else {
            self.pos.2
        }
    }

    /// Whether the player, where it is, meets `p` at a height that it
    /// passes in `delta` milliseconds.
    pub open spec fn meets(self, p: Platform, facing: Perspective, delta: nat) -> bool {
        p.intersects_from(
            facing,
            self.pos.0,
            self.pos.1,
            PLAYER_SIZE as int,
            self.swept_lower(delta),
            self.swept_upper(delta),
        )
    }

    /// The last platform of the level that the player meets in `delta`
    /// milliseconds.
    pub open spec fn last_met(
        self,
        facing: Perspective,
        delta: nat,
        platforms: Seq<Platform>,
    ) -> Option<int> {
        last_hit(
            platforms,
            platforms.len() as int,
            facing,
            self.pos.0,
            self.pos.1,
            PLAYER_SIZE as int,
            self.swept_lower(delta),
            self.swept_upper(delta),
        )
    }

    /// The player after `delta` milliseconds of rising or falling.
    pub open spec fn fallen(
        self,
        facing: Perspective,
        delta: nat,
        platforms: Seq<Platform>,
    ) -> PlayerView {
        let new_z = self.height_after(delta);
        let new_vel = speed_after(self.z_vel, self.gravity(), delta);
        if new_vel < 0 {
            match self.last_met(facing, delta, platforms) {
                Some(i) => PlayerView {
                    pos: (self.pos.0, self.pos.1, platforms[i].surface_center.2 as int),
                    movement: self.movement.remove(Flag::Jumping),
                    z_vel: 0,
                    standing_on: Some(i),
                    behind_wall: self.behind_wall,
                },
                None => PlayerView {
                    pos: (self.pos.0, self.pos.1, new_z),
                    movement: self.movement.remove(Flag::Jumping),
                    z_vel: new_vel,
                    standing_on: None,
                    behind_wall: self.behind_wall,
                },
            }
        } else {
            PlayerView { pos: (self.pos.0, self.pos.1, new_z), z_vel: new_vel, ..self }
        }
    }

    /// The player after it has been kept in view: one that is not marked as
    /// hidden is pulled in front of each platform that hides it, in order;
    /// one that is marked stays where it is, and the mark goes once no
    /// platform hides it.
    pub open spec fn kept_in_view(self, facing: Perspective, platforms: Seq<Platform>) -> PlayerView {
        if self.behind_wall {
            PlayerView {
                behind_wall: hidden_among(self.pos, facing, platforms, platforms.len() as int),
                ..self
            }
        } else {
            PlayerView {
                pos: pulled_out(self.pos, facing, platforms, platforms.len() as int),
                ..self
            }
        }
    }

    /// The player after `delta` milliseconds. Nothing moves while the
    /// camera turns.
    pub open spec fn tick(self, delta: nat, camera: CameraView, platforms: Seq<Platform>) -> PlayerView {
        if camera.turning is Some {
            self
        } else {
            self.walked(camera.facing, delta).fallen(camera.facing, delta, platforms).kept_in_view(
                camera.facing,
                platforms,
            )
        }
    }

    /// The player after the jump key is pressed.
    pub open spec fn pressed_jump(self) -> PlayerView {
        if self.standing_on is None {
            self
        } else if self.movement.contains(Flag::PressingDown) {
            PlayerView {
                pos: (self.pos.0, self.pos.1, clamp_i64(self.pos.2 - DROP_NUDGE)),
                ..self
            }
        } else {
            PlayerView {
                z_vel: JUMP_VEL as int,
                standing_on: None,
                movement: self.movement.insert(Flag::Jumping),
                ..self
            }
        }
    }

    /// The player after the jump key is released.
    pub open spec fn released_jump(self) -> PlayerView {
        PlayerView { movement: self.movement.remove(Flag::Jumping), ..self }
    }

    /// The player brought back over `p` along the axis that runs across the
    /// screen, which the viewpoint before the turn did not test. A player
    /// that is further than a touch from the platform goes to the place
    /// nearest to it at which it touches: half the platform's extent and
    /// half its own width from the centre, on the side on which it was. Half
    /// of an odd sum is rounded down, towards the platform.
    pub open spec fn snapped_to(self, facing: Perspective, p: Platform) -> PlayerView {
        let at = across(facing, self.pos);
        let center = across(facing, center_of(p));
        let reach = (extent_across(facing, p) + PLAYER_SIZE) / 2;
        if 2 * magnitude(at - center) > extent_across(facing, p) + PLAYER_SIZE {
            let edge = if at < center {
                center - reach
            } else {
                center + reach
            };
            PlayerView { pos: with_across(self.pos, facing, edge), ..self }
        } else {
            self
        }
    }

    /// The player brought back over the platform that carries it, if one
    /// does.
    pub open spec fn brought_over(self, facing: Perspective, platforms: Seq<Platform>) -> PlayerView {
        match self.standing_on {
            Some(i) => self.snapped_to(facing, platforms[i]),
            None => self,
        }
    }

    /// The player after the camera has started a turn towards `facing`. It
    /// is brought back over the platform that carries it. It is then marked
    /// as hidden exactly if a platform hides it from the new viewpoint, and
    /// unless it bore that mark already, it is pulled in front of each
    /// platform that hides it, in order.
    pub open spec fn snapped_from_camera(
        self,
        facing: Perspective,
        platforms: Seq<Platform>,
    ) -> PlayerView {
        let over = self.brought_over(facing, platforms);
        PlayerView {
            pos: if over.behind_wall {
                over.pos
            } else {
                pulled_out(over.pos, facing, platforms, platforms.len() as int)
            },
            behind_wall: hidden_among(over.pos, facing, platforms, platforms.len() as int),
            ..over
        }
    }
}

impl Player {
    pub fn new(pos: (i64, i64, i64)) -> (r: Player)
        ensures
            r@ == PlayerView::fresh((pos.0 as int, pos.1 as int, pos.2 as int)),
            r.pos == pos,
    {
        Player {
            pos,
            z_vel: 0,
            standing_on: None,
            movement: Movement::empty(),
            behind_wall: false,
        }
    }

    /// Starts a jump. With the down key held the player is lowered a little
    /// instead, which lets it leave the platform it stands on. In the air
    /// the key does nothing.
    pub fn press_jump(&mut self)
        ensures
            final(self)@ == old(self)@.pressed_jump(),
            old(self).standing_on is None ==> *final(self) == *old(self),
    {
        if self.standing_on.is_some() {
            if self.movement.contains(Flag::PressingDown) {
                self.pos.2 = saturate((self.pos.2 as i128) - (DROP_NUDGE as i128));
            } else {
                self.z_vel = JUMP_VEL;
                self.standing_on = None;
                self.movement.insert(Flag::Jumping);
            }
        }
    }

    /// Ends the held part of a jump: gravity is back at its default.
    pub fn release_jump(&mut self)
        ensures
            final(self)@ == old(self)@.released_jump(),
    {
        self.movement.remove(Flag::Jumping);
    }

    /// Whether `platform` hides the player from the given viewpoint.
    pub fn behind_wall(&self, camera_position: Perspective, platform: &Platform) -> (r: bool)
        ensures
            r == hidden_by(self@.pos, camera_position, *platform),
    {
        let c = platform.surface_center;
        let d = platform.surface_dim;
        let size: i128 = PLAYER_SIZE as i128;
        let half: i128 = PLAYER_HALF as i128;
        let x: i128 = self.pos.0 as i128;
        let y: i128 = self.pos.1 as i128;
        let z: i128 = self.pos.2 as i128;
        if !(self.pos.2 < c.2 && z + size > (c.2 as i128) - (platform.height as i128)) {
            return false;
        }
        match camera_position {
            Perspective::S => 2 * distance(self.pos.0, c.0) < (d.0 as i128) + size && 2 * (y
                + half) > 2 * (c.1 as i128) - (d.1 as i128),
            Perspective::N => 2 * distance(self.pos.0, c.0) < (d.0 as i128) + size && 2 * (y
                - half) < 2 * (c.1 as i128) + (d.1 as i128),
            Perspective::W => 2 * distance(self.pos.1, c.1) < (d.1 as i128) + size && 2 * (x
                + half) > 2 * (c.0 as i128) - (d.0 as i128),
            Perspective::E => 2 * distance(self.pos.1, c.1) < (d.1 as i128) + size && 2 * (x
                - half) < 2 * (c.0 as i128) + (d.0 as i128),
        }
    }

    /// Whether any platform of the level hides the player.
    fn behind_any_wall(&self, camera_position: Perspective, level: &Level) -> (r: bool)
        ensures
            r == hidden_among(self@.pos, camera_position, level@.platforms, level@.platforms.len() as int),
    {
        let n: usize = level.platforms.len();
        let mut i: usize = 0;
        while i < n
            invariant
                n == level.platforms.len(),
                i <= n,
                !hidden_among(self@.pos, camera_position, level@.platforms, i as int),
            decreases n - i,
        {
            if self.behind_wall(camera_position, &level.platforms[i]) {
                return true;
            }
            i += 1;
        }
        false
    }

    /// Brings the player back over `platform` along the axis that runs
    /// across the screen.
    pub fn snap_to_platform(&mut self, cam_pos: Perspective, platform: &Platform)
        ensures
            final(self)@ == old(self)@.snapped_to(cam_pos, *platform),
    {
        let along_x: bool = match cam_pos {
            Perspective::S | Perspective::N => true,
            Perspective::E | Perspective::W => false,
        };
        let across: i64 = if along_x {
            self.pos.0
        } else {
            self.pos.1
        };
        let center: i64 = if along_x {
            platform.surface_center.0
        } else {
            platform.surface_center.1
        };
        let extent: u64 = if along_x {
            platform.surface_dim.0
        } else {
            platform.surface_dim.1
        };
        let padded: i128 = (extent as i128) + (PLAYER_SIZE as i128);
        if 2 * distance(across, center) > padded {
            let reach: i128 = padded / 2;
            let edge: i128 = if across < center {
                (center as i128) - reach
            } else {
                (center as i128) + reach
            };
            // the edge lies between the centre and the player
            let edge: i64 = edge as i64;
            if along_x {
                self.pos.0 = edge;
            } else {
                self.pos.1 = edge;
            }
        }
    }

    /// Adjusts the player to a turn of the camera that has just started
    /// towards `cam_pos`. A player that stands on a platform is brought back
    /// over it. A player that a platform hides from the new viewpoint is
    /// pulled in front of it, unless it was marked as hidden before; it is
    /// marked as hidden now, and the next tick that finds it in view takes
    /// the mark away again. A player that no platform hides loses the mark.
    pub fn snap_from_camera_position(&mut self, cam_pos: Perspective, level: &Level)
        requires
            old(self).standing_on matches Some(i) ==> i < level@.platforms.len(),
        ensures
            final(self)@ == old(self)@.snapped_from_camera(cam_pos, level@.platforms),
    {
        if let Some(i) = self.standing_on {
            self.snap_to_platform(cam_pos, &level.platforms[i]);
        }
        let hidden: bool = self.behind_any_wall(cam_pos, level);
        self.keep_in_view(cam_pos, level);
        self.behind_wall = hidden;
    }

    /// Sideways movement.
    fn walk(&mut self, delta: u32, facing: Perspective)
        ensures
            final(self)@ == old(self)@.walked(facing, delta as nat),
    {
        let heading: i128 = if self.movement.moving_left() {
            -1
        } else if self.movement.moving_right() {
            1
        } else {
            0
        };
        let right: i128 = match facing {
            Perspective::S | Perspective::E => 1,
            Perspective::N | Perspective::W => -1,
        };
        assert(MOVE_VEL == 12_000);
        let length: i128 = 12_000 * (delta as i128);
        let towards_right: i128 = if right > 0 {
            length
        } else {
            -length
        };
        let step: i128 = if heading > 0 {
            towards_right
        } else if heading < 0 {
            -towards_right
        } else {
            0
        };
        match facing {
            Perspective::S | Perspective::N => {
                self.pos.0 = saturate((self.pos.0 as i128) + step);
            },
            Perspective::E | Perspective::W => {
                self.pos.1 = saturate((self.pos.1 as i128) + step);
            },
        }
    }

    /// The index of the last platform that the player meets between the
    /// heights `z_lower` and `z_upper`.
    fn landing(&self, facing: Perspective, level: &Level, z_lower: i64, z_upper: i64) -> (r:
        Option<usize>)
        ensures
            index_view(r) == last_hit(
                level@.platforms,
                level@.platforms.len() as int,
                facing,
                self@.pos.0,
                self@.pos.1,
                PLAYER_SIZE as int,
                z_lower as int,
                z_upper as int,
            ),
            r matches Some(i) ==> i < level@.platforms.len(),
    {
        let n: usize = level.platforms.len();
        let mut found: Option<usize> = None;
        let mut i: usize = 0;
        while i < n
            invariant
                n == level.platforms.len(),
                i <= n,
                found matches Some(j) ==> j < i,
                index_view(found) == last_hit(
                    level@.platforms,
                    i as int,
                    facing,
                    self@.pos.0,
                    self@.pos.1,
                    PLAYER_SIZE as int,
                    z_lower as int,
                    z_upper as int,
                ),
            decreases n - i,
        {
            let platform = &level.platforms[i];
            let intersects: bool = match facing {
                Perspective::S | Perspective::N => platform.intersection_x(
                    self.pos.0,
                    PLAYER_SIZE,
                    z_lower,
                    z_upper,
                ),
                Perspective::W | Perspective::E => platform.intersection_y(
                    self.pos.1,
                    PLAYER_SIZE,
                    z_lower,
                    z_upper,
                ),
            };
            if intersects {
                found = Some(i);
            }
            i += 1;
        }
        found
    }

    /// Rising, falling and landing.
    fn fall(&mut self, delta: u32, facing: Perspective, level: &Level)
        ensures
            final(self)@ == old(self)@.fallen(facing, delta as nat, level@.platforms),
    {
        let jumping: bool = self.movement.contains(Flag::Jumping);
        let d: i128 = delta as i128;
        let v: i128 = self.z_vel as i128;
        assert(0 <= d * d <= 0xFFFF_FFFF * 0xFFFF_FFFF) by (nonlinear_arith)
            requires
                0 <= d <= 0xFFFF_FFFF,
        ;
        assert(-0x8000_0000_0000_0000 * 0xFFFF_FFFF <= d * v <= 0x8000_0000_0000_0000
            * 0xFFFF_FFFF) by (nonlinear_arith)
            requires
                0 <= d <= 0xFFFF_FFFF,
                -0x8000_0000_0000_0000 <= v <= 0x8000_0000_0000_0000,
        ;
        let square: i128 = d * d;
        let way: i128 = d * v;
        assert(JUMP_GRAVITY == 50 && DEFAULT_GRAVITY == 100);
        // half the gravity for each millisecond squared
        let drop: i128 = if jumping {
            square * 25
        } else {
            square * 50
        };
        let loss: i128 = if jumping {
            d * 50
        } else {
            d * 100
        };
        let gain: i128 = way - drop;
        let z: i64 = self.pos.2;
        let mut new_z: i64 = saturate((z as i128) + gain);
        let slowed: i128 = v - loss;
        let mut new_z_vel: i64 = if slowed < -(MAX_FALL_VEL as i128) {
            -MAX_FALL_VEL
        } else {
            slowed as i64
        };
        assert(new_z == old(self)@.height_after(delta as nat));
        assert(new_z_vel == speed_after(old(self)@.z_vel, old(self)@.gravity(), delta as nat));
        if new_z_vel < 0 {
            self.movement.remove(Flag::Jumping);
            let z_lower: i64 = if z <= new_z {
                z
            } else {
                new_z
            };
            let z_upper: i64 = if z <= new_z {
                new_z
            } else {
                z
            };
            match self.landing(facing, level, z_lower, z_upper) {
                Some(i) => {
                    new_z = level.platforms[i].surface_center.2;
                    new_z_vel = 0;
                    self.standing_on = Some(i);
                },
                None => {},
            }
        }
        self.pos.2 = new_z;
        self.z_vel = new_z_vel;
        if self.z_vel < 0 {
            self.standing_on = None;
        }
    }

    /// The depth at which the player stands in front of `platform`.
    fn depth_in_front_of(facing: Perspective, platform: &Platform) -> (r: i64)
        ensures
            r == clamp_i64(in_front_of(facing, *platform)),
    {
        let c = platform.surface_center;
        let d = platform.surface_dim;
        let half: i128 = PLAYER_HALF as i128;
        match facing {
            Perspective::S => saturate((c.1 as i128) - ((d.1 as i128) + 1) / 2 - half),
            Perspective::N => saturate((c.1 as i128) + ((d.1 as i128) + 1) / 2 + half),
            Perspective::W => saturate((c.0 as i128) - ((d.0 as i128) + 1) / 2 - half),
            Perspective::E => saturate((c.0 as i128) + ((d.0 as i128) + 1) / 2 + half),
        }
    }

    /// Keeps the player in view.
    fn keep_in_view(&mut self, facing: Perspective, level: &Level)
        ensures
            final(self)@ == old(self)@.kept_in_view(facing, level@.platforms),
    {
        if self.behind_wall {
            if !self.behind_any_wall(facing, level) {
                self.behind_wall = false;
            }
        } else {
            let n: usize = level.platforms.len();
            let mut i: usize = 0;
            while i < n
                invariant
                    n == level.platforms.len(),
                    i <= n,
                    self@ == (PlayerView {
                        pos: pulled_out(old(self)@.pos, facing, level@.platforms, i as int),
                        ..old(self)@
                    }),
                decreases n - i,
            {
                let platform = &level.platforms[i];
                if self.behind_wall(facing, platform) {
                    let depth: i64 = Self::depth_in_front_of(facing, platform);
                    match facing {
                        Perspective::S | Perspective::N => {
                            self.pos.1 = depth;
                        },
                        Perspective::W | Perspective::E => {
                            self.pos.0 = depth;
                        },
                    }
                }
                i += 1;
            }
        }
    }

    /// Advances the player by `delta` milliseconds. Call it before the
    /// camera's own tick: a tick that ends a turn must still find the
    /// camera turning.
    pub fn tick(&mut self, delta: u32, camera: &Camera, level: &Level)
        ensures
            final(self)@ == old(self)@.tick(delta as nat, camera@, level@.platforms),
            camera@.turning is Some ==> *final(self) == *old(self),
            old(self)@.stands_within(level@.platforms) ==> final(self)@.stands_within(level@.platforms),
    {
        if camera.is_rotating() {
            return;
        }
        proof {
            if self@.stands_within(level@.platforms) {
                lemma_tick_keeps_footing(self@, delta as nat, camera@, level@.platforms);
            }
        }
        let facing = camera.perspective();
        self.walk(delta, facing);
        self.fall(delta, facing, level);
        self.keep_in_view(facing, level);
    }
}

/// While the camera turns, ticks leave the player as it is, however many
/// there are, however long they last and whatever keys are held.
pub proof fn lemma_frozen_while_camera_turns(
    p: PlayerView,
    deltas: Seq<nat>,
    camera: CameraView,
    platforms: Seq<Platform>,
)
    requires
        camera.turning is Some,
    ensures
        p.ticked_through(deltas, camera, platforms) == p,
    decreases deltas.len(),
{
    if deltas.len() > 0 {
        lemma_frozen_while_camera_turns(p, deltas.drop_last(), camera, platforms);
    }
}

/// The key functions and a jump move the player neither across the screen
/// nor in depth, so a turning camera freezes both coordinates whatever is
/// pressed between ticks.
pub proof fn lemma_keys_do_not_move_sideways(p: PlayerView)
    ensures
        p.pressed_jump().pos.0 == p.pos.0 && p.pressed_jump().pos.1 == p.pos.1,
        p.released_jump().pos == p.pos,
{
}

/// In the air the jump key changes nothing.
pub proof fn lemma_no_jump_in_the_air(p: PlayerView)
    requires
        p.standing_on is None,
    ensures
        p.pressed_jump() == p,
{
}

/// On a platform, and without the down key, the jump key starts a jump:
/// the player leaves the platform at `JUMP_VEL` under the lighter gravity.
pub proof fn lemma_jump_from_platform(p: PlayerView)
    requires
        p.standing_on is Some,
        !p.movement.contains(Flag::PressingDown),
    ensures
        p.pressed_jump().z_vel == JUMP_VEL,
        p.pressed_jump().standing_on is None,
        p.pressed_jump().gravity() == JUMP_GRAVITY,
        p.pressed_jump().pos == p.pos,
        p.pressed_jump().released_jump().gravity() == DEFAULT_GRAVITY,
{
}

/// The height gained in a tick is exact: twice the gain is the whole
/// number that the formula gives for twice the gain, under both gravities.
pub proof fn lemma_rise_is_exact(z_vel: int, delta: nat)
    ensures
        2 * rise(z_vel, JUMP_GRAVITY as int, delta) == delta * (2 * z_vel - delta * JUMP_GRAVITY),
        2 * rise(z_vel, DEFAULT_GRAVITY as int, delta) == delta * (2 * z_vel - delta
            * DEFAULT_GRAVITY),
{
    assert(2 * (delta * z_vel - delta * delta * 25) == delta * (2 * z_vel - delta * 50))
        by (nonlinear_arith);
    assert(2 * (delta * z_vel - delta * delta * 50) == delta * (2 * z_vel - delta * 100))
        by (nonlinear_arith);
}

/// Gravity takes speed away and never gives any: the speed after a tick
/// is no greater than before, unless it was beyond the fastest fall. A
/// body without upward speed gains no height, and after a tick of some
/// length it falls. A tick of no length changes neither height nor speed.
pub proof fn lemma_gravity_pulls_down(p: PlayerView, delta: nat)
    ensures
        speed_after(p.z_vel, p.gravity(), delta) <= p.z_vel || speed_after(
            p.z_vel,
            p.gravity(),
            delta,
        ) == -MAX_FALL_VEL,
        speed_after(p.z_vel, p.gravity(), delta) >= -MAX_FALL_VEL,
        p.z_vel <= 0 && delta > 0 ==> speed_after(p.z_vel, p.gravity(), delta) < 0,
        p.z_vel <= 0 && p.pos.2 >= i64::MIN ==> p.height_after(delta) <= p.pos.2,
        delta == 0 ==> p.height_after(delta) == clamp_i64(p.pos.2) && speed_after(
            p.z_vel,
            p.gravity(),
            delta,
        ) == (if p.z_vel < -MAX_FALL_VEL {
            -MAX_FALL_VEL as int
        } else {
            p.z_vel
        }),
{
    let g = p.gravity();
    let h = g / 2;
    assert(delta * g >= 0 && (delta > 0 ==> delta * g > 0) && (delta == 0 ==> delta * g == 0))
        by (nonlinear_arith)
        requires
            delta >= 0,
            g > 0,
    ;
    assert(delta * delta * h >= 0 && (delta == 0 ==> delta * delta * h == 0)) by (nonlinear_arith)
        requires
            delta >= 0,
            h > 0,
    ;
    assert(p.z_vel <= 0 ==> delta * p.z_vel <= 0) by (nonlinear_arith)
        requires
            delta >= 0,
    ;
    assert(delta == 0 ==> delta * p.z_vel == 0) by (nonlinear_arith);
}

/// The last platform that the player meets is one that it meets, and it
/// meets none after it; where it meets none, there is no such platform.
pub proof fn lemma_last_met_is_last(
    p: PlayerView,
    facing: Perspective,
    delta: nat,
    platforms: Seq<Platform>,
)
    ensures
        match p.last_met(facing, delta, platforms) {
            Some(i) => {
                &&& 0 <= i < platforms.len()
                &&& p.meets(platforms[i], facing, delta)
                &&& forall|j: int|
                    i < j < platforms.len() ==> !p.meets(#[trigger] platforms[j], facing, delta)
            },
            None => forall|j: int|
                0 <= j < platforms.len() ==> !p.meets(#[trigger] platforms[j], facing, delta),
        },
{
    lemma_last_hit_is_last(
        platforms,
        platforms.len() as int,
        facing,
        p.pos.0,
        p.pos.1,
        PLAYER_SIZE as int,
        p.swept_lower(delta),
        p.swept_upper(delta),
    );
}

/// What a fall leaves behind. A player that lands is at rest on the surface
/// of the platform that carries it, which is the last one that it met on the
/// way; a player that is carried does not fall; a falling player holds no
/// jump; the speed of a fall is bounded; and apart from a landing, which
/// stops the player, the speed never grows.
pub proof fn lemma_fall_outcome(
    p: PlayerView,
    facing: Perspective,
    delta: nat,
    platforms: Seq<Platform>,
)
    requires
        p.stands_within(platforms),
    ensures
        ({
            let q = p.fallen(facing, delta, platforms);
            &&& q.stands_within(platforms)
            &&& q.z_vel >= -MAX_FALL_VEL
            &&& p.z_vel >= -MAX_FALL_VEL ==> q.z_vel <= p.z_vel || q.z_vel == 0
            &&& q.z_vel < 0 ==> q.standing_on is None && !q.movement.contains(Flag::Jumping)
            &&& q.pos.0 == p.pos.0 && q.pos.1 == p.pos.1
            &&& speed_after(p.z_vel, p.gravity(), delta) >= 0 ==> q.standing_on == p.standing_on
            &&& speed_after(p.z_vel, p.gravity(), delta) < 0 && q.standing_on is Some ==> {
                &&& q.z_vel == 0
                &&& q.pos.2 == platforms[q.standing_on->0].surface_center.2
                &&& p.meets(platforms[q.standing_on->0], facing, delta)
            }
        }),
{
    lemma_last_met_is_last(p, facing, delta, platforms);
    lemma_gravity_pulls_down(p, delta);
}

/// A fall that meets a platform on its way ends on a platform: the player
/// lands whenever its speed at the end of the tick points down and the
/// surface of a platform under it lies within the heights that the tick
/// crosses. With one platform in the level, that is the one.
pub proof fn lemma_lands_when_a_platform_is_met(
    p: PlayerView,
    facing: Perspective,
    delta: nat,
    platforms: Seq<Platform>,
    i: int,
)
    requires
        0 <= i < platforms.len(),
        speed_after(p.z_vel, p.gravity(), delta) < 0,
        p.meets(platforms[i], facing, delta),
    ensures
        ({
            let q = p.fallen(facing, delta, platforms);
            &&& q.standing_on matches Some(j) && i <= j < platforms.len() && q.pos.2
                == platforms[j].surface_center.2
            &&& q.z_vel == 0
            &&& platforms.len() == 1 ==> q.standing_on == Some(0int)
        }),
{
    lemma_last_met_is_last(p, facing, delta, platforms);
}

/// A player at rest on a platform stays at rest through a fall of any
/// length, on that platform or on one that comes later in the level and
/// has its surface at the same height or within the fall, as long as it
/// is still over the platform.
pub proof fn lemma_resting_player_stays(
    p: PlayerView,
    facing: Perspective,
    delta: nat,
    platforms: Seq<Platform>,
)
    requires
        p.standing_on matches Some(i) && 0 <= i < platforms.len() && p.pos.2
            == platforms[i].surface_center.2 && platforms[i].intersects_from(
            facing,
            p.pos.0,
            p.pos.1,
            PLAYER_SIZE as int,
            p.pos.2,
            p.pos.2,
        ),
        p.z_vel == 0,
    ensures
        ({
            let q = p.fallen(facing, delta, platforms);
            &&& q.z_vel == 0
            &&& q.standing_on matches Some(j) && p.standing_on->0 <= j < platforms.len()
                && q.pos.2 == platforms[j].surface_center.2
            &&& platforms.len() == 1 ==> q.standing_on == p.standing_on && q.pos == p.pos
        }),
{
    lemma_gravity_pulls_down(p, delta);
    if delta > 0 {
        lemma_lands_when_a_platform_is_met(p, facing, delta, platforms, p.standing_on->0);
    }
}

/// Bringing the player back over a platform is a clamp. A player that
/// touches the platform stays. One that is beyond it goes to the nearest
/// place at which it touches: it stays on its side of the centre, is then
/// within half the platform's extent and half its own width of it, and has
/// moved towards it. Nothing else changes.
pub proof fn lemma_snap_is_a_clamp(p: PlayerView, facing: Perspective, platform: Platform)
    ensures
        ({
            let q = p.snapped_to(facing, platform);
            let at = across(facing, p.pos);
            let to = across(facing, q.pos);
            let center = across(facing, center_of(platform));
            let padded = extent_across(facing, platform) + PLAYER_SIZE;
            &&& 2 * magnitude(at - center) <= padded ==> q == p
            &&& 2 * magnitude(to - center) <= padded
            &&& 2 * magnitude(at - center) > padded ==> 2 * magnitude(to - center) >= padded - 1
            &&& at < center ==> at <= to <= center
            &&& at >= center ==> center <= to <= at
            &&& depth(facing, q.pos) == depth(facing, p.pos) && q.pos.2 == p.pos.2
            &&& q == (PlayerView { pos: q.pos, ..p })
        }),
{
}

/// Moving a player towards the camera never hides it: what a platform
/// does not hide, it does not hide from nearer either.
pub proof fn lemma_nearer_is_not_hidden(
    pos: (int, int, int),
    nearer: int,
    facing: Perspective,
    p: Platform,
)
    requires
        !hidden_by(pos, facing, p),
        if camera_on_low_side(facing) {
            nearer <= depth(facing, pos)
        } else {
            nearer >= depth(facing, pos)
        },
    ensures
        !hidden_by(with_depth(pos, facing, nearer), facing, p),
{
}

/// Whether the place in front of each of the first `n` platforms is a
/// coordinate.
pub open spec fn fronts_in_range(facing: Perspective, platforms: Seq<Platform>, n: int) -> bool {
    forall|i: int|
        0 <= i < n ==> clamp_i64(in_front_of(facing, #[trigger] platforms[i])) == in_front_of(
            facing,
            platforms[i],
        )
}

/// Once every platform has pulled the player in front of itself, none
/// hides it: each pull moves the player towards the camera, which undoes no
/// earlier pull.
pub proof fn lemma_pulled_out_is_in_view(
    pos: (int, int, int),
    facing: Perspective,
    platforms: Seq<Platform>,
    n: int,
)
    requires
        0 <= n <= platforms.len(),
        fronts_in_range(facing, platforms, n),
    ensures
        !hidden_among(pulled_out(pos, facing, platforms, n), facing, platforms, n),
    decreases n,
{
    if n > 0 {
        let before = pulled_out(pos, facing, platforms, n - 1);
        let after = pulled_out(pos, facing, platforms, n);
        lemma_pulled_out_is_in_view(pos, facing, platforms, n - 1);
        lemma_pulled_into_view(before, facing, platforms[n - 1]);
        assert forall|j: int| 0 <= j < n implies !hidden_by(after, facing, #[trigger] platforms[j]) by {
            if j < n - 1 {
                assert(!hidden_by(before, facing, platforms[j]));
                if hidden_by(before, facing, platforms[n - 1]) {
                    lemma_nearer_is_not_hidden(
                        before,
                        in_front_of(facing, platforms[n - 1]),
                        facing,
                        platforms[j],
                    );
                }
            }
        }
    }
}

/// A tick leaves a player that is not marked as hidden in view of the
/// camera, and a player that is marked as hidden in its place; the mark
/// tells afterwards, of the player that bore it, whether a platform hides it.
pub proof fn lemma_tick_keeps_in_view(p: PlayerView, facing: Perspective, platforms: Seq<Platform>)
    requires
        fronts_in_range(facing, platforms, platforms.len() as int),
    ensures
        ({
            let q = p.kept_in_view(facing, platforms);
            &&& !p.behind_wall ==> !q.behind_wall && !hidden_among(
                q.pos,
                facing,
                platforms,
                platforms.len() as int,
            )
            &&& p.behind_wall ==> q.pos == p.pos && q.behind_wall == hidden_among(
                q.pos,
                facing,
                platforms,
                platforms.len() as int,
            )
        }),
{
    lemma_pulled_out_is_in_view(p.pos, facing, platforms, platforms.len() as int);
}

/// After the adjustment to a turn a player that was not marked as hidden
/// is in view of the camera, and the mark tells whether it had to be
/// pulled there; a player that was marked keeps its depth, and the mark
/// tells whether a platform hides it.
pub proof fn lemma_turn_leaves_player_in_view(
    p: PlayerView,
    facing: Perspective,
    platforms: Seq<Platform>,
)
    requires
        p.stands_within(platforms),
        fronts_in_range(facing, platforms, platforms.len() as int),
    ensures
        ({
            let q = p.snapped_from_camera(facing, platforms);
            let n = platforms.len() as int;
            &&& !p.behind_wall ==> !hidden_among(q.pos, facing, platforms, n)
            &&& p.behind_wall ==> q.behind_wall == hidden_among(q.pos, facing, platforms, n)
                && depth(facing, q.pos) == depth(facing, p.pos)
            &&& q.pos.2 == p.pos.2
            &&& q.z_vel == p.z_vel && q.standing_on == p.standing_on && q.movement == p.movement
        }),
{
    let over = p.brought_over(facing, platforms);
    lemma_pulled_out_is_in_view(over.pos, facing, platforms, platforms.len() as int);
    lemma_pull_changes_depth_only(over.pos, facing, platforms, platforms.len() as int);
}

/// Pulling the player into view changes its depth and nothing else: not
/// its height, and not its place across the screen.
pub proof fn lemma_pull_changes_depth_only(
    pos: (int, int, int),
    facing: Perspective,
    platforms: Seq<Platform>,
    n: int,
)
    ensures
        pulled_out(pos, facing, platforms, n).2 == pos.2,
        facing.along_x() ==> pulled_out(pos, facing, platforms, n).0 == pos.0,
        !facing.along_x() ==> pulled_out(pos, facing, platforms, n).1 == pos.1,
    decreases n,
{
    if n > 0 {
        lemma_pull_changes_depth_only(pos, facing, platforms, n - 1);
    }
}

/// A tick of some length that finds the camera at rest and the player not
/// rising tests the player's footing anew, along the axis that runs across
/// the screen from where the camera now rests: afterwards the player is in
/// the air, or at rest on a platform that it meets along that axis.
pub proof fn lemma_footing_is_tested_each_tick(
    p: PlayerView,
    delta: nat,
    camera: CameraView,
    platforms: Seq<Platform>,
)
    requires
        camera.turning is None,
        p.z_vel <= 0,
        delta > 0,
    ensures
        ({
            let q = p.tick(delta, camera, platforms);
            let w = p.walked(camera.facing, delta);
            q.standing_on matches Some(i) ==> {
                &&& 0 <= i < platforms.len()
                &&& q.z_vel == 0
                &&& q.pos.2 == platforms[i].surface_center.2
                &&& w.meets(platforms[i], camera.facing, delta)
            }
        }),
{
    let w = p.walked(camera.facing, delta);
    lemma_pull_changes_depth_only(
        w.fallen(camera.facing, delta, platforms).pos,
        camera.facing,
        platforms,
        platforms.len() as int,
    );
    lemma_gravity_pulls_down(w, delta);
    lemma_last_met_is_last(w, camera.facing, delta, platforms);
}

/// The vertical speed stays between the fastest fall and the start of a
/// jump, whatever happens to the player.
pub proof fn lemma_speed_stays_in_bounds(
    p: PlayerView,
    delta: nat,
    camera: CameraView,
    platforms: Seq<Platform>,
)
    requires
        p.speed_in_bounds(),
    ensures
        PlayerView::fresh(p.pos).speed_in_bounds(),
        p.tick(delta, camera, platforms).speed_in_bounds(),
        p.pressed_jump().speed_in_bounds(),
        p.released_jump().speed_in_bounds(),
        p.snapped_from_camera(camera.facing, platforms).speed_in_bounds(),
{
    lemma_gravity_pulls_down(p.walked(camera.facing, delta), delta);
}

/// A tick keeps the player on a platform of the level, if on any.
pub proof fn lemma_tick_keeps_footing(
    p: PlayerView,
    delta: nat,
    camera: CameraView,
    platforms: Seq<Platform>,
)
    requires
        p.stands_within(platforms),
    ensures
        p.tick(delta, camera, platforms).stands_within(platforms),
{
    lemma_fall_outcome(p.walked(camera.facing, delta), camera.facing, delta, platforms);
}

/// A player that is pulled in front of a platform is no longer hidden by
/// it, as long as the place in front of it is a coordinate at all.
pub proof fn lemma_pulled_into_view(pos: (int, int, int), facing: Perspective, p: Platform)
    requires
        clamp_i64(in_front_of(facing, p)) == in_front_of(facing, p),
    ensures
        !hidden_by(pulled_before(pos, facing, p), facing, p),
{
}

} // verus!
