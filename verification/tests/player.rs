use quarter_turn::camera::{Camera, Perspective};
use quarter_turn::fixed::{SPEED_UNIT, UNIT};
use quarter_turn::level::{Level, Platform};
use quarter_turn::movement::{Flag, JUMPING, PRESSING_DOWN};
use quarter_turn::player::{
    Player, DEFAULT_GRAVITY, DROP_NUDGE, JUMP_GRAVITY, JUMP_VEL, MAX_FALL_VEL, MOVE_VEL,
    PLAYER_HALF, PLAYER_SIZE,
};

/// Length units in a thousandth of a world unit.
const K: i64 = UNIT / 1_000;

/// A place given in thousandths of a world unit.
fn at(x: i64, y: i64, z: i64) -> (i64, i64, i64) {
    (x * K, y * K, z * K)
}

/// A platform given in thousandths of a world unit.
fn slab(center: (i64, i64, i64), dim: (u64, u64), height: u64) -> Platform {
    let k = K as u64;
    Platform::new(
        at(center.0, center.1, center.2),
        (dim.0 * k, dim.1 * k),
        height * k,
        (150, 380, 340),
    )
}

fn level_of(platforms: Vec<Platform>) -> Level {
    Level { bg_color: (100, 100, 100), platforms }
}

fn ground() -> Platform {
    slab((0, 0, 0), (8_000, 8_000), 1_000)
}

fn wall() -> Platform {
    slab((0, 0, 6_000), (4_000, 4_000), 12_000)
}

fn standing_player(level: &Level) -> Player {
    let mut player = Player::new((0, -10_000 * K, 1));
    player.tick(16, &Camera::new(Perspective::S), level);
    assert_eq!(player.standing_on, Some(0));
    player
}

#[test]
fn constants_are_in_units() {
    assert_eq!(MOVE_VEL, 6 * SPEED_UNIT);
    assert_eq!(JUMP_VEL, 14 * SPEED_UNIT);
    assert_eq!(MAX_FALL_VEL, 24 * SPEED_UNIT);
    // A gravity is the speed lost in one millisecond.
    assert_eq!(JUMP_GRAVITY * 1_000, 25 * SPEED_UNIT);
    assert_eq!(DEFAULT_GRAVITY * 1_000, 50 * SPEED_UNIT);
    assert_eq!(PLAYER_SIZE, UNIT as u64);
    assert_eq!(PLAYER_HALF * 2, UNIT);
    assert_eq!(DROP_NUDGE * 100, UNIT);
}

#[test]
fn new_player_is_in_the_air_at_rest() {
    let player = Player::new(at(-3_000, -3_000, -5_000));
    assert_eq!(player.pos, at(-3_000, -3_000, -5_000));
    assert_eq!(player.z_vel, 0);
    assert_eq!(player.standing_on, None);
    assert_eq!(player.movement.bits(), 0);
    assert!(!player.behind_wall);
}

#[test]
fn free_fall_follows_the_formula() {
    let level = level_of(vec![]);
    let camera = Camera::new(Perspective::S);
    let mut player = Player::new(at(0, 0, 5_000));
    player.tick(16, &camera, &level);
    // 0.016 * (0 - 0.016 * 50 / 2) = -0.0064
    assert_eq!(player.pos, (0, 0, 5_000 * K - 12_800));
    assert_eq!(player.z_vel, -1_600);
    player.tick(16, &camera, &level);
    // 0.016 * (-0.8 - 0.4) = -0.0192
    assert_eq!(player.pos, (0, 0, 5_000 * K - 12_800 - 38_400));
    assert_eq!(player.z_vel, -3_200);
    assert_eq!(player.standing_on, None);
}

#[test]
fn quarter_second_of_free_fall_is_exact() {
    let level = level_of(vec![ground()]);
    let camera = Camera::new(Perspective::S);
    let mut player = Player::new(at(0, 0, 5_000));
    player.tick(250, &camera, &level);
    // 5 + 0.25 * (0 - 0.25 * 50 / 2) = 3.4375; 0 - 0.25 * 50 = -12.5
    assert_eq!(player.pos, (0, 0, 6_875_000));
    assert_eq!(player.pos.2 * 10_000, 34_375 * UNIT);
    assert_eq!(player.z_vel * 10, -125 * SPEED_UNIT);
    assert_eq!(player.standing_on, None);
}

#[test]
fn quarter_second_of_a_held_jump_is_exact() {
    let level = level_of(vec![ground()]);
    let camera = Camera::new(Perspective::S);
    let mut player = Player::new((0, 0, 0));
    player.standing_on = Some(0);
    player.press_jump();
    player.tick(250, &camera, &level);
    // 0.25 * (14 - 0.25 * 25 / 2) = 2.71875; 14 - 0.25 * 25 = 7.75
    assert_eq!(player.pos.2 * 100_000, 271_875 * UNIT);
    assert_eq!(player.z_vel * 100, 775 * SPEED_UNIT);
    assert_eq!(player.standing_on, None);
    assert!(player.movement.contains(Flag::Jumping));
}

#[test]
fn quarter_second_of_a_released_jump_is_exact() {
    let level = level_of(vec![ground()]);
    let camera = Camera::new(Perspective::S);
    let mut player = Player::new((0, 0, 0));
    player.standing_on = Some(0);
    player.press_jump();
    player.release_jump();
    player.tick(250, &camera, &level);
    // 0.25 * (14 - 0.25 * 50 / 2) = 1.9375; 14 - 0.25 * 50 = 1.5
    assert_eq!(player.pos.2 * 10_000, 19_375 * UNIT);
    assert_eq!(player.z_vel * 10, 15 * SPEED_UNIT);
    assert_eq!(player.standing_on, None);
    assert!(!player.movement.contains(Flag::Jumping));
}

#[test]
fn fall_in_the_shadow_of_a_platform_is_exact_and_pulled_into_view() {
    let level = level_of(vec![ground()]);
    let camera = Camera::new(Perspective::S);
    let mut player = Player::new(at(0, 0, -500));
    player.tick(125, &camera, &level);
    // -0.5 + 0.125 * (0 - 0.125 * 50 / 2) = -0.890625; depth 0 - 8 / 2 - 0.5 = -4.5
    assert_eq!(player.pos.0, 0);
    assert_eq!(player.pos.1 * 10, -45 * UNIT);
    assert_eq!(player.pos.2 * 1_000_000, -890_625 * UNIT);
    assert_eq!(player.z_vel * 100, -625 * SPEED_UNIT);
    assert_eq!(player.standing_on, None);
    assert!(!player.behind_wall(Perspective::S, &level.platforms[0]));
}

#[test]
fn odd_milliseconds_under_jump_gravity_are_exact() {
    let level = level_of(vec![]);
    let camera = Camera::new(Perspective::S);
    let mut player = Player::new((0, 0, 0));
    player.z_vel = JUMP_VEL;
    player.movement.insert(Flag::Jumping);
    player.tick(1, &camera, &level);
    // 0.001 * (14 - 0.001 * 25 / 2) = 0.0139875
    assert_eq!(player.pos.2, 27_975);
    assert_eq!(player.pos.2 * 10_000_000, 139_875 * UNIT);
    assert_eq!(player.z_vel, JUMP_VEL - 50);
}

#[test]
fn fall_speed_is_bounded() {
    let level = level_of(vec![]);
    let camera = Camera::new(Perspective::S);
    let mut player = Player::new((0, 0, 0));
    player.tick(1_000, &camera, &level);
    assert_eq!(player.z_vel, -MAX_FALL_VEL);
    assert_eq!(player.pos.2, -25 * UNIT);
    player.tick(1_000, &camera, &level);
    assert_eq!(player.z_vel, -MAX_FALL_VEL);
    // 1 * (-24 - 25)
    assert_eq!(player.pos.2, -74 * UNIT);
}

#[test]
fn tick_of_zero_moves_nothing() {
    let level = level_of(vec![]);
    let camera = Camera::new(Perspective::S);
    let mut player = Player::new((1, 2, 3));
    player.movement.press_left();
    player.tick(0, &camera, &level);
    assert_eq!(player.pos, (1, 2, 3));
    assert_eq!(player.z_vel, 0);
}

#[test]
fn falls_onto_platform_and_rests() {
    let level = level_of(vec![ground()]);
    let camera = Camera::new(Perspective::S);
    let mut player = Player::new(at(0, 0, 5_000));
    let mut ticks = 0;
    while player.standing_on.is_none() {
        assert!(player.pos.2 > 0);
        assert!(ticks < 1_000);
        player.tick(16, &camera, &level);
        ticks += 1;
    }
    assert_eq!(player.standing_on, Some(0));
    assert_eq!(player.pos, (0, 0, 0));
    assert_eq!(player.z_vel, 0);
    for _ in 0..10 {
        player.tick(16, &camera, &level);
        assert_eq!(player.standing_on, Some(0));
        assert_eq!(player.pos, (0, 0, 0));
        assert_eq!(player.z_vel, 0);
    }
}

#[test]
fn walking_follows_the_viewpoint() {
    let level = level_of(vec![]);
    // 6 units per second for 16 ms are 0.096 units.
    let cases = [
        (Perspective::S, (-96, 0), (96, 0)),
        (Perspective::N, (96, 0), (-96, 0)),
        (Perspective::E, (0, -96), (0, 96)),
        (Perspective::W, (0, 96), (0, -96)),
    ];
    for (facing, left, right) in cases {
        let camera = Camera::new(facing);
        let mut player = Player::new((0, 0, 0));
        player.movement.press_left();
        player.tick(16, &camera, &level);
        assert_eq!((player.pos.0, player.pos.1), (left.0 * K, left.1 * K));
        let mut player = Player::new((0, 0, 0));
        player.movement.press_right();
        player.tick(16, &camera, &level);
        assert_eq!((player.pos.0, player.pos.1), (right.0 * K, right.1 * K));
    }
}

#[test]
fn walking_stops_when_no_key_is_held() {
    let level = level_of(vec![]);
    let camera = Camera::new(Perspective::S);
    let mut player = Player::new((0, 0, 0));
    player.movement.press_right();
    player.tick(10, &camera, &level);
    assert_eq!(player.pos.0, 60 * K);
    player.movement.release_right();
    player.tick(10, &camera, &level);
    assert_eq!(player.pos.0, 60 * K);
}

#[test]
fn walking_stays_at_the_end_of_the_range() {
    let level = level_of(vec![]);
    let camera = Camera::new(Perspective::S);
    let mut player = Player::new((i64::MAX - 5, 0, i64::MIN + 3));
    player.movement.press_right();
    player.tick(16, &camera, &level);
    assert_eq!(player.pos, (i64::MAX, 0, i64::MIN));
}

#[test]
fn player_is_frozen_while_camera_turns() {
    let level = level_of(vec![ground()]);
    let mut camera = Camera::new(Perspective::S);
    camera.move_left();
    let start = at(100, 200, 5_000);
    let mut player = Player::new(start);
    player.movement.press_left();
    for delta in [0, 1, 16, 16, 400, 100_000] {
        player.tick(delta, &camera, &level);
        assert_eq!(player.pos, start);
        assert_eq!(player.z_vel, 0);
        assert_eq!(player.standing_on, None);
    }
    player.movement.press_right();
    player.tick(16, &camera, &level);
    assert_eq!(player.pos, start);
    camera.tick(500);
    player.tick(16, &camera, &level);
    // West: right is towards smaller y.
    assert_eq!(player.pos, (100 * K, (200 - 96) * K, 5_000 * K - 12_800));
}

#[test]
fn press_jump_in_the_air_does_nothing() {
    let mut player = Player::new(at(0, 0, 5_000));
    player.z_vel = -300;
    player.movement.press_down();
    player.press_jump();
    assert_eq!(player.pos, at(0, 0, 5_000));
    assert_eq!(player.z_vel, -300);
    assert_eq!(player.standing_on, None);
    assert_eq!(player.movement.bits(), PRESSING_DOWN);
    player.movement.release_down();
    player.press_jump();
    assert_eq!(player.z_vel, -300);
    assert_eq!(player.standing_on, None);
    assert_eq!(player.movement.bits(), 0);
}

#[test]
fn jump_leaves_the_platform_under_light_gravity() {
    let level = level_of(vec![ground()]);
    let camera = Camera::new(Perspective::S);
    let mut player = standing_player(&level);
    assert_eq!(player.pos.2, 0);
    player.press_jump();
    assert_eq!(player.z_vel, JUMP_VEL);
    assert_eq!(player.standing_on, None);
    assert_eq!(player.movement.bits(), JUMPING);
    player.tick(10, &camera, &level);
    // 0.01 * (14 - 0.01 * 25 / 2) = 0.13875
    assert_eq!(player.pos.2, 277_500);
    assert_eq!(player.z_vel, 27_500);
    assert!(player.movement.contains(Flag::Jumping));
    player.release_jump();
    assert_eq!(player.movement.bits(), 0);
    player.tick(10, &camera, &level);
    // 0.01 * (13.75 - 0.01 * 50 / 2) = 0.135
    assert_eq!(player.pos.2, 277_500 + 270_000);
    assert_eq!(player.z_vel, 26_500);
}

#[test]
fn held_jump_ends_at_the_top() {
    let level = level_of(vec![]);
    let camera = Camera::new(Perspective::S);
    let mut player = Player::new((0, 0, 0));
    player.z_vel = 200;
    player.movement.insert(Flag::Jumping);
    player.tick(10, &camera, &level);
    // The speed turns negative: 0.1 - 0.25.
    assert_eq!(player.z_vel, -300);
    assert!(!player.movement.contains(Flag::Jumping));
    // 0.01 * (0.1 - 0.125) = -0.00025
    assert_eq!(player.pos.2, -500);
}

#[test]
fn jump_with_down_held_drops_through() {
    let level = level_of(vec![ground()]);
    let camera = Camera::new(Perspective::S);
    let mut player = standing_player(&level);
    player.movement.press_down();
    player.press_jump();
    assert_eq!(player.pos.2, -DROP_NUDGE);
    assert_eq!(player.z_vel, 0);
    assert_eq!(player.standing_on, Some(0));
    assert_eq!(player.movement.bits(), PRESSING_DOWN);
    player.tick(16, &camera, &level);
    assert_eq!(player.standing_on, None);
    assert_eq!(player.pos.2, -DROP_NUDGE - 12_800);
    assert_eq!(player.z_vel, -1_600);
}

#[test]
fn last_platform_in_the_level_wins() {
    let camera = Camera::new(Perspective::S);

    let high = slab((0, 0, 0), (8_000, 8_000), 1_000);
    let low = slab((0, 0, -1_000), (8_000, 8_000), 1_000);
    let level = level_of(vec![high, low]);
    let mut player = Player::new(at(0, -10_000, 5_000));
    player.tick(1_000, &camera, &level);
    assert_eq!(player.standing_on, Some(1));
    assert_eq!(player.pos.2, -1_000 * K);
    assert_eq!(player.z_vel, 0);

    let high = slab((0, 0, 0), (8_000, 8_000), 1_000);
    let low = slab((0, 0, -1_000), (8_000, 8_000), 1_000);
    let level = level_of(vec![low, high]);
    let mut player = Player::new(at(0, -10_000, 5_000));
    player.tick(1_000, &camera, &level);
    assert_eq!(player.standing_on, Some(1));
    assert_eq!(player.pos.2, 0);
}

#[test]
fn landing_tests_the_axis_across_the_screen() {
    let far_in_y = slab((0, 100_000, 0), (2_000, 2_000), 1_000);
    let level = level_of(vec![far_in_y]);
    for facing in [Perspective::S, Perspective::N] {
        let mut player = Player::new((0, 0, 1));
        player.tick(16, &Camera::new(facing), &level);
        assert_eq!(player.standing_on, Some(0));
        assert_eq!(player.pos.2, 0);
    }
    for facing in [Perspective::E, Perspective::W] {
        let mut player = Player::new((0, 0, 1));
        player.tick(16, &Camera::new(facing), &level);
        assert_eq!(player.standing_on, None);
        assert_eq!(player.pos.2, 1 - 12_800);
    }
}

#[test]
fn walking_off_the_edge_starts_a_fall() {
    let level = level_of(vec![ground()]);
    let camera = Camera::new(Perspective::S);
    let mut player = Player::new((4_450 * K, -10_000 * K, 1));
    player.tick(16, &camera, &level);
    assert_eq!(player.standing_on, Some(0));
    player.movement.press_right();
    // The edge is at 4 and the player reaches half a unit beyond its centre.
    player.tick(8, &camera, &level);
    assert_eq!(player.pos.0, 4_498 * K);
    assert_eq!(player.standing_on, Some(0));
    player.tick(1, &camera, &level);
    assert_eq!(player.pos.0, 4_504 * K);
    assert_eq!(player.standing_on, None);
    assert_eq!(player.z_vel, -100);
}

#[test]
fn rising_player_passes_through_platforms() {
    let ceiling = slab((0, 0, 100), (8_000, 8_000), 1_000);
    let level = level_of(vec![ceiling]);
    let camera = Camera::new(Perspective::S);
    let mut player = Player::new(at(0, -10_000, 0));
    player.z_vel = JUMP_VEL;
    player.tick(16, &camera, &level);
    assert_eq!(player.standing_on, None);
    assert_eq!(player.z_vel, 26_400);
    // 0.016 * (14 - 0.4) = 0.2176
    assert_eq!(player.pos.2, 435_200);
}

#[test]
fn behind_wall_is_tested_from_each_viewpoint() {
    let wall = wall();
    let mut player = Player::new((0, 0, 0));
    for facing in [Perspective::S, Perspective::N, Perspective::E, Perspective::W] {
        assert!(player.behind_wall(facing, &wall));
    }
    // In front of the south face, which is at y = -2.
    player.pos = at(0, -2_500, 0);
    assert!(!player.behind_wall(Perspective::S, &wall));
    assert!(player.behind_wall(Perspective::N, &wall));
    player.pos = (0, -2_500 * K + 1, 0);
    assert!(player.behind_wall(Perspective::S, &wall));
    // In front of the east face, which is at x = 2.
    player.pos = at(2_500, 0, 0);
    assert!(!player.behind_wall(Perspective::E, &wall));
    assert!(player.behind_wall(Perspective::W, &wall));
    // Beside the wall across the screen.
    player.pos = at(2_500, 0, 0);
    assert!(!player.behind_wall(Perspective::S, &wall));
    player.pos = (2_500 * K - 1, 0, 0);
    assert!(player.behind_wall(Perspective::S, &wall));
    // Above the surface and below the base.
    player.pos = at(0, 0, 6_000);
    assert!(!player.behind_wall(Perspective::S, &wall));
    player.pos = (0, 0, 6_000 * K - 1);
    assert!(player.behind_wall(Perspective::S, &wall));
    player.pos = at(0, 0, -7_000);
    assert!(!player.behind_wall(Perspective::S, &wall));
    player.pos = (0, 0, -7_000 * K + 1);
    assert!(player.behind_wall(Perspective::S, &wall));
}

#[test]
fn tick_pulls_a_hidden_player_into_view() {
    let level = level_of(vec![wall()]);
    let cases = [
        (Perspective::S, (0, -2_500)),
        (Perspective::N, (0, 2_500)),
        (Perspective::W, (-2_500, 0)),
        (Perspective::E, (2_500, 0)),
    ];
    for (facing, place) in cases {
        let mut player = Player::new((0, 0, 0));
        player.tick(0, &Camera::new(facing), &level);
        assert_eq!((player.pos.0, player.pos.1), (place.0 * K, place.1 * K));
        assert!(!player.behind_wall);
        assert!(!player.behind_wall(facing, &level.platforms[0]));
    }
}

#[test]
fn pull_into_view_rounds_away_from_the_wall() {
    let odd = Platform::new((0, 0, 6_000 * K), (4_001, 4_001), 12_000 * (K as u64), (0, 0, 0));
    let level = level_of(vec![odd]);
    let mut player = Player::new((0, 0, 0));
    player.tick(0, &Camera::new(Perspective::S), &level);
    assert_eq!(player.pos, (0, -2_001 - PLAYER_HALF, 0));
    assert!(!player.behind_wall(Perspective::S, &level.platforms[0]));
    let mut player = Player::new((0, 0, 0));
    player.tick(0, &Camera::new(Perspective::E), &level);
    assert_eq!(player.pos, (2_001 + PLAYER_HALF, 0, 0));
    assert!(!player.behind_wall(Perspective::E, &level.platforms[0]));
}

#[test]
fn marked_player_stays_hidden_until_it_is_clear() {
    let level = level_of(vec![wall()]);
    let camera = Camera::new(Perspective::S);
    let mut player = Player::new((0, 0, 0));
    player.behind_wall = true;
    player.tick(0, &camera, &level);
    assert!(player.behind_wall);
    assert_eq!(player.pos, (0, 0, 0));
    // Beside the wall nothing hides the player, and the mark goes.
    player.pos.0 = 2_500 * K;
    player.tick(0, &camera, &level);
    assert!(!player.behind_wall);
    assert_eq!(player.pos, at(2_500, 0, 0));
    // Back behind it, without the mark, the player is pulled out.
    player.pos.0 = 0;
    player.tick(0, &camera, &level);
    assert_eq!(player.pos, at(0, -2_500, 0));
    assert!(!player.behind_wall);
}

#[test]
fn turn_pulls_a_hidden_player_into_view_and_marks_it() {
    let level = level_of(vec![wall()]);
    let mut player = Player::new((0, 0, 0));
    player.snap_from_camera_position(Perspective::S, &level);
    assert_eq!(player.pos, at(0, -2_500, 0));
    assert!(player.behind_wall);
    assert!(!player.behind_wall(Perspective::S, &level.platforms[0]));
    // The next tick finds the player in view and takes the mark away.
    player.tick(0, &Camera::new(Perspective::S), &level);
    assert_eq!(player.pos, at(0, -2_500, 0));
    assert!(!player.behind_wall);
}

#[test]
fn turn_leaves_a_marked_player_where_it_is() {
    let level = level_of(vec![wall()]);
    let mut player = Player::new((0, 0, 0));
    player.behind_wall = true;
    player.snap_from_camera_position(Perspective::E, &level);
    assert_eq!(player.pos, (0, 0, 0));
    assert!(player.behind_wall);
    player.pos = at(0, 9_000, 0);
    player.snap_from_camera_position(Perspective::E, &level);
    assert_eq!(player.pos, at(0, 9_000, 0));
    assert!(!player.behind_wall);
}

#[test]
fn platforms_pull_in_turn() {
    // The second wall hides the place in front of the first.
    let first = slab((0, 0, 6_000), (4_000, 4_000), 12_000);
    let second = slab((0, -3_000, 6_000), (4_000, 2_000), 12_000);
    let level = level_of(vec![first, second]);
    let mut player = Player::new((0, 0, 0));
    player.tick(0, &Camera::new(Perspective::S), &level);
    assert_eq!(player.pos, at(0, -4_500, 0));
}

#[test]
fn snap_to_platform_clamps_to_the_side_the_player_is_on() {
    // The padded footprint reaches from -3.5 to 5.5 along x and from -4.5 to 2.5 along y.
    let p = slab((1_000, -1_000, 0), (8_000, 6_000), 1_000);
    for facing in [Perspective::S, Perspective::N] {
        let mut player = Player::new(at(9_000, 9_000, 0));
        player.snap_to_platform(facing, &p);
        assert_eq!(player.pos, at(5_500, 9_000, 0));
        let mut player = Player::new(at(-9_000, 9_000, 0));
        player.snap_to_platform(facing, &p);
        assert_eq!(player.pos, at(-3_500, 9_000, 0));
    }
    for facing in [Perspective::E, Perspective::W] {
        let mut player = Player::new(at(9_000, 9_000, 0));
        player.snap_to_platform(facing, &p);
        assert_eq!(player.pos, at(9_000, 2_500, 0));
        let mut player = Player::new(at(9_000, -9_000, 0));
        player.snap_to_platform(facing, &p);
        assert_eq!(player.pos, at(9_000, -4_500, 0));
    }
}

#[test]
fn snap_to_platform_from_the_south_keeps_a_player_on_the_right() {
    let p = ground();
    let mut player = Player::new(at(6_000, 0, 0));
    player.snap_to_platform(Perspective::S, &p);
    assert_eq!(player.pos, at(4_500, 0, 0));
    let mut player = Player::new(at(-6_000, 0, 0));
    player.snap_to_platform(Perspective::N, &p);
    assert_eq!(player.pos, at(-4_500, 0, 0));
}

#[test]
fn snap_to_platform_leaves_a_player_that_touches_it() {
    let p = slab((1_000, -1_000, 0), (8_000, 6_000), 1_000);
    let mut player = Player::new(at(5_500, -4_500, 0));
    for facing in [Perspective::S, Perspective::N, Perspective::E, Perspective::W] {
        player.snap_to_platform(facing, &p);
        assert_eq!(player.pos, at(5_500, -4_500, 0));
    }
    let mut player = Player::new((5_500 * K + 1, 0, 0));
    player.snap_to_platform(Perspective::S, &p);
    assert_eq!(player.pos, at(5_500, 0, 0));
    let mut player = Player::new((0, -4_500 * K - 1, 0));
    player.snap_to_platform(Perspective::E, &p);
    assert_eq!(player.pos, at(0, -4_500, 0));
}

#[test]
fn snap_to_platform_halves_an_odd_sum_towards_the_platform() {
    let p = Platform::new((0, 0, 0), (4_001, 4_001), 1_000, (0, 0, 0));
    let reach = (4_001 + UNIT) / 2;
    let mut player = Player::new((9 * UNIT, 0, 0));
    player.snap_to_platform(Perspective::S, &p);
    assert_eq!(player.pos.0, reach);
    let mut player = Player::new((-9 * UNIT, 0, 0));
    player.snap_to_platform(Perspective::S, &p);
    assert_eq!(player.pos.0, -reach);
    assert!(p.intersection_x(player.pos.0, PLAYER_SIZE, 0, 0));
}

#[test]
fn snap_to_platform_at_the_ends_of_the_range() {
    let p = Platform::new((i64::MAX, i64::MIN, 0), (0, 0), 0, (0, 0, 0));
    let mut player = Player::new((i64::MIN, i64::MAX, 0));
    player.snap_to_platform(Perspective::S, &p);
    assert_eq!(player.pos, (i64::MAX - PLAYER_HALF, i64::MAX, 0));
    player.snap_to_platform(Perspective::W, &p);
    assert_eq!(player.pos, (i64::MAX - PLAYER_HALF, i64::MIN + PLAYER_HALF, 0));
}

#[test]
fn snap_from_camera_position_uses_the_carrying_platform() {
    let floor = slab((0, 0, 0), (2_000, 8_000), 1_000);
    let other = slab((50_000, 0, 0), (2_000, 2_000), 1_000);
    let level = level_of(vec![other, floor]);
    // Seen from the east the player stands on the floor, far off along x.
    let mut player = Player::new((7_000 * K, 3_000 * K, 1));
    player.tick(16, &Camera::new(Perspective::E), &level);
    assert_eq!(player.standing_on, Some(1));
    player.snap_from_camera_position(Perspective::S, &level);
    assert_eq!(player.pos, at(1_500, 3_000, 0));
    assert!(!player.behind_wall);
}

#[test]
fn snap_from_camera_position_in_the_air_keeps_the_place_across() {
    let level = level_of(vec![wall()]);
    let mut player = Player::new(at(9_000, 9_000, 0));
    player.snap_from_camera_position(Perspective::S, &level);
    assert_eq!(player.pos, at(9_000, 9_000, 0));
    assert!(!player.behind_wall);
    let mut player = Player::new(at(0, 9_000, 0));
    player.snap_from_camera_position(Perspective::S, &level);
    assert_eq!(player.pos, at(0, -2_500, 0));
    assert!(player.behind_wall);
    // Seen from the north the player is in front of the wall.
    let mut player = Player::new(at(0, 9_000, 0));
    player.snap_from_camera_position(Perspective::N, &level);
    assert_eq!(player.pos, at(0, 9_000, 0));
    assert!(!player.behind_wall);
}

#[test]
fn fall_equals_the_real_valued_formulas() {
    let level = level_of(vec![]);
    let camera = Camera::new(Perspective::S);
    let mut player = Player::new((0, 0, 0));
    // A start at which the speed is never exactly zero at the end of a tick.
    player.z_vel = 28_200;
    player.movement.insert(Flag::Jumping);
    let mut z: f64 = 0.0;
    let mut v: f64 = 14.1;
    let mut jumping = true;
    for _ in 1..=200 {
        let delta = 0.016;
        let g = if jumping { 25.0 } else { 50.0 };
        z += delta * (v - delta * 0.5 * g);
        v = (v - delta * g).max(-24.0);
        if v < 0.0 {
            jumping = false;
        }
        player.tick(16, &camera, &level);
        // Only the floats round.
        assert!((player.pos.2 as f64 / UNIT as f64 - z).abs() < 1e-9);
        assert!((player.z_vel as f64 / SPEED_UNIT as f64 - v).abs() < 1e-9);
        assert_eq!(player.movement.contains(Flag::Jumping), jumping);
    }
    assert_eq!(player.z_vel, -MAX_FALL_VEL);
}
