use platformer::collision::{resolve_collisions, resolve_obstacle};
use platformer::geometry::{is_colliding, Bounds, Vector2};
use platformer::input::{sample_input, FrameInput, PressDetector};
use platformer::motion::{compute_travel, compute_velocity, integrate, motion_in_range};
use platformer::units::{
    GRAVITY_ACCEL, HALF_EXTENT, JUMP_FORCE, MOVEMENT_SPEED, POSITION_SCALE, TERMINAL_FALL_SPEED,
};
use platformer::world::{ground_row, Actor, Obstacle, World};

fn units(n: i64) -> i64 {
    n * POSITION_SCALE
}

fn actor(x: i64, y: i64, vx: i64, vy: i64) -> Actor {
    Actor { position: Vector2::new(x, y), velocity: Vector2::new(vx, vy) }
}

fn obstacle(x: i64, y: i64) -> Obstacle {
    Obstacle { position: Vector2::new(x, y) }
}

#[test]
fn landing_on_single_obstacle() {
    let mut world = World {
        actor: actor(0, units(-51), 0, -5_000_000),
        obstacles: vec![obstacle(0, units(-100))],
    };
    let input = sample_input(false, false, false);
    assert!(world.can_step(input, 16_000));
    world.integrate(input, 16_000);
    // -51 - 5.16 * 0.016 * 100 = -59.256
    assert_eq!(world.actor.position.y, -59_256_000_000_000);
    assert_eq!(world.actor.velocity.y, -5_160_000);
    world.resolve_collisions();
    assert_eq!(world.actor.position.y, units(-50));
    assert_eq!(world.actor.velocity.y, 0);
}

#[test]
fn landing_with_full_step() {
    let mut world = World {
        actor: actor(0, units(-51), 0, -5_000_000),
        obstacles: vec![obstacle(0, units(-100))],
    };
    world.step(FrameInput::idle(), 16_000);
    assert_eq!(world.actor.position, Vector2::new(0, units(-50)));
    assert_eq!(world.actor.velocity, Vector2::new(0, 0));
}

#[test]
fn free_fall_speed_drops_until_terminal() {
    let mut world = World { actor: actor(0, 0, 0, 0), obstacles: vec![] };
    let mut expected: i64 = 0;
    for _ in 0..80 {
        let before = world.actor.velocity.y;
        world.step(FrameInput::idle(), 16_000);
        expected = (expected - GRAVITY_ACCEL * 16_000).max(TERMINAL_FALL_SPEED);
        assert_eq!(world.actor.velocity.y, expected);
        assert!(world.actor.velocity.y <= before);
        assert!(world.actor.velocity.y >= TERMINAL_FALL_SPEED);
    }
    assert_eq!(world.actor.velocity.y, TERMINAL_FALL_SPEED);
}

#[test]
fn terminal_speed_clamps() {
    let v = compute_velocity(Vector2::new(0, -9_900_000), FrameInput::idle(), 16_000);
    assert_eq!(v, Vector2::new(0, -10_000_000));
}

#[test]
fn holding_right_keeps_constant_speed() {
    let mut world = World { actor: actor(0, 0, 0, 0), obstacles: vec![] };
    let input = sample_input(false, true, false);
    let mut x: i64 = 0;
    for _ in 0..5 {
        world.step(input, 10_000);
        assert_eq!(world.actor.velocity.x, MOVEMENT_SPEED);
        x += MOVEMENT_SPEED * 10_000 * 100;
        assert_eq!(world.actor.position.x, x);
    }
    // 5 frames of 0.01 s at 3.5 units: 17.5 world units
    assert_eq!(x, 17_500_000_000_000);
}

#[test]
fn held_jump_key_presses_once() {
    let mut jump = PressDetector::new();
    let events = jump.sample_all(&vec![false, true, true, true, false, true]);
    assert_eq!(events, vec![false, true, false, false, false, true]);
    assert!(jump.was_held);
}

#[test]
fn press_detector_single_frames() {
    let mut jump = PressDetector::new();
    assert!(jump.sample(true));
    assert!(!jump.sample(true));
    assert!(!jump.sample(false));
    assert!(jump.sample(true));
}

#[test]
fn jump_sets_vertical_speed() {
    let mut a = actor(0, 0, 0, -7_000_000);
    let input = sample_input(false, false, true);
    integrate(&mut a, input, 16_000);
    assert_eq!(a.velocity.y, JUMP_FORCE - 160_000);
    assert_eq!(a.position.y, (JUMP_FORCE - 160_000) * 16_000 * 100);
}

#[test]
fn jump_allowed_mid_air() {
    let mut world = World { actor: actor(0, units(300), 0, -3_000_000), obstacles: vec![] };
    world.step(sample_input(false, false, true), 0);
    assert_eq!(world.actor.velocity.y, JUMP_FORCE);
}

#[test]
fn input_priority() {
    assert_eq!(sample_input(true, true, false).horizontal_intent, -1);
    assert_eq!(sample_input(true, false, false).horizontal_intent, -1);
    assert_eq!(sample_input(false, true, false).horizontal_intent, 1);
    assert_eq!(sample_input(false, false, true).horizontal_intent, 0);
    assert!(sample_input(false, false, true).jump_requested);
    assert!(!sample_input(true, true, false).jump_requested);
}

#[test]
fn resting_on_top_edge() {
    let mut a = actor(units(10), units(-50), 0, -1);
    resolve_obstacle(&mut a, &obstacle(0, units(-100)));
    assert_eq!(a.position.y, units(-75) + HALF_EXTENT);
    assert_eq!(a.velocity.y, 0);
}

#[test]
fn moving_right_into_left_face() {
    let mut a = actor(units(-40), units(-100), MOVEMENT_SPEED, 0);
    resolve_obstacle(&mut a, &obstacle(0, units(-100)));
    assert_eq!(a.position.x, units(-25) - HALF_EXTENT);
    assert_eq!(a.velocity.x, 0);
}

#[test]
fn moving_left_into_right_face() {
    let mut a = actor(units(40), units(-100), -MOVEMENT_SPEED, 0);
    resolve_obstacle(&mut a, &obstacle(0, units(-100)));
    assert_eq!(a.position, Vector2::new(units(50), units(-100)));
    assert_eq!(a.velocity.x, 0);
}

#[test]
fn moving_up_into_bottom_face() {
    let mut a = actor(0, units(-140), 0, JUMP_FORCE);
    resolve_obstacle(&mut a, &obstacle(0, units(-100)));
    assert_eq!(a.position, Vector2::new(0, units(-150)));
    assert_eq!(a.velocity.y, 0);
}

#[test]
fn no_collision_leaves_actor() {
    let before = actor(units(100), units(100), MOVEMENT_SPEED, -1_000_000);
    let mut a = before;
    resolve_obstacle(&mut a, &obstacle(0, 0));
    assert_eq!(a, before);
}

#[test]
fn collision_zeroes_velocity_without_snap() {
    // centre inside the vertical span, moving right, but the right edge has
    // not passed the left edge: only the speed is zeroed
    let mut a = actor(units(-60), units(10), 1, 0);
    resolve_obstacle(&mut a, &obstacle(0, 0));
    assert_eq!(a.position, Vector2::new(units(-60), units(10)));
    assert_eq!(a.velocity, Vector2::new(0, 0));
}

#[test]
fn resolving_twice_changes_nothing() {
    let obstacles = ground_row(10);
    let mut a = actor(units(3), units(-60), MOVEMENT_SPEED, -4_000_000);
    resolve_collisions(&mut a, &obstacles);
    let once = a;
    resolve_collisions(&mut a, &obstacles);
    assert_eq!(a, once);
    assert_eq!(once.velocity, Vector2::new(0, 0));
}

#[test]
fn later_obstacles_see_corrected_actor() {
    // the first obstacle stops the actor, so the second one no longer moves it
    let mut a = actor(units(10), units(-60), 0, -4_000_000);
    let obstacles = vec![obstacle(0, units(-100)), obstacle(units(10), units(-80))];
    resolve_collisions(&mut a, &obstacles);
    assert_eq!(a.position, Vector2::new(units(10), units(-50)));
    assert_eq!(a.velocity, Vector2::new(0, 0));
}

#[test]
fn default_world_layout() {
    let world = World::new();
    assert_eq!(world.obstacles.len(), 20);
    assert_eq!(world.obstacles[0].position, Vector2::new(units(-500), units(-100)));
    assert_eq!(world.obstacles[19].position, Vector2::new(units(450), units(-100)));
    assert_eq!(world.obstacles[10].position, Vector2::new(0, units(-100)));
    assert_eq!(world.actor, Actor::at_rest(Vector2::new(0, 0)));
}

#[test]
fn empty_ground_row() {
    assert!(ground_row(0).is_empty());
}

#[test]
fn bounds_and_collision_test() {
    let b = Bounds::around(Vector2::new(0, units(-100)), HALF_EXTENT);
    assert_eq!(b, Bounds { left: units(-25), right: units(25), top: units(-75), bottom: units(-125) });
    assert!(is_colliding(Vector2::new(units(10), units(500)), &b));
    assert!(is_colliding(Vector2::new(units(500), units(-100)), &b));
    assert!(!is_colliding(Vector2::new(units(500), units(500)), &b));
    // edges are not inside
    assert!(!is_colliding(Vector2::new(units(25), units(-75)), &b));
}

#[test]
fn travel_is_exact() {
    // 3.5 units for 0.016 s at scale 100: 5.6 world units
    assert_eq!(compute_travel(MOVEMENT_SPEED, 16_000), 5_600_000_000_000);
    assert_eq!(compute_travel(-10_000_000, 1_000_000), units(-1000));
}

#[test]
fn out_of_range_motion_is_reported() {
    let a = actor(0, units(-1_999_500), 0, -10_000_000);
    assert!(!motion_in_range(&a, FrameInput::idle(), 1_000_000));
    assert!(motion_in_range(&a, FrameInput::idle(), 16_000));
    let world = World { actor: a, obstacles: vec![] };
    assert!(!world.can_step(FrameInput::idle(), 1_000_000));
}
