//! Input, gravity and integration of the actor's motion over one frame.
use vstd::prelude::*;
use crate::geometry::{within, Vector2};
use crate::input::FrameInput;
use crate::units::{
    ACTOR_LIMIT, DISTANCE_SCALE, GRAVITY_ACCEL, JUMP_FORCE, MAX_SPEED, MOVEMENT_SPEED,
    TERMINAL_FALL_SPEED,
};
use crate::world::Actor;

verus! {

/// The vertical speed after a frame of `dt` microseconds, starting from `vy`.
pub open spec fn next_vertical_speed(vy: int, jump_requested: bool, dt: int) -> int {
    let launched = if jump_requested { JUMP_FORCE as int } else { vy };
    let fallen = launched - GRAVITY_ACCEL * dt;
    if fallen < TERMINAL_FALL_SPEED { TERMINAL_FALL_SPEED as int } else { fallen }
}

/// The velocity after a frame: the horizontal speed is set by the intent
/// alone, the vertical one by a jump, gravity and the terminal fall speed.
pub open spec fn next_velocity(v: Vector2, input: FrameInput, dt: int) -> Vector2 {
    Vector2 {
        x: (input.horizontal_intent * MOVEMENT_SPEED) as i64,
        y: next_vertical_speed(v.y as int, input.jump_requested, dt) as i64,
    }
}

/// The distance covered in `dt` microseconds at speed `v`.
pub open spec fn travel(v: int, dt: int) -> int {
    v * dt * DISTANCE_SCALE
}

/// The actor's position after a frame, as exact integers.
pub open spec fn next_x(a: Actor, input: FrameInput, dt: int) -> int {
    a.position.x + travel(next_velocity(a.velocity, input, dt).x as int, dt)
}

pub open spec fn next_y(a: Actor, input: FrameInput, dt: int) -> int {
    a.position.y + travel(next_velocity(a.velocity, input, dt).y as int, dt)
}

/// The frame keeps the actor within the coordinates it may hold.
pub open spec fn stays_in_range(a: Actor, input: FrameInput, dt: int) -> bool {
    -ACTOR_LIMIT <= next_x(a, input, dt) <= ACTOR_LIMIT && -ACTOR_LIMIT <= next_y(a, input, dt)
        <= ACTOR_LIMIT
}

/// The actor after the motion stage of a frame.
pub open spec fn integrated(a: Actor, input: FrameInput, dt: int) -> Actor {
    Actor {
        position: Vector2 { x: next_x(a, input, dt) as i64, y: next_y(a, input, dt) as i64 },
        velocity: next_velocity(a.velocity, input, dt),
    }
}

/// Computes the velocity after a frame of `dt_micros` microseconds.
pub fn compute_velocity(v: Vector2, input: FrameInput, dt_micros: u32) -> (r: Vector2)
    requires
        within(v, MAX_SPEED as int),
        input.wf(),
    ensures
        r == next_velocity(v, input, dt_micros as int),
        within(r, MAX_SPEED as int),
        r.y >= TERMINAL_FALL_SPEED,
{
    let movement_speed = MOVEMENT_SPEED;
    let jump_force = JUMP_FORCE;

    let vx = input.horizontal_intent * movement_speed;
    let mut vy = v.y;
    if input.jump_requested {
        vy = jump_force;
    }
    vy = vy - GRAVITY_ACCEL * (dt_micros as i64);
    if vy < TERMINAL_FALL_SPEED {
        vy = TERMINAL_FALL_SPEED;
    }
    Vector2 { x: vx, y: vy }
}

/// Computes the distance covered in `dt_micros` microseconds at speed `v`.
pub fn compute_travel(v: i64, dt_micros: u32) -> (r: i64)
    requires
        -MAX_SPEED <= v <= MAX_SPEED,
    ensures
        r == travel(v as int, dt_micros as int),
        -5_000_000_000_000_000_000 <= r <= 5_000_000_000_000_000_000,
{
    let dt = dt_micros as i64;
    proof {
        assert(-MAX_SPEED * dt <= v * dt <= MAX_SPEED * dt) by (nonlinear_arith)
            requires
                -MAX_SPEED <= v <= MAX_SPEED,
                0 <= dt;
    }
    v * dt * DISTANCE_SCALE
}

/// Whether the motion stage of a frame keeps the actor within the
/// coordinates it may hold.
pub fn motion_in_range(actor: &Actor, input: FrameInput, dt_micros: u32) -> (r: bool)
    requires
        actor.wf(),
        input.wf(),
    ensures
        r == stays_in_range(*actor, input, dt_micros as int),
{
    let v = compute_velocity(actor.velocity, input, dt_micros);
    let x = actor.position.x + compute_travel(v.x, dt_micros);
    let y = actor.position.y + compute_travel(v.y, dt_micros);
    -ACTOR_LIMIT <= x && x <= ACTOR_LIMIT && -ACTOR_LIMIT <= y && y <= ACTOR_LIMIT
}

/// The motion stage of a frame: applies the input, gravity and the terminal
/// fall speed to the actor's velocity, then moves the actor by it.
pub fn integrate(actor: &mut Actor, input: FrameInput, dt_micros: u32)
    requires
        old(actor).wf(),
        input.wf(),
        stays_in_range(*old(actor), input, dt_micros as int),
    ensures
        *final(actor) == integrated(*old(actor), input, dt_micros as int),
        final(actor).wf(),
        final(actor).velocity.x == input.horizontal_intent * MOVEMENT_SPEED,
        final(actor).velocity.y >= TERMINAL_FALL_SPEED,
{
    let v = compute_velocity(actor.velocity, input, dt_micros);
    let dx = compute_travel(v.x, dt_micros);
    let dy = compute_travel(v.y, dt_micros);
    actor.velocity = v;
    actor.position.x = actor.position.x + dx;
    actor.position.y = actor.position.y + dy;
}

/// In a frame with no key input, the vertical speed drops by exactly the
/// gravity of the frame, but never below the terminal fall speed.
pub proof fn lemma_free_fall(a: Actor, dt: nat)
    requires
        a.wf(),
    ensures
        ({
            let vy = integrated(a, FrameInput { horizontal_intent: 0, jump_requested: false }, dt as int).velocity.y;
            &&& vy >= TERMINAL_FALL_SPEED
            &&& vy <= a.velocity.y
            &&& a.velocity.y - GRAVITY_ACCEL * dt >= TERMINAL_FALL_SPEED ==> vy == a.velocity.y - GRAVITY_ACCEL * dt
            &&& a.velocity.y - GRAVITY_ACCEL * dt < TERMINAL_FALL_SPEED ==> vy == TERMINAL_FALL_SPEED
        }),
{
}

/// Holding right gives the actor exactly the movement speed, whatever it had.
pub proof fn lemma_constant_run_speed(a: Actor, jump_requested: bool, dt: nat)
    ensures
        integrated(a, FrameInput { horizontal_intent: 1, jump_requested }, dt as int).velocity.x
            == MOVEMENT_SPEED,
{
}

} // verus!
