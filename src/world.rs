//! The actor, the obstacles, and the world that holds them.
use vstd::prelude::*;
use crate::geometry::{Vector2, within};
use crate::collision::{resolve_all, resolve_collisions};
use crate::input::FrameInput;
use crate::motion::{integrate, integrated, motion_in_range, stays_in_range};
use crate::units::{
    ACTOR_LIMIT, GROUND_OFFSET_Y, GROUND_RANGE, GROUND_SPACING, MAX_GROUND_RANGE, MAX_SPEED,
    OBSTACLE_LIMIT,
};

verus! {

/// The one body that moves.
#[derive(Clone, Copy, Debug, PartialEq, Eq, Structural)]
pub struct Actor {
    pub position: Vector2,
    pub velocity: Vector2,
}

/// A static square that the actor cannot pass through.
#[derive(Clone, Copy, Debug, PartialEq, Eq, Structural)]
pub struct Obstacle {
    pub position: Vector2,
}

impl Actor {
    /// Position and speed are small enough for a frame's arithmetic.
    pub open spec fn wf(self) -> bool {
        within(self.position, ACTOR_LIMIT as int) && within(self.velocity, MAX_SPEED as int)
    }

    pub open spec fn at_rest_spec(position: Vector2) -> Actor {
        Actor { position, velocity: Vector2 { x: 0, y: 0 } }
    }

    /// An actor at rest at `position`.
    pub fn at_rest(position: Vector2) -> (r: Actor)
        ensures
            r == Actor::at_rest_spec(position),
    {
        Actor { position, velocity: Vector2 { x: 0, y: 0 } }
    }
}

impl Obstacle {
    pub open spec fn wf(self) -> bool {
        within(self.position, OBSTACLE_LIMIT as int)
    }
}

/// Every obstacle of `obstacles` is well formed.
pub open spec fn obstacles_wf(obstacles: Seq<Obstacle>) -> bool {
    forall|i: int| 0 <= i < obstacles.len() ==> (#[trigger] obstacles[i]).wf()
}

/// The actor and the obstacles, in the order they were laid out.
#[derive(Debug)]
pub struct World {
    pub actor: Actor,
    pub obstacles: Vec<Obstacle>,
}

impl World {
    pub open spec fn wf(&self) -> bool {
        self.actor.wf() && obstacles_wf(self.obstacles@)
    }
}

/// The `k`-th obstacle of a ground row that spans `-range .. range`.
pub open spec fn ground_obstacle(range: int, k: int) -> Obstacle {
    Obstacle {
        position: Vector2 { x: ((k - range) * GROUND_SPACING) as i64, y: GROUND_OFFSET_Y },
    }
}

/// A row of `2 * range` obstacles, spaced evenly and centred under the origin.
pub fn ground_row(range: i64) -> (r: Vec<Obstacle>)
    requires
        0 <= range <= MAX_GROUND_RANGE,
    ensures
        r@.len() == 2 * range,
        forall|k: int| 0 <= k < r@.len() ==> r@[k] == ground_obstacle(range as int, k),
        obstacles_wf(r@),
{
    let mut r: Vec<Obstacle> = Vec::new();
    let mut i: i64 = -range;
    while i < range
        invariant
            0 <= range <= MAX_GROUND_RANGE,
            -range <= i <= range,
            r@.len() == i + range,
            forall|k: int| 0 <= k < r@.len() ==> r@[k] == ground_obstacle(range as int, k),
            obstacles_wf(r@),
        decreases range - i,
    {
        proof {
            assert(-MAX_GROUND_RANGE * GROUND_SPACING <= i * GROUND_SPACING <= MAX_GROUND_RANGE * GROUND_SPACING)
                by (nonlinear_arith)
                requires
                    -MAX_GROUND_RANGE <= i <= MAX_GROUND_RANGE;
        }
        r.push(Obstacle { position: Vector2 { x: i * GROUND_SPACING, y: GROUND_OFFSET_Y } });
        i = i + 1;
    }
    r
}

impl World {
    /// The default world: the ground row of `GROUND_RANGE` and the actor at
    /// rest at the origin.
    pub fn new() -> (r: World)
        ensures
            r.wf(),
            r.actor == Actor::at_rest_spec(Vector2 { x: 0, y: 0 }),
            r.obstacles@.len() == 2 * GROUND_RANGE,
            forall|k: int|
                0 <= k < r.obstacles@.len() ==> r.obstacles@[k] == ground_obstacle(
                    GROUND_RANGE as int,
                    k,
                ),
    {
        World { actor: Actor::at_rest(Vector2 { x: 0, y: 0 }), obstacles: ground_row(GROUND_RANGE) }
    }

    /// The actor after one frame: motion, then collisions.
    pub open spec fn stepped(&self, input: FrameInput, dt: int) -> Actor {
        resolve_all(integrated(self.actor, input, dt), self.obstacles@)
    }

    /// Whether a frame keeps the actor within the coordinates it may hold.
    pub fn can_step(&self, input: FrameInput, dt_micros: u32) -> (r: bool)
        requires
            self.wf(),
            input.wf(),
        ensures
            r == stays_in_range(self.actor, input, dt_micros as int),
    {
        motion_in_range(&self.actor, input, dt_micros)
    }

    /// The motion stage of a frame.
    pub fn integrate(&mut self, input: FrameInput, dt_micros: u32)
        requires
            old(self).wf(),
            input.wf(),
            stays_in_range(old(self).actor, input, dt_micros as int),
        ensures
            final(self).wf(),
            final(self).obstacles@ == old(self).obstacles@,
            final(self).actor == integrated(old(self).actor, input, dt_micros as int),
    {
        integrate(&mut self.actor, input, dt_micros);
    }

    /// One frame of the simulation: the motion stage, then the collision stage.
    pub fn step(&mut self, input: FrameInput, dt_micros: u32)
        requires
            old(self).wf(),
            input.wf(),
            stays_in_range(old(self).actor, input, dt_micros as int),
        ensures
            final(self).wf(),
            final(self).obstacles@ == old(self).obstacles@,
            final(self).actor == old(self).stepped(input, dt_micros as int),
    {
        self.integrate(input, dt_micros);
        self.resolve_collisions();
    }
}

} // verus!
