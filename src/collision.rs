//! Pushing the actor out of the obstacles it ran into.
use vstd::prelude::*;
use crate::geometry::{bounds_spec, collides_spec, is_colliding, Bounds, Vector2};
use crate::units::HALF_EXTENT;
use crate::world::{obstacles_wf, Actor, Obstacle, World};

verus! {

/// The actor after resolving it against one obstacle.
///
/// If the actor's centre collides with the obstacle's box, each nonzero
/// velocity component is zeroed, and where the actor's edge has passed the
/// obstacle's facing edge in that direction, the actor is set flush with it.
pub open spec fn resolve_one(a: Actor, o: Obstacle) -> Actor {
    let h = HALF_EXTENT as int;
    let ab = bounds_spec(a.position, h);
    let ob = bounds_spec(o.position, h);
    if !collides_spec(a.position, ob) {
        a
    } else {
        let x1 = if a.velocity.x > 0 && ab.right > ob.left { ob.left - h } else { a.position.x as int };
        let x2 = if a.velocity.x < 0 && ab.left < ob.right { ob.right + h } else { x1 };
        let y1 = if a.velocity.y > 0 && ab.top > ob.bottom { ob.bottom - h } else { a.position.y as int };
        let y2 = if a.velocity.y < 0 && ab.bottom < ob.top { ob.top + h } else { y1 };
        Actor {
            position: Vector2 { x: x2 as i64, y: y2 as i64 },
            velocity: Vector2 { x: 0, y: 0 },
        }
    }
}

/// The actor after resolving it against each obstacle of `obs` in turn.
pub open spec fn resolve_all(a: Actor, obs: Seq<Obstacle>) -> Actor
    decreases obs.len(),
{
    if obs.len() == 0 {
        a
    } else {
        resolve_one(resolve_all(a, obs.drop_last()), obs.last())
    }
}

/// Resolves the actor against one obstacle.
pub fn resolve_obstacle(actor: &mut Actor, obstacle: &Obstacle)
    requires
        old(actor).wf(),
        obstacle.wf(),
    ensures
        *final(actor) == resolve_one(*old(actor), *obstacle),
        final(actor).wf(),
{
    let half_size = HALF_EXTENT;
    let actor_box = Bounds::around(actor.position, half_size);
    let wall = Bounds::around(obstacle.position, half_size);

    if is_colliding(actor.position, &wall) {
        // moving right
        if actor.velocity.x > 0 {
            if actor_box.right > wall.left {
                actor.position.x = wall.left - half_size;
            }
            actor.velocity.x = 0;
        }
        // moving left
        if actor.velocity.x < 0 {
            if actor_box.left < wall.right {
                actor.position.x = wall.right + half_size;
            }
            actor.velocity.x = 0;
        }
        // moving up
        if actor.velocity.y > 0 {
            if actor_box.top > wall.bottom {
                actor.position.y = wall.bottom - half_size;
            }
            actor.velocity.y = 0;
        }
        // moving down
        if actor.velocity.y < 0 {
            if actor_box.bottom < wall.top {
                actor.position.y = wall.top + half_size;
            }
            actor.velocity.y = 0;
        }
    }
}

/// Resolves the actor against every obstacle, in order.
pub fn resolve_collisions(actor: &mut Actor, obstacles: &Vec<Obstacle>)
    requires
        old(actor).wf(),
        obstacles_wf(obstacles@),
    ensures
        *final(actor) == resolve_all(*old(actor), obstacles@),
        final(actor).wf(),
{
    let ghost start = *actor;
    let mut i: usize = 0;
    while i < obstacles.len()
        invariant
            i <= obstacles@.len(),
            obstacles_wf(obstacles@),
            actor.wf(),
            *actor == resolve_all(start, obstacles@.subrange(0, i as int)),
        decreases obstacles@.len() - i,
    {
        resolve_obstacle(actor, &obstacles[i]);
        assert(obstacles@.subrange(0, i + 1).drop_last() =~= obstacles@.subrange(0, i as int));
        i = i + 1;
    }
    assert(obstacles@.subrange(0, i as int) =~= obstacles@);
}

impl World {
    /// The collision stage of a frame.
    pub fn resolve_collisions(&mut self)
        requires
            old(self).wf(),
        ensures
            final(self).wf(),
            final(self).obstacles@ == old(self).obstacles@,
            final(self).actor == resolve_all(old(self).actor, old(self).obstacles@),
    {
        resolve_collisions(&mut self.actor, &self.obstacles);
    }
}

/// An actor resting exactly on an obstacle's top edge while moving down
/// stays on that edge and stops falling.
pub proof fn lemma_rest_on_top(a: Actor, o: Obstacle)
    requires
        a.wf(),
        o.wf(),
        collides_spec(a.position, bounds_spec(o.position, HALF_EXTENT as int)),
        bounds_spec(a.position, HALF_EXTENT as int).bottom == bounds_spec(o.position, HALF_EXTENT as int).top,
        a.velocity.y < 0,
    ensures
        resolve_one(a, o).position.y == bounds_spec(o.position, HALF_EXTENT as int).top + HALF_EXTENT,
        resolve_one(a, o).velocity.y == 0,
{
}

/// An actor moving right whose right edge has passed an obstacle's left edge
/// is set flush against that edge and stops moving sideways.
pub proof fn lemma_stop_at_left_face(a: Actor, o: Obstacle)
    requires
        a.wf(),
        o.wf(),
        collides_spec(a.position, bounds_spec(o.position, HALF_EXTENT as int)),
        a.velocity.x > 0,
        bounds_spec(a.position, HALF_EXTENT as int).right > bounds_spec(o.position, HALF_EXTENT as int).left,
    ensures
        resolve_one(a, o).position.x == bounds_spec(o.position, HALF_EXTENT as int).left - HALF_EXTENT,
        resolve_one(a, o).velocity.x == 0,
{
}

/// Resolving against one obstacle either changes nothing or stops the actor.
proof fn lemma_resolve_one_stops_or_keeps(a: Actor, o: Obstacle)
    ensures
        resolve_one(a, o) == a || resolve_one(a, o).velocity == (Vector2 { x: 0, y: 0 }),
        a.velocity == (Vector2 { x: 0, y: 0 }) ==> resolve_one(a, o) == a,
{
}

/// Resolving against a run of obstacles either changes nothing or stops the
/// actor; a stopped actor is never moved.
proof fn lemma_resolve_all_stops_or_keeps(a: Actor, obs: Seq<Obstacle>)
    ensures
        resolve_all(a, obs) == a || resolve_all(a, obs).velocity == (Vector2 { x: 0, y: 0 }),
        a.velocity == (Vector2 { x: 0, y: 0 }) ==> resolve_all(a, obs) == a,
    decreases obs.len(),
{
    if obs.len() > 0 {
        lemma_resolve_all_stops_or_keeps(a, obs.drop_last());
        lemma_resolve_one_stops_or_keeps(resolve_all(a, obs.drop_last()), obs.last());
    }
}

/// Resolving collisions a second time, with no motion in between, changes
/// nothing.
pub proof fn lemma_resolve_idempotent(a: Actor, obs: Seq<Obstacle>)
    ensures
        resolve_all(resolve_all(a, obs), obs) == resolve_all(a, obs),
{
    lemma_resolve_all_stops_or_keeps(a, obs);
    lemma_resolve_all_stops_or_keeps(resolve_all(a, obs), obs);
}

} // verus!
