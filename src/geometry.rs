//! Axis-aligned boxes and the collision predicate.
use vstd::prelude::*;

verus! {

/// A point or a vector in fixed-point coordinates.
#[derive(Clone, Copy, Debug, PartialEq, Eq, Structural)]
pub struct Vector2 {
    pub x: i64,
    pub y: i64,
}

/// The four edges of an axis-aligned box.
#[derive(Clone, Copy, Debug, PartialEq, Eq, Structural)]
pub struct Bounds {
    pub left: i64,
    pub right: i64,
    pub top: i64,
    pub bottom: i64,
}

/// Every coordinate of `p` lies within `[-limit, limit]`.
pub open spec fn within(p: Vector2, limit: int) -> bool {
    -limit <= p.x <= limit && -limit <= p.y <= limit
}

/// The box of half-extent `half` centred on `c`.
pub open spec fn bounds_spec(c: Vector2, half: int) -> Bounds
    recommends
        0 <= half,
        i64::MIN <= c.x - half,
        c.x + half <= i64::MAX,
        i64::MIN <= c.y - half,
        c.y + half <= i64::MAX,
{
    Bounds {
        left: (c.x - half) as i64,
        right: (c.x + half) as i64,
        top: (c.y + half) as i64,
        bottom: (c.y - half) as i64,
    }
}

/// A point collides with a box when it lies strictly inside the box's
/// horizontal span, or strictly inside its vertical span.
pub open spec fn collides_spec(p: Vector2, b: Bounds) -> bool {
    (b.left < p.x && p.x < b.right) || (b.bottom < p.y && p.y < b.top)
}

impl Vector2 {
    pub fn new(x: i64, y: i64) -> (r: Vector2)
        ensures
            r == (Vector2 { x, y }),
    {
        Vector2 { x, y }
    }
}

impl Bounds {
    /// The edges of the box of half-extent `half` centred on `center`.
    pub fn around(center: Vector2, half: i64) -> (r: Bounds)
        requires
            0 <= half,
            i64::MIN <= center.x as int - half as int,
            center.x as int + half as int <= i64::MAX,
            i64::MIN <= center.y as int - half as int,
            center.y as int + half as int <= i64::MAX,
        ensures
            r == bounds_spec(center, half as int),
    {
        Bounds {
            left: center.x - half,
            right: center.x + half,
            top: center.y + half,
            bottom: center.y - half,
        }
    }
}

/// The collision test between a point (the actor's centre) and a box.
///
/// This is deliberately not a full box-overlap test: containment of the
/// point along either axis alone counts as a collision.
pub fn is_colliding(p: Vector2, b: &Bounds) -> (r: bool)
    ensures
        r == collides_spec(p, *b),
{
    (p.x > b.left && p.x < b.right) || (p.y > b.bottom && p.y < b.top)
}

} // verus!
