use vstd::prelude::*;
use crate::constants::WORLD_LIMIT;

verus! {

/// A 2D vector of integer world coordinates.
#[derive(Clone, Copy, PartialEq, Eq, Structural, Debug)]
pub struct Vec2 {
    pub x: i64,
    pub y: i64,
}

impl Vec2 {
    /// Both coordinates lie within the world's coordinate limit.
    pub open spec fn in_world(self) -> bool {
        &&& -WORLD_LIMIT <= self.x <= WORLD_LIMIT
        &&& -WORLD_LIMIT <= self.y <= WORLD_LIMIT
    }

    pub fn new(x: i64, y: i64) -> (r: Vec2)
        ensures
            r.x == x,
            r.y == y,
    {
        Vec2 { x, y }
    }
}

/// Clamp of `v` into `[lo, hi]` (callers keep `lo <= hi`).
pub open spec fn clamp_spec(v: int, lo: int, hi: int) -> int {
    if v < lo {
        lo
    } else if v > hi {
        hi
    } else {
        v
    }
}

/// Absolute value.
pub open spec fn abs_spec(v: int) -> int {
    if v < 0 {
        -v
    } else {
        v
    }
}

/// Squared Euclidean distance between the points `(ax, ay)` and `(bx, by)`.
pub open spec fn dist_sq(ax: int, ay: int, bx: int, by: int) -> int {
    (ax - bx) * (ax - bx) + (ay - by) * (ay - by)
}

/// An axis-aligned bounding box given by its center and its half-extents.
#[derive(Clone, Copy, PartialEq, Eq, Structural, Debug)]
pub struct Aabb2d {
    pub center: Vec2,
    pub half_size: Vec2,
}

impl Aabb2d {
    /// The box sits inside the world and its half-extents are nonnegative.
    pub open spec fn wf(self) -> bool {
        &&& self.center.in_world()
        &&& 0 <= self.half_size.x <= WORLD_LIMIT
        &&& 0 <= self.half_size.y <= WORLD_LIMIT
    }

    /// The x coordinate of the point of the box nearest to `p`: the clamp of
    /// `p.x` into `[center.x - half_size.x, center.x + half_size.x]`.
    pub open spec fn closest_x_spec(self, p: Vec2) -> int {
        clamp_spec(p.x as int, self.center.x - self.half_size.x, self.center.x + self.half_size.x)
    }

    /// The y coordinate of the point of the box nearest to `p`.
    pub open spec fn closest_y_spec(self, p: Vec2) -> int {
        clamp_spec(p.y as int, self.center.y - self.half_size.y, self.center.y + self.half_size.y)
    }

    pub fn new(center: Vec2, half_size: Vec2) -> (r: Aabb2d)
        ensures
            r.center == center,
            r.half_size == half_size,
    {
        Aabb2d { center, half_size }
    }

    /// The point on or inside the box nearest to `p`, computed by clamping
    /// each coordinate of `p` into the box's extent on that axis.
    pub fn closest_point(&self, p: Vec2) -> (r: Vec2)
        requires
            self.wf(),
            p.in_world(),
        ensures
            r.x == self.closest_x_spec(p),
            r.y == self.closest_y_spec(p),
    {
        let lo_x = self.center.x - self.half_size.x;
        let hi_x = self.center.x + self.half_size.x;
        let lo_y = self.center.y - self.half_size.y;
        let hi_y = self.center.y + self.half_size.y;
        let x = if p.x < lo_x {
            lo_x
        } else if p.x > hi_x {
            hi_x
        } else {
            p.x
        };
        let y = if p.y < lo_y {
            lo_y
        } else if p.y > hi_y {
            hi_y
        } else {
            p.y
        };
        Vec2 { x, y }
    }
}

/// A circular collision envelope given by its center and its radius.
#[derive(Clone, Copy, PartialEq, Eq, Structural, Debug)]
pub struct BoundingCircle {
    pub center: Vec2,
    pub radius: i64,
}

impl BoundingCircle {
    /// The circle sits inside the world and its radius is nonnegative.
    pub open spec fn wf(self) -> bool {
        &&& self.center.in_world()
        &&& 0 <= self.radius <= WORLD_LIMIT
    }

    /// The circle touches the box exactly when the squared distance from the
    /// circle's center to the box's closest point is at most the squared
    /// radius. Edge contact counts as intersecting.
    pub open spec fn intersects_spec(self, aabb: Aabb2d) -> bool {
        dist_sq(
            self.center.x as int,
            self.center.y as int,
            aabb.closest_x_spec(self.center),
            aabb.closest_y_spec(self.center),
        ) <= self.radius * self.radius
    }

    pub fn new(center: Vec2, radius: i64) -> (r: BoundingCircle)
        ensures
            r.center == center,
            r.radius == radius,
    {
        BoundingCircle { center, radius }
    }

    /// True iff the distance from the circle's center to the nearest point of
    /// the box is at most the radius.
    pub fn intersects(&self, aabb: &Aabb2d) -> (r: bool)
        requires
            self.wf(),
            aabb.wf(),
        ensures
            r == self.intersects_spec(*aabb),
    {
        let closest = aabb.closest_point(self.center);
        let dx = self.center.x - closest.x;
        let dy = self.center.y - closest.y;
        assert(0 <= dx * dx <= 9_000_000_000_000) by (nonlinear_arith)
            requires
                -3_000_000 <= dx <= 3_000_000;
        assert(0 <= dy * dy <= 9_000_000_000_000) by (nonlinear_arith)
            requires
                -3_000_000 <= dy <= 3_000_000;
        let rr_bound = self.radius;
        assert(0 <= rr_bound * rr_bound <= 1_000_000_000_000) by (nonlinear_arith)
            requires
                0 <= rr_bound <= 1_000_000;
        dx * dx + dy * dy <= self.radius * self.radius
    }
}

/// The closest point of a box lies within `[center - half_size, center +
/// half_size]` on each axis, and is the axis-wise clamp of the query point.
pub proof fn lemma_closest_point_in_box(b: Aabb2d, p: Vec2)
    requires
        b.half_size.x >= 0,
        b.half_size.y >= 0,
    ensures
        b.center.x - b.half_size.x <= b.closest_x_spec(p) <= b.center.x + b.half_size.x,
        b.center.y - b.half_size.y <= b.closest_y_spec(p) <= b.center.y + b.half_size.y,
        b.closest_x_spec(p) == clamp_spec(
            p.x as int,
            b.center.x - b.half_size.x,
            b.center.x + b.half_size.x,
        ),
        b.closest_y_spec(p) == clamp_spec(
            p.y as int,
            b.center.y - b.half_size.y,
            b.center.y + b.half_size.y,
        ),
{
}

/// Intersection is exactly the dual closest-point formulation: the circle
/// intersects the box iff the squared distance from the circle's center to
/// the box's closest point is within the squared radius.
pub proof fn lemma_intersects_iff_closest_within_radius(c: BoundingCircle, b: Aabb2d)
    ensures
        c.intersects_spec(b) <==> dist_sq(
            c.center.x as int,
            c.center.y as int,
            b.closest_x_spec(c.center),
            b.closest_y_spec(c.center),
        ) <= c.radius * c.radius,
{
}

} // verus!
