use vstd::prelude::*;
use crate::components::{Brick, Transform, Velocity};
use crate::constants::{BALL_RADIUS, PADDLE_LEFT_BOUND, PADDLE_RIGHT_BOUND, PADDLE_SPEED,
    TICK_LIMIT};
use crate::events::CollisionEvent;
use crate::geometry::{abs_spec, clamp_spec, Aabb2d, BoundingCircle, Vec2};
use crate::input::{move_direction, move_direction_spec, InputState};
use crate::keybindings::Keybindings;

verus! {

/// The paddle's center after one tick of input-driven motion: the current
/// center advanced by `direction * PADDLE_SPEED * dt` and clamped into the
/// paddle's travel bounds.
pub open spec fn paddle_position_after(x: int, direction: int, dt: int) -> int {
    clamp_spec(
        x + direction * PADDLE_SPEED * dt,
        PADDLE_LEFT_BOUND as int,
        PADDLE_RIGHT_BOUND as int,
    )
}

/// After integration the paddle's center lies within its travel bounds,
/// whatever the starting position, the input direction and the tick time.
pub proof fn lemma_paddle_stays_in_bounds(x: int, direction: int, dt: int)
    ensures
        PADDLE_LEFT_BOUND <= paddle_position_after(x, direction, dt) <= PADDLE_RIGHT_BOUND,
{
}

/// Reads the movement intent from the input snapshot and advances the
/// paddle's horizontal position by it, scaled by the elapsed tick time and
/// clamped into the paddle's travel range. Nothing else of the transform
/// changes.
pub fn handle_input(
    keybindings: &Keybindings,
    input: &InputState,
    paddle_transform: &mut Transform,
    dt: i64,
)
    requires
        old(paddle_transform).translation.in_world(),
        0 <= dt <= TICK_LIMIT,
    ensures
        final(paddle_transform).translation.x == paddle_position_after(
            old(paddle_transform).translation.x as int,
            move_direction_spec(*input, *keybindings),
            dt as int,
        ),
        PADDLE_LEFT_BOUND <= final(paddle_transform).translation.x <= PADDLE_RIGHT_BOUND,
        final(paddle_transform).translation.y == old(paddle_transform).translation.y,
        final(paddle_transform).scale == old(paddle_transform).scale,
{
    let new_direction = move_direction(input, keybindings);
    let step = PADDLE_SPEED * dt;
    assert(-200_000_000_000 <= new_direction * step <= 200_000_000_000) by (nonlinear_arith)
        requires
            -1 <= new_direction <= 1,
            0 <= step <= 200_000_000_000;
    let delta = new_direction * step;
    assert(delta == move_direction_spec(*input, *keybindings) * PADDLE_SPEED * dt)
        by (nonlinear_arith)
        requires
            delta == new_direction * (PADDLE_SPEED * dt),
            new_direction == move_direction_spec(*input, *keybindings);
    let new_paddle_position = paddle_transform.translation.x + delta;
    let clamped = if new_paddle_position < PADDLE_LEFT_BOUND {
        PADDLE_LEFT_BOUND
    } else if new_paddle_position > PADDLE_RIGHT_BOUND {
        PADDLE_RIGHT_BOUND
    } else {
        new_paddle_position
    };
    paddle_transform.translation.x = clamped;
}

/// Advances the ball by its velocity scaled by the elapsed tick time, on
/// both axes and unclamped; the wall colliders are what keeps the ball
/// inside the play field.
pub fn ball_movement(ball_transform: &mut Transform, velocity: &Velocity, dt: i64)
    requires
        old(ball_transform).translation.in_world(),
        velocity.wf(),
        0 <= dt <= TICK_LIMIT,
    ensures
        final(ball_transform).translation.x == old(ball_transform).translation.x + velocity.0.x * dt,
        final(ball_transform).translation.y == old(ball_transform).translation.y + velocity.0.y * dt,
        final(ball_transform).scale == old(ball_transform).scale,
{
    assert(-1_000_000_000_000 <= velocity.0.x * dt <= 1_000_000_000_000) by (nonlinear_arith)
        requires
            -1_000_000 <= velocity.0.x <= 1_000_000,
            0 <= dt <= 1_000_000;
    assert(-1_000_000_000_000 <= velocity.0.y * dt <= 1_000_000_000_000) by (nonlinear_arith)
        requires
            -1_000_000 <= velocity.0.y <= 1_000_000,
            0 <= dt <= 1_000_000;
    ball_transform.translation.x = ball_transform.translation.x + velocity.0.x * dt;
    ball_transform.translation.y = ball_transform.translation.y + velocity.0.y * dt;
}

/// The side of a collider that a contact is attributed to. Near-corner
/// contacts go to whichever axis has the larger center-to-closest-point
/// offset; this tie-break is deliberate and load-bearing for game feel.
#[derive(Debug, PartialEq, Eq, Structural, Copy, Clone)]
pub enum Collision {
    Left,
    Right,
    Top,
    Bottom,
}

/// One entry of the collider set the resolver walks: the collider's
/// transform, and its brick marker where the entity is a destructible brick.
#[derive(Clone, Copy, PartialEq, Eq, Structural, Debug)]
pub struct ColliderEntity {
    pub transform: Transform,
    pub brick: Option<Brick>,
}

/// The ball's bounding circle for this tick: centered at the ball's
/// translation, with half the ball's size as radius.
pub open spec fn ball_circle_spec(t: Transform) -> BoundingCircle {
    BoundingCircle { center: t.translation, radius: BALL_RADIUS }
}

/// The collision box a collider presents: centered at its translation, with
/// half its scale as half-extents.
pub open spec fn collider_aabb_spec(t: Transform) -> Aabb2d {
    Aabb2d {
        center: t.translation,
        half_size: Vec2 { x: (t.scale.x / 2) as i64, y: (t.scale.y / 2) as i64 },
    }
}

/// The side a contact between the ball and a box is attributed to, or `None`
/// when the two do not intersect: the axis with the larger offset between the
/// ball's center and the box's closest point wins, and the offset's sign on
/// that axis picks the side.
pub open spec fn collision_side_spec(circle: BoundingCircle, aabb: Aabb2d) -> Option<Collision> {
    if !circle.intersects_spec(aabb) {
        None
    } else {
        let offset_x = circle.center.x - aabb.closest_x_spec(circle.center);
        let offset_y = circle.center.y - aabb.closest_y_spec(circle.center);
        if abs_spec(offset_x) > abs_spec(offset_y) {
            if offset_x < 0 {
                Some(Collision::Left)
            } else {
                Some(Collision::Right)
            }
        } else if offset_y > 0 {
            Some(Collision::Top)
        } else {
            Some(Collision::Bottom)
        }
    }
}

/// `v` with the sign of its x component flipped.
pub open spec fn flip_x_spec(v: Velocity) -> Velocity {
    Velocity(Vec2 { x: (-v.0.x) as i64, y: v.0.y })
}

/// `v` with the sign of its y component flipped.
pub open spec fn flip_y_spec(v: Velocity) -> Velocity {
    Velocity(Vec2 { x: v.0.x, y: (-v.0.y) as i64 })
}

/// The ball's velocity after a contact on the given side: the matching axis
/// flips sign only when the ball moves into the surface, so a ball already
/// receding (say, from an earlier flip this same tick) is not flipped again.
pub open spec fn reflected_spec(v: Velocity, side: Collision) -> Velocity {
    match side {
        Collision::Left => if v.0.x > 0 { flip_x_spec(v) } else { v },
        Collision::Right => if v.0.x < 0 { flip_x_spec(v) } else { v },
        Collision::Top => if v.0.y < 0 { flip_y_spec(v) } else { v },
        Collision::Bottom => if v.0.y > 0 { flip_y_spec(v) } else { v },
    }
}

/// The ball's velocity after resolving one (ball, collider) pair.
pub open spec fn resolve_one_spec(v: Velocity, circle: BoundingCircle, c: ColliderEntity) -> Velocity {
    match collision_side_spec(circle, collider_aabb_spec(c.transform)) {
        Option::None => v,
        Option::Some(side) => reflected_spec(v, side),
    }
}

/// The ball's velocity after resolving the first `n` colliders of `cs` in
/// order, each against the velocity the earlier pairs left behind.
pub open spec fn velocity_after_spec(
    v: Velocity,
    circle: BoundingCircle,
    cs: Seq<ColliderEntity>,
    n: int,
) -> Velocity
    decreases n,
{
    if n <= 0 {
        v
    } else {
        resolve_one_spec(velocity_after_spec(v, circle, cs, n - 1), circle, cs[n - 1])
    }
}

/// How many of the first `n` colliders of `cs` the ball touches; one
/// collision event is emitted for each, without deduplication.
pub open spec fn hit_count_spec(circle: BoundingCircle, cs: Seq<ColliderEntity>, n: int) -> int
    decreases n,
{
    if n <= 0 {
        0
    } else {
        hit_count_spec(circle, cs, n - 1) + if circle.intersects_spec(
            collider_aabb_spec(cs[n - 1].transform),
        ) {
            1int
        } else {
            0int
        }
    }
}

/// The first `n` entries of `cs` that survive the tick, keeping their
/// order: every collider except the bricks the ball touches, which are
/// removed on first contact.
pub open spec fn surviving_spec(
    circle: BoundingCircle,
    cs: Seq<ColliderEntity>,
    n: int,
) -> Seq<ColliderEntity>
    decreases n,
{
    if n <= 0 {
        Seq::empty()
    } else {
        let prefix = surviving_spec(circle, cs, n - 1);
        let c = cs[n - 1];
        if c.brick is Some && circle.intersects_spec(collider_aabb_spec(c.transform)) {
            prefix
        } else {
            prefix.push(c)
        }
    }
}

/// Half of a nonnegative scale component, as a collider half-extent.
fn half_extent(scale: i64) -> (r: i64)
    requires
        0 <= scale,
    ensures
        r == scale as int / 2,
{
    ((scale as u64) / 2) as i64
}

/// Classifies the contact between the ball's bounding circle and one
/// collider's box, or returns `None` when the two do not touch.
pub fn ball_collision(ball_bounds: BoundingCircle, box_bounds: Aabb2d) -> (r: Option<Collision>)
    requires
        ball_bounds.wf(),
        box_bounds.wf(),
    ensures
        r == collision_side_spec(ball_bounds, box_bounds),
{
    if !ball_bounds.intersects(&box_bounds) {
        return None;
    }
    let closest = box_bounds.closest_point(ball_bounds.center);
    let offset_x = ball_bounds.center.x - closest.x;
    let offset_y = ball_bounds.center.y - closest.y;
    let abs_x = if offset_x < 0 { -offset_x } else { offset_x };
    let abs_y = if offset_y < 0 { -offset_y } else { offset_y };
    let side = if abs_x > abs_y {
        if offset_x < 0 {
            Collision::Left
        } else {
            Collision::Right
        }
    } else if offset_y > 0 {
        Collision::Top
    } else {
        Collision::Bottom
    };
    Some(side)
}

/// Resolves the ball against every collider of the set: for each touching
/// pair, in order, it emits one `CollisionEvent`, removes the collider when
/// it is a brick, and flips the matching velocity component when the ball
/// moves into the contact side. Every pair is tested against the ball's
/// already-updated position for this tick, so simultaneous contacts are all
/// resolved within the same tick, applying their flips cumulatively.
pub fn check_for_collisions(
    velocity: &mut Velocity,
    ball_transform: &Transform,
    colliders: &mut Vec<ColliderEntity>,
    collision_events: &mut Vec<CollisionEvent>,
)
    requires
        old(velocity).wf(),
        ball_transform.translation.in_world(),
        forall|j: int| 0 <= j < old(colliders)@.len() ==> (#[trigger] old(
            colliders,
        )@[j]).transform.wf(),
    ensures
        *final(velocity) == velocity_after_spec(
            *old(velocity),
            ball_circle_spec(*ball_transform),
            old(colliders)@,
            old(colliders)@.len() as int,
        ),
        final(velocity).wf(),
        final(colliders)@ == surviving_spec(
            ball_circle_spec(*ball_transform),
            old(colliders)@,
            old(colliders)@.len() as int,
        ),
        final(collision_events)@.len() == old(collision_events)@.len() + hit_count_spec(
            ball_circle_spec(*ball_transform),
            old(colliders)@,
            old(colliders)@.len() as int,
        ),
        final(collision_events)@.subrange(0, old(collision_events)@.len() as int) == old(
            collision_events,
        )@,
{
    let ghost circle = ball_circle_spec(*ball_transform);
    let ghost cs = colliders@;
    let ghost v0 = *velocity;
    let ghost e0 = collision_events@;
    let ball_bounds = BoundingCircle::new(ball_transform.translation, BALL_RADIUS);
    let mut kept: Vec<ColliderEntity> = Vec::new();
    let n = colliders.len();
    let mut i: usize = 0;
    while i < n
        invariant
            i <= n,
            n == cs.len(),
            colliders@ == cs,
            forall|j: int| 0 <= j < cs.len() ==> (#[trigger] cs[j]).transform.wf(),
            ball_bounds == circle,
            ball_bounds.wf(),
            *velocity == velocity_after_spec(v0, circle, cs, i as int),
            velocity.wf(),
            kept@ == surviving_spec(circle, cs, i as int),
            collision_events@.len() == e0.len() + hit_count_spec(circle, cs, i as int),
            e0.len() <= collision_events@.len(),
            forall|j: int| 0 <= j < e0.len() ==> #[trigger] collision_events@[j] == e0[j],
        decreases n - i,
    {
        let collider = colliders[i];
        let box_bounds = Aabb2d::new(
            collider.transform.translation,
            Vec2::new(
                half_extent(collider.transform.scale.x),
                half_extent(collider.transform.scale.y),
            ),
        );
        assert(box_bounds == collider_aabb_spec(collider.transform));
        let collision = ball_collision(ball_bounds, box_bounds);
        let ghost v_before = *velocity;
        let ghost events_before = collision_events@;
        match collision {
            Option::Some(collision) => {
                collision_events.push(CollisionEvent);
                if collider.brick.is_none() {
                    kept.push(collider);
                }
                let mut reflect_x = false;
                let mut reflect_y = false;
                match collision {
                    Collision::Left => reflect_x = velocity.0.x > 0,
                    Collision::Right => reflect_x = velocity.0.x < 0,
                    Collision::Top => reflect_y = velocity.0.y < 0,
                    Collision::Bottom => reflect_y = velocity.0.y > 0,
                }
                if reflect_x {
                    velocity.0.x = -velocity.0.x;
                }
                if reflect_y {
                    velocity.0.y = -velocity.0.y;
                }
                proof {
                    assert(*velocity == resolve_one_spec(v_before, circle, collider));
                }
            },
            Option::None => {
                kept.push(collider);
            },
        }
        proof {
            if collision_events@.len() != events_before.len() {
                assert(collision_events@ == events_before.push(CollisionEvent));
                assert(forall|j: int|
                    0 <= j < e0.len() ==> #[trigger] collision_events@[j] == events_before[j]);
            }
        }
        i += 1;
    }
    *colliders = kept;
    proof {
        assert(collision_events@.subrange(0, e0.len() as int) =~= e0);
    }
}

/// The squared magnitude of a velocity.
pub open spec fn speed_sq_spec(v: Velocity) -> int {
    v.0.x * v.0.x + v.0.y * v.0.y
}

/// Flipping the sign of the x component keeps the squared magnitude and the
/// velocity bound.
proof fn lemma_flip_x_preserves_speed(v: Velocity)
    requires
        v.wf(),
    ensures
        flip_x_spec(v).wf(),
        speed_sq_spec(flip_x_spec(v)) == speed_sq_spec(v),
{
    let f = flip_x_spec(v);
    assert(f.0.x == -(v.0.x as int));
    assert(f.0.x * f.0.x == v.0.x * v.0.x) by (nonlinear_arith)
        requires
            f.0.x == -(v.0.x as int);
}

/// Flipping the sign of the y component keeps the squared magnitude and the
/// velocity bound.
proof fn lemma_flip_y_preserves_speed(v: Velocity)
    requires
        v.wf(),
    ensures
        flip_y_spec(v).wf(),
        speed_sq_spec(flip_y_spec(v)) == speed_sq_spec(v),
{
    let f = flip_y_spec(v);
    assert(f.0.y == -(v.0.y as int));
    assert(f.0.y * f.0.y == v.0.y * v.0.y) by (nonlinear_arith)
        requires
            f.0.y == -(v.0.y as int);
}

/// Reflection preserves speed: flipping the sign of one or both components
/// of a bounded velocity leaves its squared magnitude unchanged.
pub proof fn lemma_reflection_preserves_speed(v: Velocity, reflect_x: bool, reflect_y: bool)
    requires
        v.wf(),
    ensures
        ({
            let v1 = if reflect_x { flip_x_spec(v) } else { v };
            let v2 = if reflect_y { flip_y_spec(v1) } else { v1 };
            v2.wf() && speed_sq_spec(v2) == speed_sq_spec(v)
        }),
{
    let v1 = if reflect_x { flip_x_spec(v) } else { v };
    if reflect_x {
        lemma_flip_x_preserves_speed(v);
    }
    if reflect_y {
        lemma_flip_y_preserves_speed(v1);
    }
}

/// A single resolved contact preserves speed: whichever side it is
/// attributed to, the velocity either is unchanged or has one sign flipped.
proof fn lemma_reflected_preserves_speed(v: Velocity, side: Collision)
    requires
        v.wf(),
    ensures
        reflected_spec(v, side).wf(),
        speed_sq_spec(reflected_spec(v, side)) == speed_sq_spec(v),
{
    match side {
        Collision::Left => if v.0.x > 0 {
            lemma_flip_x_preserves_speed(v);
        },
        Collision::Right => if v.0.x < 0 {
            lemma_flip_x_preserves_speed(v);
        },
        Collision::Top => if v.0.y < 0 {
            lemma_flip_y_preserves_speed(v);
        },
        Collision::Bottom => if v.0.y > 0 {
            lemma_flip_y_preserves_speed(v);
        },
    }
}

/// The resolver preserves speed: however many colliders a tick resolves, the
/// ball's squared speed after the pass equals its squared speed before it.
pub proof fn lemma_resolver_preserves_speed(
    v: Velocity,
    circle: BoundingCircle,
    cs: Seq<ColliderEntity>,
    n: int,
)
    requires
        v.wf(),
    ensures
        velocity_after_spec(v, circle, cs, n).wf(),
        speed_sq_spec(velocity_after_spec(v, circle, cs, n)) == speed_sq_spec(v),
    decreases n,
{
    if n > 0 {
        lemma_resolver_preserves_speed(v, circle, cs, n - 1);
        let prev = velocity_after_spec(v, circle, cs, n - 1);
        match collision_side_spec(circle, collider_aabb_spec(cs[n - 1].transform)) {
            Option::Some(side) => lemma_reflected_preserves_speed(prev, side),
            Option::None => {},
        }
    }
}


} // verus!
