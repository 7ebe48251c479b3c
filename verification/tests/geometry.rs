use breakout_core::geometry::{Aabb2d, BoundingCircle, Vec2};

fn aabb(cx: i64, cy: i64, hx: i64, hy: i64) -> Aabb2d {
    Aabb2d::new(Vec2::new(cx, cy), Vec2::new(hx, hy))
}

#[test]
fn closest_point_is_axiswise_clamp() {
    let b = aabb(0, 0, 4, 2);
    // Outside on both axes: clamped to the near corner.
    assert_eq!(b.closest_point(Vec2::new(10, 10)), Vec2::new(4, 2));
    assert_eq!(b.closest_point(Vec2::new(-10, -10)), Vec2::new(-4, -2));
    // Outside on one axis only: the other coordinate passes through.
    assert_eq!(b.closest_point(Vec2::new(10, 1)), Vec2::new(4, 1));
    assert_eq!(b.closest_point(Vec2::new(-3, -9)), Vec2::new(-3, -2));
}

#[test]
fn closest_point_of_inside_point_is_the_point() {
    let b = aabb(5, -5, 4, 4);
    assert_eq!(b.closest_point(Vec2::new(5, -5)), Vec2::new(5, -5));
    assert_eq!(b.closest_point(Vec2::new(2, -3)), Vec2::new(2, -3));
}

#[test]
fn closest_point_stays_within_box() {
    let b = aabb(10, 20, 3, 7);
    let probes = [
        Vec2::new(0, 0),
        Vec2::new(100, 100),
        Vec2::new(-50, 27),
        Vec2::new(10, -100),
        Vec2::new(13, 27),
    ];
    for p in probes {
        let c = b.closest_point(p);
        assert!(7 <= c.x && c.x <= 13);
        assert!(13 <= c.y && c.y <= 27);
    }
}

#[test]
fn intersects_counts_edge_contact() {
    // Distance from (0,0) to the box's closest point (5,0) is exactly the radius.
    let c = BoundingCircle::new(Vec2::new(0, 0), 5);
    let b = aabb(10, 0, 5, 50);
    assert!(c.intersects(&b));
}

#[test]
fn intersects_rejects_near_miss() {
    let c = BoundingCircle::new(Vec2::new(0, 0), 4);
    let b = aabb(10, 0, 5, 50);
    assert!(!c.intersects(&b));
}

#[test]
fn intersects_when_center_inside_box() {
    let c = BoundingCircle::new(Vec2::new(10, 0), 1);
    let b = aabb(10, 0, 5, 50);
    assert!(c.intersects(&b));
}

#[test]
fn intersects_matches_closest_point_distance() {
    // The dual formulation: intersection holds exactly when the squared
    // distance to the closest point is within the squared radius.
    let b = aabb(-8, 6, 2, 3);
    let probes = [
        (Vec2::new(0, 0), 5i64),
        (Vec2::new(0, 0), 6i64),
        (Vec2::new(-8, 6), 0i64),
        (Vec2::new(-20, 20), 10i64),
        (Vec2::new(-20, 20), 16i64),
    ];
    for (center, radius) in probes {
        let closest = b.closest_point(center);
        let dx = center.x - closest.x;
        let dy = center.y - closest.y;
        let circle = BoundingCircle::new(center, radius);
        assert_eq!(circle.intersects(&b), dx * dx + dy * dy <= radius * radius);
    }
}
