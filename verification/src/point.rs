//! Points and exact point-to-point distances.

use vstd::prelude::*;

verus! {

use crate::math::{sqrt_floor, isqrt_u128, lemma_sqrt_floor, COORD_LIMIT, CORNER_LIMIT};

/// A 3D point, in length units.
#[derive(Debug, Clone, Copy, PartialEq, Eq, Structural)]
pub struct Point3 {
    pub x: i64,
    pub y: i64,
    pub z: i64,
}

/// The origin.
pub open spec fn spec_origin() -> Point3 {
    Point3 { x: 0, y: 0, z: 0 }
}

/// Whether every coordinate of `p` is within the coordinate limit.
pub open spec fn bounded_point(p: Point3) -> bool {
    &&& -COORD_LIMIT <= p.x <= COORD_LIMIT
    &&& -COORD_LIMIT <= p.y <= COORD_LIMIT
    &&& -COORD_LIMIT <= p.z <= COORD_LIMIT
}

/// A corner coordinate stays within `CORNER_LIMIT` in the ground plane and
/// within `COORD_LIMIT` vertically.
pub open spec fn bounded_corner(p: Point3) -> bool {
    &&& -CORNER_LIMIT <= p.x <= CORNER_LIMIT
    &&& -CORNER_LIMIT <= p.y <= CORNER_LIMIT
    &&& -COORD_LIMIT <= p.z <= COORD_LIMIT
}

/// Squared Euclidean distance between two points.
pub open spec fn spec_dist2(p: Point3, q: Point3) -> int {
    (p.x - q.x) * (p.x - q.x) + (p.y - q.y) * (p.y - q.y) + (p.z - q.z) * (p.z - q.z)
}

/// Squared Euclidean distance between two points in bird's-eye view
/// (the z coordinates are ignored).
pub open spec fn spec_dist2_bev(p: Point3, q: Point3) -> int {
    (p.x - q.x) * (p.x - q.x) + (p.y - q.y) * (p.y - q.y)
}

/// A square is never negative.
pub proof fn lemma_square_nonneg(a: int)
    ensures
        a * a >= 0,
{
    assert(a * a >= 0) by (nonlinear_arith);
}

/// A square of a bounded value is bounded by the square of the bound.
pub proof fn lemma_square_bound(a: int, b: int)
    requires
        -b <= a <= b,
        0 <= b,
    ensures
        a * a <= b * b,
{
    assert(a * a <= b * b) by (nonlinear_arith)
        requires
            -b <= a <= b,
            0 <= b,
    ;
}

/// The floor of the square root of a bounded value is bounded.
pub proof fn lemma_sqrt_floor_le(n: int, b: int)
    requires
        0 <= n,
        0 <= b,
        n <= b * b,
    ensures
        sqrt_floor(n) <= b,
{
    lemma_sqrt_floor(n);
    let r = sqrt_floor(n);
    if r > b {
        assert((b + 1) * (b + 1) <= r * r) by (nonlinear_arith)
            requires
                0 <= b,
                b + 1 <= r,
        ;
        assert(b * b < (b + 1) * (b + 1)) by (nonlinear_arith)
            requires
                0 <= b,
        ;
    }
}

/// Euclidean distance between two points, rounded down to a whole length
/// unit.
pub fn distance_points(point1: &Point3, point2: &Point3) -> (r: i64)
    requires
        bounded_corner(*point1),
        bounded_corner(*point2),
    ensures
        r == sqrt_floor(spec_dist2(*point1, *point2)),
        0 <= r <= 4 * CORNER_LIMIT,
{
    let dx: i128 = point1.x as i128 - point2.x as i128;
    let dy: i128 = point1.y as i128 - point2.y as i128;
    let dz: i128 = point1.z as i128 - point2.z as i128;
    proof {
        lemma_square_nonneg(dx as int);
        lemma_square_nonneg(dy as int);
        lemma_square_nonneg(dz as int);
        lemma_square_bound(dx as int, 2 * CORNER_LIMIT as int);
        lemma_square_bound(dy as int, 2 * CORNER_LIMIT as int);
        lemma_square_bound(dz as int, 2 * CORNER_LIMIT as int);
    }
    let d2: i128 = dx * dx + dy * dy + dz * dz;
    let r = isqrt_u128(d2 as u128);
    proof {
        lemma_sqrt_floor_le(d2 as int, 4 * CORNER_LIMIT as int);
    }
    r as i64
}

/// Euclidean distance in bird's-eye view, rounded down to a whole length
/// unit.
pub fn distance_points_bev(point1: &Point3, point2: &Point3) -> (r: i64)
    requires
        bounded_corner(*point1),
        bounded_corner(*point2),
    ensures
        r == sqrt_floor(spec_dist2_bev(*point1, *point2)),
        0 <= r <= 4 * CORNER_LIMIT,
{
    let dx: i128 = point1.x as i128 - point2.x as i128;
    let dy: i128 = point1.y as i128 - point2.y as i128;
    proof {
        lemma_square_nonneg(dx as int);
        lemma_square_nonneg(dy as int);
        lemma_square_bound(dx as int, 2 * CORNER_LIMIT as int);
        lemma_square_bound(dy as int, 2 * CORNER_LIMIT as int);
    }
    let d2: i128 = dx * dx + dy * dy;
    let r = isqrt_u128(d2 as u128);
    proof {
        lemma_sqrt_floor_le(d2 as int, 4 * CORNER_LIMIT as int);
    }
    r as i64
}

/// Which of two points is the left one and which the right one, by the sign
/// of their 2D cross product: a negative cross product keeps the order,
/// anything else swaps it.
pub open spec fn spec_left_right(p1: Point3, p2: Point3) -> (Point3, Point3) {
    if p1.x * p2.y - p1.y * p2.x < 0 {
        (p1, p2)
    } else {
        (p2, p1)
    }
}

/// Splits two points into a (left, right) pair using their cross product.
pub fn get_point_left_right(point1: &Point3, point2: &Point3) -> (r: (Point3, Point3))
    requires
        bounded_corner(*point1),
        bounded_corner(*point2),
    ensures
        r == spec_left_right(*point1, *point2),
{
    proof {
        assert(-(CORNER_LIMIT as int * CORNER_LIMIT as int) <= point1.x as int * point2.y as int
            <= CORNER_LIMIT as int * CORNER_LIMIT as int) by (nonlinear_arith)
            requires
                -CORNER_LIMIT <= point1.x <= CORNER_LIMIT,
                -CORNER_LIMIT <= point2.y <= CORNER_LIMIT,
        ;
        assert(-(CORNER_LIMIT as int * CORNER_LIMIT as int) <= point1.y as int * point2.x as int
            <= CORNER_LIMIT as int * CORNER_LIMIT as int) by (nonlinear_arith)
            requires
                -CORNER_LIMIT <= point1.y <= CORNER_LIMIT,
                -CORNER_LIMIT <= point2.x <= CORNER_LIMIT,
        ;
    }
    let cross: i128 = point1.x as i128 * point2.y as i128 - point1.y as i128 * point2.x as i128;
    if cross < 0 {
        (*point1, *point2)
    } else {
        (*point2, *point1)
    }
}

} // verus!
