//! Exact integer polygon clipping and areas in the ground plane.
//!
//! Footprint polygons are clipped against each other with the classic
//! convex-clipping sweep: the subject polygon is cut successively by the
//! four half-planes of the clip quadrilateral (taken counter-clockwise).
//! Edge crossings are snapped down to the integer length grid, so every
//! intermediate value stays an exact integer.

use vstd::prelude::*;

verus! {

use crate::math::{CORNER_LIMIT, div_floor_i128};

/// Largest magnitude of a side value of bounded points:
/// `8 * CORNER_LIMIT * CORNER_LIMIT`.
pub const SIDE_LIMIT: i128 = 72_000_000_000_000_000_000;

/// Largest magnitude of a single coordinate product of bounded points:
/// `4 * CORNER_LIMIT * CORNER_LIMIT`.
pub const PROD_LIMIT: i128 = 36_000_000_000_000_000_000;

/// Largest twice-area of a clipped polygon of at most 64 bounded
/// vertices: `128 * CORNER_LIMIT * CORNER_LIMIT`.
pub const AREA2_LIMIT: i128 = 1_152_000_000_000_000_000_000;

/// A point of the ground plane, in length units.
#[derive(Debug, Clone, Copy, PartialEq, Eq, Structural)]
pub struct PlanePoint {
    pub x: i64,
    pub y: i64,
}

/// Both coordinates stay within the corner limit.
pub open spec fn bounded_pp(p: PlanePoint) -> bool {
    &&& -CORNER_LIMIT <= p.x <= CORNER_LIMIT
    &&& -CORNER_LIMIT <= p.y <= CORNER_LIMIT
}

/// Every vertex of `poly` stays within the corner limit.
pub open spec fn bounded_poly(poly: Seq<PlanePoint>) -> bool {
    forall|i: int| 0 <= i < poly.len() ==> bounded_pp(#[trigger] poly[i])
}

/// Twice the signed area of the triangle `a`, `b`, `p`: positive when `p`
/// lies to the left of the directed edge `a -> b`.
pub open spec fn spec_side(a: PlanePoint, b: PlanePoint, p: PlanePoint) -> int {
    (b.x - a.x) * (p.y - a.y) - (b.y - a.y) * (p.x - a.x)
}

/// A point is kept by the half-plane of edge `a -> b` when it lies on the
/// edge or to its left.
pub open spec fn spec_inside(a: PlanePoint, b: PlanePoint, p: PlanePoint) -> bool {
    spec_side(a, b, p) >= 0
}

/// One coordinate of the crossing point of segment `p -> q` with the edge
/// line, snapped down to the length grid.  `sp` and `sq` are the side
/// values of `p` and `q`.
pub open spec fn spec_cross_coord(pc: int, qc: int, sp: int, sq: int) -> int {
    let num = sp * (qc - pc);
    let den = sp - sq;
    if den < 0 {
        pc + (-num) / (-den)
    } else {
        pc + num / den
    }
}

/// The crossing point of segment `p -> q` with the line of edge `a -> b`,
/// snapped down to the length grid.
pub open spec fn spec_intersect(a: PlanePoint, b: PlanePoint, p: PlanePoint, q: PlanePoint)
    -> PlanePoint {
    let sp = spec_side(a, b, p);
    let sq = spec_side(a, b, q);
    PlanePoint {
        x: spec_cross_coord(p.x as int, q.x as int, sp, sq) as i64,
        y: spec_cross_coord(p.y as int, q.y as int, sp, sq) as i64,
    }
}

/// What vertex `k` of `poly` contributes to the clip of `poly` by the
/// half-plane of `a -> b`: the vertex itself when kept, preceded by the
/// edge crossing whenever the edge from its predecessor changes sides.
pub open spec fn spec_contrib(a: PlanePoint, b: PlanePoint, poly: Seq<PlanePoint>, k: int)
    -> Seq<PlanePoint> {
    let prev = if k == 0 {
        poly[poly.len() - 1]
    } else {
        poly[k - 1]
    };
    let cur = poly[k];
    if spec_inside(a, b, cur) {
        if !spec_inside(a, b, prev) {
            seq![spec_intersect(a, b, prev, cur), cur]
        } else {
            seq![cur]
        }
    } else {
        if spec_inside(a, b, prev) {
            seq![spec_intersect(a, b, prev, cur)]
        } else {
            Seq::empty()
        }
    }
}

/// The contributions of the first `k` vertices, in order.
pub open spec fn spec_clip_half_to(a: PlanePoint, b: PlanePoint, poly: Seq<PlanePoint>, k: int)
    -> Seq<PlanePoint>
    decreases k,
{
    if k <= 0 {
        Seq::empty()
    } else {
        spec_clip_half_to(a, b, poly, k - 1) + spec_contrib(a, b, poly, k - 1)
    }
}

/// `poly` clipped by the half-plane to the left of edge `a -> b`.
pub open spec fn spec_clip_halfplane(a: PlanePoint, b: PlanePoint, poly: Seq<PlanePoint>)
    -> Seq<PlanePoint> {
    spec_clip_half_to(a, b, poly, poly.len() as int)
}

/// `subject` clipped by all four half-planes of the quadrilateral `q`.
pub open spec fn spec_clip_quad(subject: Seq<PlanePoint>, q: Seq<PlanePoint>) -> Seq<PlanePoint>
    recommends
        q.len() == 4,
{
    let c1 = spec_clip_halfplane(q[0], q[1], subject);
    let c2 = spec_clip_halfplane(q[1], q[2], c1);
    let c3 = spec_clip_halfplane(q[2], q[3], c2);
    spec_clip_halfplane(q[3], q[0], c3)
}

/// The shoelace sum of the first `k` edges of `poly` (edge `i` runs from
/// vertex `i` to its cyclic successor).
pub open spec fn spec_shoelace2_to(poly: Seq<PlanePoint>, k: int) -> int
    decreases k,
{
    if k <= 0 {
        0
    } else {
        let i = k - 1;
        let j = if i + 1 == poly.len() {
            0
        } else {
            i + 1
        };
        spec_shoelace2_to(poly, i) + (poly[i].x * poly[j].y - poly[j].x * poly[i].y)
    }
}

/// Twice the signed area of `poly`.
pub open spec fn spec_shoelace2(poly: Seq<PlanePoint>) -> int {
    spec_shoelace2_to(poly, poly.len() as int)
}

/// Twice the unsigned area of `poly`.
pub open spec fn spec_area2(poly: Seq<PlanePoint>) -> int {
    if spec_shoelace2(poly) < 0 {
        -spec_shoelace2(poly)
    } else {
        spec_shoelace2(poly)
    }
}

/// Twice the unsigned area of the intersection of a subject polygon with a
/// convex counter-clockwise quadrilateral.
pub open spec fn spec_intersection_area2(subject: Seq<PlanePoint>, q: Seq<PlanePoint>) -> int {
    spec_area2(spec_clip_quad(subject, q))
}

/// The side value of `p` with respect to edge `a -> b`.
fn side_of(a: PlanePoint, b: PlanePoint, p: PlanePoint) -> (s: i128)
    requires
        bounded_pp(a),
        bounded_pp(b),
        bounded_pp(p),
    ensures
        s == spec_side(a, b, p),
        -SIDE_LIMIT <= s <= SIDE_LIMIT,
{
    proof {
        assert(-PROD_LIMIT <= (b.x - a.x) * (p.y - a.y) <= PROD_LIMIT) by (nonlinear_arith)
            requires
                -CORNER_LIMIT <= a.x <= CORNER_LIMIT,
                -CORNER_LIMIT <= a.y <= CORNER_LIMIT,
                -CORNER_LIMIT <= b.x <= CORNER_LIMIT,
                -CORNER_LIMIT <= p.y <= CORNER_LIMIT,
                CORNER_LIMIT == 3_000_000_000,
                PROD_LIMIT == 36_000_000_000_000_000_000,
        ;
        assert(-PROD_LIMIT <= (b.y - a.y) * (p.x - a.x) <= PROD_LIMIT) by (nonlinear_arith)
            requires
                -CORNER_LIMIT <= a.x <= CORNER_LIMIT,
                -CORNER_LIMIT <= a.y <= CORNER_LIMIT,
                -CORNER_LIMIT <= b.y <= CORNER_LIMIT,
                -CORNER_LIMIT <= p.x <= CORNER_LIMIT,
                CORNER_LIMIT == 3_000_000_000,
                PROD_LIMIT == 36_000_000_000_000_000_000,
        ;
    }
    let t1: i128 = (b.x as i128 - a.x as i128) * (p.y as i128 - a.y as i128);
    let t2: i128 = (b.y as i128 - a.y as i128) * (p.x as i128 - a.x as i128);
    t1 - t2
}

/// A snapped crossing coordinate lies between the endpoint coordinates.
proof fn lemma_cross_coord_between(pc: int, qc: int, sp: int, sq: int)
    requires
        (sp >= 0 && sq < 0) || (sp < 0 && sq >= 0),
    ensures
        pc <= qc ==> pc <= spec_cross_coord(pc, qc, sp, sq) <= qc,
        qc <= pc ==> qc <= spec_cross_coord(pc, qc, sp, sq) <= pc,
{
    if sp >= 0 && sq < 0 {
        lemma_ratio_between(pc, qc, sp, sp - sq);
    } else {
        assert(-(sp * (qc - pc)) == (-sp) * (qc - pc)) by (nonlinear_arith);
        lemma_ratio_between(pc, qc, -sp, -(sp - sq));
    }
}

/// For `0 <= t <= den`, the value `pc + t * (qc - pc) / den` lies between
/// `pc` and `qc`.
proof fn lemma_ratio_between(pc: int, qc: int, t: int, den: int)
    requires
        0 < den,
        0 <= t <= den,
    ensures
        pc <= qc ==> pc <= pc + t * (qc - pc) / den <= qc,
        qc <= pc ==> qc <= pc + t * (qc - pc) / den <= pc,
{
    let d = qc - pc;
    vstd::arithmetic::div_mod::lemma_div_multiples_vanish(d, den);
    if d >= 0 {
        assert(0 <= t * d <= den * d) by (nonlinear_arith)
            requires
                0 <= t <= den,
                0 <= d,
        ;
        vstd::arithmetic::div_mod::lemma_div_is_ordered(0, t * d, den);
        vstd::arithmetic::div_mod::lemma_div_is_ordered(t * d, den * d, den);
        assert(0int / den == 0) by {
            vstd::arithmetic::div_mod::lemma_div_multiples_vanish(0, den);
        }
    } else {
        assert(den * d <= t * d <= 0) by (nonlinear_arith)
            requires
                0 <= t <= den,
                d < 0,
        ;
        vstd::arithmetic::div_mod::lemma_div_is_ordered(den * d, t * d, den);
        vstd::arithmetic::div_mod::lemma_div_is_ordered(t * d, 0, den);
        assert(0int / den == 0) by {
            vstd::arithmetic::div_mod::lemma_div_multiples_vanish(0, den);
        }
    }
}

/// One snapped crossing coordinate, from the endpoint coordinates and the
/// two side values.
fn cross_coord(pc: i64, qc: i64, sp: i128, sq: i128) -> (r: i64)
    requires
        -CORNER_LIMIT <= pc <= CORNER_LIMIT,
        -CORNER_LIMIT <= qc <= CORNER_LIMIT,
        -SIDE_LIMIT <= sp <= SIDE_LIMIT,
        -SIDE_LIMIT <= sq <= SIDE_LIMIT,
        (sp >= 0 && sq < 0) || (sp < 0 && sq >= 0),
    ensures
        r == spec_cross_coord(pc as int, qc as int, sp as int, sq as int),
        -CORNER_LIMIT <= r <= CORNER_LIMIT,
{
    proof {
        assert(-450_000_000_000_000_000_000_000_000_000 <= sp as int * (qc - pc)
            <= 450_000_000_000_000_000_000_000_000_000) by (nonlinear_arith)
            requires
                -SIDE_LIMIT <= sp <= SIDE_LIMIT,
                -CORNER_LIMIT <= pc <= CORNER_LIMIT,
                -CORNER_LIMIT <= qc <= CORNER_LIMIT,
                SIDE_LIMIT == 72_000_000_000_000_000_000,
                CORNER_LIMIT == 3_000_000_000,
        ;
        lemma_cross_coord_between(pc as int, qc as int, sp as int, sq as int);
    }
    let num: i128 = sp * (qc as i128 - pc as i128);
    let den: i128 = sp - sq;
    let f: i128 = if den < 0 {
        div_floor_i128(-num, -den)
    } else {
        div_floor_i128(num, den)
    };
    (pc as i128 + f) as i64
}

/// The crossing point of segment `p -> q` with the line of edge `a -> b`.
fn intersect(a: PlanePoint, b: PlanePoint, p: PlanePoint, q: PlanePoint) -> (r: PlanePoint)
    requires
        bounded_pp(a),
        bounded_pp(b),
        bounded_pp(p),
        bounded_pp(q),
        spec_inside(a, b, p) != spec_inside(a, b, q),
    ensures
        r == spec_intersect(a, b, p, q),
        bounded_pp(r),
{
    let sp: i128 = side_of(a, b, p);
    let sq: i128 = side_of(a, b, q);
    let x = cross_coord(p.x, q.x, sp, sq);
    let y = cross_coord(p.y, q.y, sp, sq);
    PlanePoint { x, y }
}

/// Clip `poly` by the half-plane to the left of edge `a -> b`.
fn clip_halfplane(a: PlanePoint, b: PlanePoint, poly: &Vec<PlanePoint>) -> (out: Vec<PlanePoint>)
    requires
        bounded_pp(a),
        bounded_pp(b),
        bounded_poly(poly@),
    ensures
        out@ == spec_clip_halfplane(a, b, poly@),
        bounded_poly(out@),
        out@.len() <= 2 * poly@.len(),
{
    let n = poly.len();
    let mut out: Vec<PlanePoint> = Vec::new();
    let mut k: usize = 0;
    while k < n
        invariant
            n == poly@.len(),
            0 <= k <= n,
            bounded_pp(a),
            bounded_pp(b),
            bounded_poly(poly@),
            out@ == spec_clip_half_to(a, b, poly@, k as int),
            bounded_poly(out@),
            out@.len() <= 2 * k,
        decreases n - k,
    {
        let prev: PlanePoint = if k == 0 {
            poly[n - 1]
        } else {
            poly[k - 1]
        };
        let cur: PlanePoint = poly[k];
        let ghost out_before = out@;
        let prev_in = side_of(a, b, prev) >= 0;
        let cur_in = side_of(a, b, cur) >= 0;
        if cur_in {
            if !prev_in {
                out.push(intersect(a, b, prev, cur));
            }
            out.push(cur);
        } else {
            if prev_in {
                out.push(intersect(a, b, prev, cur));
            }
        }
        proof {
            assert(out@ =~= out_before + spec_contrib(a, b, poly@, k as int));
            assert(out@ =~= spec_clip_half_to(a, b, poly@, k as int + 1));
        }
        k = k + 1;
    }
    out
}

/// Clip `subject` by the four half-planes of the counter-clockwise
/// quadrilateral `quad`.
pub fn clip_polygon_quad(subject: &Vec<PlanePoint>, quad: &Vec<PlanePoint>) -> (out: Vec<
    PlanePoint,
>)
    requires
        quad@.len() == 4,
        bounded_poly(subject@),
        bounded_poly(quad@),
    ensures
        out@ == spec_clip_quad(subject@, quad@),
        bounded_poly(out@),
        out@.len() <= 16 * subject@.len(),
{
    let c1 = clip_halfplane(quad[0], quad[1], subject);
    let c2 = clip_halfplane(quad[1], quad[2], &c1);
    let c3 = clip_halfplane(quad[2], quad[3], &c2);
    clip_halfplane(quad[3], quad[0], &c3)
}

/// Twice the unsigned area of `poly` by the shoelace formula.
pub fn polygon_area2(poly: &Vec<PlanePoint>) -> (r: i128)
    requires
        bounded_poly(poly@),
        poly@.len() <= 64,
    ensures
        r == spec_area2(poly@),
        0 <= r <= AREA2_LIMIT,
{
    let n = poly.len();
    let mut sum: i128 = 0;
    let mut k: usize = 0;
    while k < n
        invariant
            n == poly@.len() <= 64,
            0 <= k <= n,
            bounded_poly(poly@),
            sum == spec_shoelace2_to(poly@, k as int),
            -18_000_000_000_000_000_000 * (k as i128) <= sum <= 18_000_000_000_000_000_000 * (
            k as i128),
        decreases n - k,
    {
        let i = k;
        let j = if i + 1 == n {
            0
        } else {
            i + 1
        };
        proof {
            assert(-9_000_000_000_000_000_000 <= poly@[i as int].x * poly@[j as int].y
                <= 9_000_000_000_000_000_000 && -9_000_000_000_000_000_000 <= poly@[j as int].x
                * poly@[i as int].y <= 9_000_000_000_000_000_000) by (nonlinear_arith)
                requires
                    bounded_pp(poly@[i as int]),
                    bounded_pp(poly@[j as int]),
                    CORNER_LIMIT == 3_000_000_000,
            ;
        }
        let term: i128 = poly[i].x as i128 * poly[j].y as i128 - poly[j].x as i128 * poly[i].y
            as i128;
        sum = sum + term;
        k = k + 1;
    }
    if sum < 0 {
        -sum
    } else {
        sum
    }
}

/// Twice the unsigned area of the intersection of `subject` with the
/// counter-clockwise quadrilateral `quad`.
pub fn intersection_area2(subject: &Vec<PlanePoint>, quad: &Vec<PlanePoint>) -> (r: i128)
    requires
        subject@.len() == 4,
        quad@.len() == 4,
        bounded_poly(subject@),
        bounded_poly(quad@),
    ensures
        r == spec_intersection_area2(subject@, quad@),
        0 <= r <= AREA2_LIMIT,
{
    let clipped = clip_polygon_quad(subject, quad);
    polygon_area2(&clipped)
}

} // verus!
