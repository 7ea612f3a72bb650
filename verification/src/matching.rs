//! The four geometric matching strategies.
//!
//! Each strategy scores a candidate (estimation, ground-truth) pair and
//! decides match or no-match against a threshold.  Distances are
//! lower-is-better and match strictly below the threshold; IoU ratios are
//! higher-is-better and match strictly above it.

use vstd::prelude::*;

verus! {

use crate::math::{FIX_ONE, CORNER_LIMIT, sqrt_floor, isqrt_u128, div_floor_i128};
use crate::object::{DynamicObject, spec_footprint};
use crate::point::{
    Point3, bounded_corner, spec_dist2, spec_dist2_bev, spec_left_right, lemma_sqrt_floor_le,
    distance_points, distance_points_bev, get_point_left_right,
};
use crate::polygon::{
    PlanePoint, bounded_poly, spec_intersection_area2, intersection_area2, AREA2_LIMIT,
};

pub type MatchingResult<T> = Result<T, MatchingError>;

/// Why a matching computation failed.
#[derive(Debug)]
pub enum MatchingError {
    InternalError,
    ValueError,
}

/// The four ways to score a candidate pair.  `CenterDistance` and
/// `PlaneDistance` are lower-is-better; `Iou2d` and `Iou3d` are
/// higher-is-better.
#[derive(Debug, Clone, Copy, PartialEq, Eq, Structural)]
pub enum MatchingMode {
    CenterDistance,
    PlaneDistance,
    Iou2d,
    Iou3d,
}

/// The center-distance score: the Euclidean distance of the two centers,
/// rounded down to a length unit.
pub open spec fn spec_center_distance_score(e: DynamicObject, g: DynamicObject) -> int {
    sqrt_floor(spec_dist2(e.position, g.position))
}

/// Squared bird's-eye-view distance of a point from the origin.
pub open spec fn spec_norm2_bev(p: Point3) -> int {
    p.x * p.x + p.y * p.y
}

/// The first index among `[0, k)` whose corner is nearest to the origin
/// (earlier index wins ties).
pub open spec fn spec_min_idx_to(fp: Seq<Point3>, k: int) -> int
    decreases k,
{
    if k <= 1 {
        0
    } else {
        let m = spec_min_idx_to(fp, k - 1);
        if spec_norm2_bev(fp[k - 1]) < spec_norm2_bev(fp[m]) {
            k - 1
        } else {
            m
        }
    }
}

/// The first index among `[0, k)` other than `skip` whose corner is
/// nearest to the origin, or `-1` when there is none.
pub open spec fn spec_min_idx_except_to(fp: Seq<Point3>, k: int, skip: int) -> int
    decreases k,
{
    if k <= 0 {
        -1
    } else {
        let m = spec_min_idx_except_to(fp, k - 1, skip);
        let i = k - 1;
        if i == skip {
            m
        } else if m < 0 {
            i
        } else if spec_norm2_bev(fp[i]) < spec_norm2_bev(fp[m]) {
            i
        } else {
            m
        }
    }
}

/// The two footprint corners nearest to the origin, in stable order: the
/// first minimum, then the first minimum among the remaining corners.
pub open spec fn spec_two_nearest(fp: Seq<Point3>) -> (Point3, Point3) {
    let m1 = spec_min_idx_to(fp, fp.len() as int);
    let m2 = spec_min_idx_except_to(fp, fp.len() as int, m1);
    (fp[m1], fp[m2])
}

/// The plane-distance score: the two nearest footprint corners of each
/// object are split into a left and a right one by their cross product,
/// and the score is the root mean square of the left-left and right-right
/// bird's-eye-view distances, all rounded down to the length grid.
pub open spec fn spec_plane_distance_score(e: DynamicObject, g: DynamicObject) -> int {
    let ne = spec_two_nearest(spec_footprint(e));
    let ng = spec_two_nearest(spec_footprint(g));
    let epair = spec_left_right(ne.0, ne.1);
    let gpair = spec_left_right(ng.0, ng.1);
    let dl = sqrt_floor(spec_dist2_bev(epair.0, gpair.0));
    let dr = sqrt_floor(spec_dist2_bev(epair.1, gpair.1));
    sqrt_floor((dl * dl + dr * dr) / 2)
}

/// A footprint corner projected to the ground plane.
pub open spec fn spec_bev(p: Point3) -> PlanePoint {
    PlanePoint { x: p.x, y: p.y }
}

/// The footprint of an object as a ground-plane quadrilateral.
pub open spec fn spec_bev_quad(o: DynamicObject) -> Seq<PlanePoint> {
    spec_footprint(o).map_values(|p: Point3| spec_bev(p))
}

/// The exact area of an object's box footprint, in squared length units.
pub open spec fn spec_area_box(o: DynamicObject) -> int {
    o.size.length * o.size.width
}

/// The exact volume of an object's box, in cubed length units.
pub open spec fn spec_volume_box(o: DynamicObject) -> int {
    o.size.length * o.size.width * o.size.height
}

/// Twice the area of the intersection of the two footprints.
pub open spec fn spec_intersection2(e: DynamicObject, g: DynamicObject) -> int {
    spec_intersection_area2(spec_bev_quad(e), spec_bev_quad(g))
}

/// Twice the length of the overlap of the two vertical extents
/// `[z - h/2, z + h/2]` (the true interval intersection).
pub open spec fn spec_height_overlap2(e: DynamicObject, g: DynamicObject) -> int {
    let hi = if 2 * e.position.z + e.size.height <= 2 * g.position.z + g.size.height {
        2 * e.position.z + e.size.height
    } else {
        2 * g.position.z + g.size.height
    };
    let lo = if 2 * e.position.z - e.size.height >= 2 * g.position.z - g.size.height {
        2 * e.position.z - e.size.height
    } else {
        2 * g.position.z - g.size.height
    };
    if hi - lo > 0 {
        hi - lo
    } else {
        0
    }
}

/// The 2D IoU score as a fraction of `FIX_ONE`: intersection area over
/// union area, zero when the union is empty, clamped to one.
pub open spec fn spec_iou2d_score(e: DynamicObject, g: DynamicObject) -> int {
    let i2 = spec_intersection2(e, g);
    let u2 = 2 * spec_area_box(e) + 2 * spec_area_box(g) - i2;
    if u2 <= 0 {
        0
    } else if i2 * FIX_ONE / u2 > FIX_ONE {
        FIX_ONE as int
    } else {
        i2 * FIX_ONE / u2
    }
}

/// The 3D IoU score as a fraction of `FIX_ONE`: intersection volume over
/// union volume, zero when the union is empty, clamped to one.
pub open spec fn spec_iou3d_score(e: DynamicObject, g: DynamicObject) -> int {
    let vi4 = spec_intersection2(e, g) * spec_height_overlap2(e, g);
    let u4 = 4 * spec_volume_box(e) + 4 * spec_volume_box(g) - vi4;
    if u4 <= 0 {
        0
    } else if vi4 * FIX_ONE / u4 > FIX_ONE {
        FIX_ONE as int
    } else {
        vi4 * FIX_ONE / u4
    }
}

/// The score of a candidate pair under the given matching mode.
pub open spec fn spec_matching_score(mode: MatchingMode, e: DynamicObject, g: DynamicObject)
    -> int {
    match mode {
        MatchingMode::CenterDistance => spec_center_distance_score(e, g),
        MatchingMode::PlaneDistance => spec_plane_distance_score(e, g),
        MatchingMode::Iou2d => spec_iou2d_score(e, g),
        MatchingMode::Iou3d => spec_iou3d_score(e, g),
    }
}

/// Whether the pair matches under the given mode and threshold: strictly
/// below the threshold for distances, strictly above it for IoU ratios.
pub open spec fn spec_is_better(
    mode: MatchingMode,
    e: DynamicObject,
    g: DynamicObject,
    threshold: int,
) -> bool {
    match mode {
        MatchingMode::CenterDistance => spec_matching_score(mode, e, g) < threshold,
        MatchingMode::PlaneDistance => spec_matching_score(mode, e, g) < threshold,
        MatchingMode::Iou2d => threshold < spec_matching_score(mode, e, g),
        MatchingMode::Iou3d => threshold < spec_matching_score(mode, e, g),
    }
}

/// Squared bird's-eye-view distance of a corner from the origin.
fn norm2_bev(p: &Point3) -> (r: i128)
    requires
        bounded_corner(*p),
    ensures
        r == spec_norm2_bev(*p),
        0 <= r,
{
    proof {
        assert(0 <= p.x * p.x <= 9_000_000_000_000_000_000 && 0 <= p.y * p.y
            <= 9_000_000_000_000_000_000) by (nonlinear_arith)
            requires
                -CORNER_LIMIT <= p.x <= CORNER_LIMIT,
                -CORNER_LIMIT <= p.y <= CORNER_LIMIT,
                CORNER_LIMIT == 3_000_000_000,
        ;
    }
    p.x as i128 * p.x as i128 + p.y as i128 * p.y as i128
}

/// The two corners of a four-corner footprint nearest to the origin, in
/// stable order.
fn two_nearest(fp: &Vec<Point3>) -> (r: (Point3, Point3))
    requires
        fp@.len() == 4,
        forall|k: int| 0 <= k < 4 ==> bounded_corner(#[trigger] fp@[k]),
    ensures
        r == spec_two_nearest(fp@),
        bounded_corner(r.0),
        bounded_corner(r.1),
{
    let mut m1: usize = 0;
    let mut k: usize = 1;
    while k < 4
        invariant
            fp@.len() == 4,
            forall|i: int| 0 <= i < 4 ==> bounded_corner(#[trigger] fp@[i]),
            1 <= k <= 4,
            0 <= m1 < k,
            m1 as int == spec_min_idx_to(fp@, k as int),
        decreases 4 - k,
    {
        if norm2_bev(&fp[k]) < norm2_bev(&fp[m1]) {
            m1 = k;
        }
        k = k + 1;
    }
    let mut m2: usize = if m1 == 0 {
        1
    } else {
        0
    };
    proof {
        reveal_with_fuel(spec_min_idx_except_to, 4);
        assert(spec_min_idx_except_to(fp@, 1, m1 as int) == if m1 == 0 {
            -1
        } else {
            0int
        });
        if m1 == 0 {
            assert(spec_min_idx_except_to(fp@, 2, 0) == 1);
        }
    }
    let start: usize = if m1 == 0 {
        2
    } else {
        1
    };
    let mut j: usize = start;
    while j < 4
        invariant
            fp@.len() == 4,
            forall|i: int| 0 <= i < 4 ==> bounded_corner(#[trigger] fp@[i]),
            0 <= m1 < 4,
            m1 as int == spec_min_idx_to(fp@, 4),
            start == if m1 == 0 { 2int } else { 1int },
            start <= j <= 4,
            0 <= m2 < j,
            m2 != m1,
            m2 as int == spec_min_idx_except_to(fp@, j as int, m1 as int),
        decreases 4 - j,
    {
        if j != m1 {
            if norm2_bev(&fp[j]) < norm2_bev(&fp[m2]) {
                m2 = j;
            }
        }
        j = j + 1;
    }
    (fp[m1], fp[m2])
}

/// Matching by the Euclidean distance of the box centers.
#[derive(Debug, Clone)]
pub struct CenterDistanceMatching;

impl CenterDistanceMatching {
    /// The center distance of the pair, in length units.
    pub fn calculate_matching_score(
        &self,
        estimated_object: &DynamicObject,
        ground_truth_object: &DynamicObject,
    ) -> (r: i64)
        requires
            estimated_object.wf(),
            ground_truth_object.wf(),
        ensures
            r == spec_center_distance_score(*estimated_object, *ground_truth_object),
    {
        distance_points(&estimated_object.position, &ground_truth_object.position)
    }

    /// Whether the pair matches: center distance strictly below the
    /// threshold.
    pub fn is_better_than(
        &self,
        estimated_object: &DynamicObject,
        ground_truth_object: &DynamicObject,
        threshold: &i64,
    ) -> (r: bool)
        requires
            estimated_object.wf(),
            ground_truth_object.wf(),
        ensures
            r == spec_is_better(
                MatchingMode::CenterDistance,
                *estimated_object,
                *ground_truth_object,
                *threshold as int,
            ),
    {
        let distance = self.calculate_matching_score(estimated_object, ground_truth_object);
        distance < *threshold
    }
}

/// Matching by the root-mean-square distance of the two footprint corners
/// nearest to the sensor.
#[derive(Debug, Clone)]
pub struct PlaneDistanceMatching;

impl PlaneDistanceMatching {
    /// The plane distance of the pair, in length units.
    pub fn calculate_matching_score(
        &self,
        estimated_object: &DynamicObject,
        ground_truth_object: &DynamicObject,
    ) -> (r: i64)
        requires
            estimated_object.wf(),
            ground_truth_object.wf(),
        ensures
            r == spec_plane_distance_score(*estimated_object, *ground_truth_object),
    {
        let est_footprint = estimated_object.footprint();
        let gt_footprint = ground_truth_object.footprint();
        let (e1, e2) = two_nearest(&est_footprint);
        let (g1, g2) = two_nearest(&gt_footprint);
        let (est_left_point, est_right_point) = get_point_left_right(&e1, &e2);
        let (gt_left_point, gt_right_point) = get_point_left_right(&g1, &g2);
        let distance_left = distance_points_bev(&est_left_point, &gt_left_point);
        let distance_right = distance_points_bev(&est_right_point, &gt_right_point);
        proof {
            assert(0 <= distance_left * distance_left <= 144_000_000_000_000_000_000
                && 0 <= distance_right * distance_right <= 144_000_000_000_000_000_000)
                by (nonlinear_arith)
                requires
                    0 <= distance_left <= 12_000_000_000,
                    0 <= distance_right <= 12_000_000_000,
            ;
        }
        let ms: i128 = (distance_left as i128 * distance_left as i128 + distance_right as i128
            * distance_right as i128) / 2;
        proof {
            assert(ms == (distance_left * distance_left + distance_right * distance_right) as int
                / 2);
            assert(ms <= 24_000_000_000i128 * 24_000_000_000i128) by (nonlinear_arith)
                requires
                    ms <= 144_000_000_000_000_000_000i128,
            ;
            lemma_sqrt_floor_le(ms as int, 24_000_000_000);
        }
        isqrt_u128(ms as u128) as i64
    }

    /// Whether the pair matches: plane distance strictly below the
    /// threshold.
    pub fn is_better_than(
        &self,
        estimated_object: &DynamicObject,
        ground_truth_object: &DynamicObject,
        threshold: &i64,
    ) -> (r: bool)
        requires
            estimated_object.wf(),
            ground_truth_object.wf(),
        ensures
            r == spec_is_better(
                MatchingMode::PlaneDistance,
                *estimated_object,
                *ground_truth_object,
                *threshold as int,
            ),
    {
        let distance = self.calculate_matching_score(estimated_object, ground_truth_object);
        distance < *threshold
    }
}

/// The footprint of an object as a ground-plane quadrilateral.
fn bev_quad(obj: &DynamicObject) -> (q: Vec<PlanePoint>)
    requires
        obj.wf(),
    ensures
        q@ == spec_bev_quad(*obj),
        q@.len() == 4,
        bounded_poly(q@),
{
    let fp = obj.footprint();
    let mut q: Vec<PlanePoint> = Vec::new();
    let mut k: usize = 0;
    while k < 4
        invariant
            fp@ == spec_footprint(*obj),
            fp@.len() == 4,
            forall|i: int| 0 <= i < 4 ==> crate::point::bounded_corner(#[trigger] fp@[i]),
            0 <= k <= 4,
            q@.len() == k,
            forall|i: int| 0 <= i < k ==> q@[i] == spec_bev(fp@[i]),
        decreases 4 - k,
    {
        let p = fp[k];
        q.push(PlanePoint { x: p.x, y: p.y });
        k = k + 1;
    }
    proof {
        assert(q@ =~= spec_bev_quad(*obj));
    }
    q
}

/// Twice the area of the intersection of the two footprints.
fn get_intersection_area2(
    estimated_object: &DynamicObject,
    ground_truth_object: &DynamicObject,
) -> (r: i128)
    requires
        estimated_object.wf(),
        ground_truth_object.wf(),
    ensures
        r == spec_intersection2(*estimated_object, *ground_truth_object),
        0 <= r <= AREA2_LIMIT,
{
    let est_polygon = bev_quad(estimated_object);
    let gt_polygon = bev_quad(ground_truth_object);
    intersection_area2(&est_polygon, &gt_polygon)
}

/// Twice the overlap of the two vertical extents.
fn get_intersection_height2(
    estimated_object: &DynamicObject,
    ground_truth_object: &DynamicObject,
) -> (r: i64)
    requires
        estimated_object.wf(),
        ground_truth_object.wf(),
    ensures
        r == spec_height_overlap2(*estimated_object, *ground_truth_object),
        0 <= r <= 6_000_000_000,
{
    let te: i64 = 2 * estimated_object.position.z + estimated_object.size.height;
    let be: i64 = 2 * estimated_object.position.z - estimated_object.size.height;
    let tg: i64 = 2 * ground_truth_object.position.z + ground_truth_object.size.height;
    let bg: i64 = 2 * ground_truth_object.position.z - ground_truth_object.size.height;
    let hi: i64 = if te <= tg {
        te
    } else {
        tg
    };
    let lo: i64 = if be >= bg {
        be
    } else {
        bg
    };
    if hi - lo > 0 {
        hi - lo
    } else {
        0
    }
}

/// Matching by the intersection-over-union of the footprints.
#[derive(Debug, Clone)]
pub struct Iou2dMatching;

impl Iou2dMatching {
    /// The 2D IoU of the pair, as a fraction of `FIX_ONE`.
    pub fn calculate_matching_score(
        &self,
        estimated_object: &DynamicObject,
        ground_truth_object: &DynamicObject,
    ) -> (r: i64)
        requires
            estimated_object.wf(),
            ground_truth_object.wf(),
        ensures
            r == spec_iou2d_score(*estimated_object, *ground_truth_object),
            0 <= r <= FIX_ONE,
    {
        let i2: i128 = get_intersection_area2(estimated_object, ground_truth_object);
        let est_area = estimated_object.area();
        let gt_area = ground_truth_object.area();
        let u2: i128 = 2 * est_area as i128 + 2 * gt_area as i128 - i2;
        if u2 <= 0 {
            0
        } else {
            proof {
                assert(0 <= i2 * FIX_ONE as int <= 2_000_000_000_000_000_000_000_000_000)
                    by (nonlinear_arith)
                    requires
                        0 <= i2 <= AREA2_LIMIT,
                        AREA2_LIMIT == 1_152_000_000_000_000_000_000,
                        FIX_ONE == 1_000_000,
                ;
            }
            let q: i128 = div_floor_i128(i2 * FIX_ONE as i128, u2);
            proof {
                vstd::arithmetic::div_mod::lemma_div_is_ordered(0, i2 * FIX_ONE as int, u2 as int);
                vstd::arithmetic::div_mod::lemma_div_of0(u2 as int);
            }
            if q > FIX_ONE as i128 {
                FIX_ONE
            } else {
                q as i64
            }
        }
    }

    /// Whether the pair matches: IoU strictly above the threshold.
    pub fn is_better_than(
        &self,
        estimated_object: &DynamicObject,
        ground_truth_object: &DynamicObject,
        threshold: &i64,
    ) -> (r: bool)
        requires
            estimated_object.wf(),
            ground_truth_object.wf(),
        ensures
            r == spec_is_better(
                MatchingMode::Iou2d,
                *estimated_object,
                *ground_truth_object,
                *threshold as int,
            ),
    {
        let iou = self.calculate_matching_score(estimated_object, ground_truth_object);
        *threshold < iou
    }
}

/// Matching by the volumetric intersection-over-union of the boxes.
#[derive(Debug, Clone)]
pub struct Iou3dMatching;

impl Iou3dMatching {
    /// The 3D IoU of the pair, as a fraction of `FIX_ONE`.
    pub fn calculate_matching_score(
        &self,
        estimated_object: &DynamicObject,
        ground_truth_object: &DynamicObject,
    ) -> (r: i64)
        requires
            estimated_object.wf(),
            ground_truth_object.wf(),
        ensures
            r == spec_iou3d_score(*estimated_object, *ground_truth_object),
            0 <= r <= FIX_ONE,
    {
        let i2: i128 = get_intersection_area2(estimated_object, ground_truth_object);
        let h2: i64 = get_intersection_height2(estimated_object, ground_truth_object);
        proof {
            assert(0 <= i2 * (h2 as int) <= 7_000_000_000_000_000_000_000_000_000_000)
                by (nonlinear_arith)
                requires
                    0 <= i2 <= AREA2_LIMIT,
                    0 <= h2 <= 6_000_000_000,
                    AREA2_LIMIT == 1_152_000_000_000_000_000_000,
            ;
        }
        let vi4: i128 = i2 * h2 as i128;
        let est_volume = estimated_object.volume();
        let gt_volume = ground_truth_object.volume();
        let u4: i128 = 4 * est_volume + 4 * gt_volume - vi4;
        if u4 <= 0 {
            0
        } else {
            proof {
                assert(vi4 * FIX_ONE as int <= 7_000_000_000_000_000_000_000_000_000_000_000_000
                    && 0 <= vi4 * FIX_ONE as int) by (nonlinear_arith)
                    requires
                        0 <= vi4 <= 7_000_000_000_000_000_000_000_000_000_000i128,
                        FIX_ONE == 1_000_000,
                ;
            }
            let q: i128 = div_floor_i128(vi4 * FIX_ONE as i128, u4);
            proof {
                vstd::arithmetic::div_mod::lemma_div_is_ordered(0, vi4 * FIX_ONE as int, u4 as int);
                vstd::arithmetic::div_mod::lemma_div_of0(u4 as int);
            }
            if q > FIX_ONE as i128 {
                FIX_ONE
            } else {
                q as i64
            }
        }
    }

    /// Whether the pair matches: volumetric IoU strictly above the
    /// threshold.
    pub fn is_better_than(
        &self,
        estimated_object: &DynamicObject,
        ground_truth_object: &DynamicObject,
        threshold: &i64,
    ) -> (r: bool)
        requires
            estimated_object.wf(),
            ground_truth_object.wf(),
        ensures
            r == spec_is_better(
                MatchingMode::Iou3d,
                *estimated_object,
                *ground_truth_object,
                *threshold as int,
            ),
    {
        let iou = self.calculate_matching_score(estimated_object, ground_truth_object);
        *threshold < iou
    }
}

/// The score of a candidate pair under the given matching mode.
pub fn calculate_score_for_mode(
    mode: &MatchingMode,
    estimated_object: &DynamicObject,
    ground_truth_object: &DynamicObject,
) -> (r: i64)
    requires
        estimated_object.wf(),
        ground_truth_object.wf(),
    ensures
        r == spec_matching_score(*mode, *estimated_object, *ground_truth_object),
{
    match mode {
        MatchingMode::CenterDistance => CenterDistanceMatching.calculate_matching_score(
            estimated_object,
            ground_truth_object,
        ),
        MatchingMode::PlaneDistance => PlaneDistanceMatching.calculate_matching_score(
            estimated_object,
            ground_truth_object,
        ),
        MatchingMode::Iou2d => Iou2dMatching.calculate_matching_score(
            estimated_object,
            ground_truth_object,
        ),
        MatchingMode::Iou3d => Iou3dMatching.calculate_matching_score(
            estimated_object,
            ground_truth_object,
        ),
    }
}

/// Whether a candidate pair matches under the given mode and threshold.
pub fn is_better_for_mode(
    mode: &MatchingMode,
    estimated_object: &DynamicObject,
    ground_truth_object: &DynamicObject,
    threshold: &i64,
) -> (r: bool)
    requires
        estimated_object.wf(),
        ground_truth_object.wf(),
    ensures
        r == spec_is_better(*mode, *estimated_object, *ground_truth_object, *threshold as int),
{
    match mode {
        MatchingMode::CenterDistance => CenterDistanceMatching.is_better_than(
            estimated_object,
            ground_truth_object,
            threshold,
        ),
        MatchingMode::PlaneDistance => PlaneDistanceMatching.is_better_than(
            estimated_object,
            ground_truth_object,
            threshold,
        ),
        MatchingMode::Iou2d => Iou2dMatching.is_better_than(
            estimated_object,
            ground_truth_object,
            threshold,
        ),
        MatchingMode::Iou3d => Iou3dMatching.is_better_than(
            estimated_object,
            ground_truth_object,
            threshold,
        ),
    }
}

} // verus!
