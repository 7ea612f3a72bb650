//! The object model: oriented 3D boxes with label and confidence.

use vstd::prelude::*;

verus! {

use crate::frame_id::FrameID;
use crate::label::Label;
use crate::math::{FIX_ONE, HALF_TURN, COORD_LIMIT, SIZE_LIMIT, sqrt_floor, div_floor_i128};
use crate::point::{
    Point3, bounded_point, bounded_corner, spec_dist2, spec_dist2_bev, spec_origin,
    distance_points, distance_points_bev,
};

/// A heading in the ground plane: the yaw angle in angle units, together
/// with its cosine and sine as fixed-point fractions of [`FIX_ONE`].
///
/// The three fields carry, as plain values, exactly what the scoring logic
/// reads of an object's rotation: the angle for heading errors, and the
/// rotation coefficients for footprint corners.
#[derive(Debug, Clone, Copy, PartialEq, Eq, Structural)]
pub struct Orientation {
    /// Heading angle in `[-HALF_TURN, HALF_TURN]` angle units (pi equals
    /// `HALF_TURN`).
    pub yaw: i64,
    /// Cosine of the heading, scaled by `FIX_ONE`.
    pub cos: i64,
    /// Sine of the heading, scaled by `FIX_ONE`.
    pub sin: i64,
}

impl Orientation {
    /// The identity rotation (heading zero).
    pub fn identity() -> (r: Orientation)
        ensures
            r == (Orientation { yaw: 0, cos: FIX_ONE, sin: 0 }),
    {
        Orientation { yaw: 0, cos: FIX_ONE, sin: 0 }
    }

    /// The yaw is normalised and the rotation coefficients are fractions.
    pub open spec fn wf(self) -> bool {
        &&& -HALF_TURN <= self.yaw <= HALF_TURN
        &&& -FIX_ONE <= self.cos <= FIX_ONE
        &&& -FIX_ONE <= self.sin <= FIX_ONE
    }
}

/// Box extents in length units: length along the heading, width across it,
/// height upward.
#[derive(Debug, Clone, Copy, PartialEq, Eq, Structural)]
pub struct Size3 {
    pub length: i64,
    pub width: i64,
    pub height: i64,
}

impl Size3 {
    /// Extents are non-negative and within the size limit.
    pub open spec fn wf(self) -> bool {
        &&& 0 <= self.length <= SIZE_LIMIT
        &&& 0 <= self.width <= SIZE_LIMIT
        &&& 0 <= self.height <= SIZE_LIMIT
    }
}

/// The pose-and-shape part of an object.
#[derive(Debug, Clone, Copy)]
pub struct ObjectState {
    pub position: Point3,
    pub orientation: Orientation,
    pub size: Size3,
    pub velocity: Option<Point3>,
}

/// An estimated or ground-truth object: an oriented box with a label.
///
/// Two objects are `==` under *weak equality*: only timestamp, frame,
/// position, orientation and label are compared; size, velocity,
/// confidence, point count and instance id are excluded by design.
#[derive(Debug, Clone, Copy)]
pub struct DynamicObject {
    /// Timestamp in microseconds.
    pub timestamp: i64,
    /// The coordinate frame of the pose.
    pub frame_id: FrameID,
    /// Box center, in length units.
    pub position: Point3,
    /// Heading in the ground plane.
    pub orientation: Orientation,
    /// Box extents, in length units.
    pub size: Size3,
    /// Optional velocity, in length units per second.
    pub velocity: Option<Point3>,
    /// Detection confidence as a fraction of `FIX_ONE`; meaningful for
    /// estimations.
    pub confidence: i64,
    /// The object's label.
    pub label: Label,
    /// Number of lidar points inside the box; ground truth only.
    pub pointcloud_num: Option<i64>,
    /// Instance id; ground truth only.
    pub uuid: Option<u64>,
}

impl DynamicObject {
    /// Weak equality: the comparison that false-negative detection uses.
    pub open spec fn weak_eq(self, other: DynamicObject) -> bool {
        &&& self.timestamp == other.timestamp
        &&& self.frame_id == other.frame_id
        &&& self.position == other.position
        &&& self.orientation == other.orientation
        &&& self.label == other.label
    }

    /// Pose and extents are within the representable limits.
    pub open spec fn wf(self) -> bool {
        &&& bounded_point(self.position)
        &&& self.orientation.wf()
        &&& self.size.wf()
    }
}

impl PartialEq for DynamicObject {
    fn eq(&self, other: &Self) -> bool {
        self.timestamp == other.timestamp && self.frame_id == other.frame_id
            && self.position == other.position && self.orientation == other.orientation
            && self.label == other.label
    }
}

impl vstd::std_specs::cmp::PartialEqSpecImpl for DynamicObject {
    open spec fn obeys_eq_spec() -> bool {
        true
    }

    open spec fn eq_spec(&self, other: &DynamicObject) -> bool {
        self.weak_eq(*other)
    }
}

/// The x offset of a body-frame point `(dx, dy)` rotated by `o`.
pub open spec fn spec_rot_x(o: Orientation, dx: int, dy: int) -> int {
    (dx * o.cos - dy * o.sin) / (FIX_ONE as int)
}

/// The y offset of a body-frame point `(dx, dy)` rotated by `o`.
pub open spec fn spec_rot_y(o: Orientation, dx: int, dy: int) -> int {
    (dx * o.sin + dy * o.cos) / (FIX_ONE as int)
}

/// A box corner: the body-frame offset `(dx, dy)` rotated by the object's
/// heading and translated to its center, at ground height.
pub open spec fn spec_corner(obj: DynamicObject, dx: int, dy: int) -> Point3 {
    Point3 {
        x: (obj.position.x + spec_rot_x(obj.orientation, dx, dy)) as i64,
        y: (obj.position.y + spec_rot_y(obj.orientation, dx, dy)) as i64,
        z: obj.position.z,
    }
}

/// The four footprint corners, counter-clockwise for the identity heading.
pub open spec fn spec_footprint(obj: DynamicObject) -> Seq<Point3> {
    let l2 = obj.size.length as int / 2;
    let w2 = obj.size.width as int / 2;
    seq![
        spec_corner(obj, w2, l2),
        spec_corner(obj, -w2, l2),
        spec_corner(obj, -w2, -l2),
        spec_corner(obj, w2, -l2),
    ]
}

impl DynamicObject {
    /// Returns the pose-and-shape part of the object.
    pub fn state(&self) -> (r: ObjectState)
        ensures
            r.position == self.position,
            r.orientation == self.orientation,
            r.size == self.size,
            r.velocity == self.velocity,
    {
        ObjectState {
            position: self.position,
            orientation: self.orientation,
            size: self.size,
            velocity: self.velocity,
        }
    }

    /// Returns the name of the object's label.
    pub fn label_name(&self) -> (r: String)
        ensures
            r@ == self.label.spec_name(),
    {
        self.label.name()
    }

    /// Returns the area of the box footprint, in squared length units.
    pub fn area(&self) -> (r: i64)
        requires
            self.wf(),
        ensures
            r == self.size.length * self.size.width,
            0 <= r <= 1_000_000_000_000_000_000,
    {
        proof {
            vstd::arithmetic::mul::lemma_mul_upper_bound(
                self.size.length as int,
                SIZE_LIMIT as int,
                self.size.width as int,
                SIZE_LIMIT as int,
            );
            vstd::arithmetic::mul::lemma_mul_nonnegative(
                self.size.length as int,
                self.size.width as int,
            );
        }
        (self.size.length as i128 * self.size.width as i128) as i64
    }

    /// Returns the volume of the box, in cubed length units.
    pub fn volume(&self) -> (r: i128)
        requires
            self.wf(),
        ensures
            r == self.size.length * self.size.width * self.size.height,
            0 <= r <= 1_000_000_000_000_000_000_000_000_000,
    {
        let a = self.area();
        proof {
            assert(0 <= a as int * self.size.height as int
                <= SIZE_LIMIT as int * SIZE_LIMIT as int * SIZE_LIMIT as int) by (nonlinear_arith)
                requires
                    a == self.size.length * self.size.width,
                    0 <= self.size.length <= SIZE_LIMIT,
                    0 <= self.size.width <= SIZE_LIMIT,
                    0 <= self.size.height <= SIZE_LIMIT,
            ;
        }
        a as i128 * self.size.height as i128
    }

    /// Returns the distance of the object's center from the origin of its
    /// frame, rounded down to a whole length unit.
    pub fn distance(&self) -> (r: i64)
        requires
            self.wf(),
        ensures
            r == sqrt_floor(spec_dist2(self.position, spec_origin())),
    {
        distance_points(&self.position, &Point3 { x: 0, y: 0, z: 0 })
    }

    /// Returns the bird's-eye-view distance of the object's center from the
    /// origin, rounded down to a whole length unit.
    pub fn distance_bev(&self) -> (r: i64)
        requires
            self.wf(),
        ensures
            r == sqrt_floor(spec_dist2_bev(self.position, spec_origin())),
    {
        distance_points_bev(&self.position, &Point3 { x: 0, y: 0, z: 0 })
    }

    /// Returns the distance of the object's center from `point`, rounded
    /// down to a whole length unit.
    pub fn distance_from(&self, point: &Point3) -> (r: i64)
        requires
            self.wf(),
            bounded_point(*point),
        ensures
            r == sqrt_floor(spec_dist2(self.position, *point)),
    {
        distance_points(&self.position, point)
    }

    /// Returns the bird's-eye-view distance of the object's center from
    /// `point`, rounded down to a whole length unit.
    pub fn distance_bev_from(&self, point: &Point3) -> (r: i64)
        requires
            self.wf(),
            bounded_point(*point),
        ensures
            r == sqrt_floor(spec_dist2_bev(self.position, *point)),
    {
        distance_points_bev(&self.position, point)
    }

    /// Returns the object's heading angle, in angle units within
    /// `[-HALF_TURN, HALF_TURN]`.
    pub fn heading(&self) -> (r: i64)
        requires
            self.wf(),
        ensures
            r == self.orientation.yaw,
            -HALF_TURN <= r <= HALF_TURN,
    {
        self.orientation.yaw
    }

    /// One rotated-and-translated corner of the box footprint.
    fn corner(&self, dx: i64, dy: i64) -> (r: Point3)
        requires
            self.wf(),
            -SIZE_LIMIT <= dx <= SIZE_LIMIT,
            -SIZE_LIMIT <= dy <= SIZE_LIMIT,
        ensures
            r == spec_corner(*self, dx as int, dy as int),
            bounded_corner(r),
    {
        let o = self.orientation;
        proof {
            lemma_mul_frac_bound(dx as int, o.cos as int);
            lemma_mul_frac_bound(dx as int, o.sin as int);
            lemma_mul_frac_bound(dy as int, o.cos as int);
            lemma_mul_frac_bound(dy as int, o.sin as int);
        }
        let num_x: i128 = dx as i128 * o.cos as i128 - dy as i128 * o.sin as i128;
        let num_y: i128 = dx as i128 * o.sin as i128 + dy as i128 * o.cos as i128;
        let rx: i128 = div_floor_i128(num_x, FIX_ONE as i128);
        let ry: i128 = div_floor_i128(num_y, FIX_ONE as i128);
        proof {
            lemma_scaled_div_bound(num_x as int, 2 * SIZE_LIMIT as int);
            lemma_scaled_div_bound(num_y as int, 2 * SIZE_LIMIT as int);
        }
        let x: i128 = self.position.x as i128 + rx;
        let y: i128 = self.position.y as i128 + ry;
        Point3 { x: x as i64, y: y as i64, z: self.position.z }
    }

    /// Returns the four footprint corners of the object's box.
    pub fn footprint(&self) -> (r: Vec<Point3>)
        requires
            self.wf(),
        ensures
            r@ == spec_footprint(*self),
            r@.len() == 4,
            forall|k: int| 0 <= k < 4 ==> bounded_corner(r@[k]),
    {
        let l2: i64 = (self.size.length as u64 / 2) as i64;
        let w2: i64 = (self.size.width as u64 / 2) as i64;
        let mut out: Vec<Point3> = Vec::new();
        out.push(self.corner(w2, l2));
        out.push(self.corner(-w2, l2));
        out.push(self.corner(-w2, -l2));
        out.push(self.corner(w2, -l2));
        proof {
            assert(out@ =~= spec_footprint(*self));
        }
        out
    }
}

/// The product of a size-bounded value and a fixed-point fraction is
/// bounded by the size limit times the scale.
proof fn lemma_mul_frac_bound(a: int, f: int)
    requires
        -SIZE_LIMIT <= a <= SIZE_LIMIT,
        -FIX_ONE <= f <= FIX_ONE,
    ensures
        -(SIZE_LIMIT * FIX_ONE) <= a * f <= SIZE_LIMIT * FIX_ONE,
{
    assert(-(SIZE_LIMIT * FIX_ONE) <= a * f <= SIZE_LIMIT * FIX_ONE) by (nonlinear_arith)
        requires
            -SIZE_LIMIT <= a <= SIZE_LIMIT,
            -FIX_ONE <= f <= FIX_ONE,
    ;
}

/// Dividing a numerator bounded by `b * FIX_ONE` by `FIX_ONE` keeps it
/// within `b`.
proof fn lemma_scaled_div_bound(num: int, b: int)
    requires
        0 <= b,
        -b * FIX_ONE <= num <= b * FIX_ONE,
    ensures
        -b <= num / (FIX_ONE as int) <= b,
{
    vstd::arithmetic::div_mod::lemma_div_is_ordered(-b * (FIX_ONE as int), num, FIX_ONE as int);
    vstd::arithmetic::div_mod::lemma_div_is_ordered(num, b * (FIX_ONE as int), FIX_ONE as int);
    vstd::arithmetic::div_mod::lemma_div_multiples_vanish(-b, FIX_ONE as int);
    vstd::arithmetic::div_mod::lemma_div_multiples_vanish(b, FIX_ONE as int);
}

} // verus!
