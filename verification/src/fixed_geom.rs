//! Planar geometry on fixed-point coordinates: the algorithms of
//! [`crate::integer_geom`] over the scalar type of [`crate::fixed`],
//! together with byte-level stored forms of every shape for persistence.
//!
//! Products truncate toward zero at 16 fractional bits, as everywhere in
//! the crate. The orientation and containment tests require the
//! coordinates they touch to be below 64 in magnitude (raw representation
//! below 2^22), which keeps every intermediate within range.

use vstd::prelude::*;
use crate::codec::{decode_fixed, encode_fixed, fixed_be, fixed_from_be};
use crate::errors::GeomError;
use crate::fixed::{Fixed, fits_fixed, scaled_mul};

verus! {

/// Magnitude bound on raw coordinates fed to the orientation tests: with
/// raw coordinates below 2^22 every difference, truncated product and sum
/// stays representable.
pub open spec fn coord_in_range(v: int) -> bool {
    -0x3f_ffff <= v <= 0x3f_ffff
}

/// A point within the orientation tests' coordinate range.
pub open spec fn point_in_range(p: FixedPoint2D) -> bool {
    coord_in_range(p.x@) && coord_in_range(p.y@)
}

/// A point of the fixed-point plane.
#[derive(Copy, Clone, Debug, PartialEq, Eq, Structural)]
pub struct FixedPoint2D {
    /// Horizontal coordinate.
    pub x: Fixed,
    /// Vertical coordinate.
    pub y: Fixed,
}

impl FixedPoint2D {
    /// The position vector of this point.
    pub fn as_vector_2d(&self) -> (r: FixedVector2D)
        ensures
            r.x == self.x && r.y == self.y,
    {
        FixedVector2D { x: self.x, y: self.y }
    }

    /// The byte-level form of this point.
    pub fn into_stored(&self) -> (r: StoredFixedPoint2D)
        ensures
            stored_of_point(*self, r),
    {
        StoredFixedPoint2D { x: encode_fixed(&self.x), y: encode_fixed(&self.y) }
    }

    /// The vector from `rhs` to this point.
    pub fn sub(self, rhs: FixedPoint2D) -> (r: FixedVector2D)
        requires
            fits_fixed(self.x@ - rhs.x@),
            fits_fixed(self.y@ - rhs.y@),
        ensures
            r.x@ == self.x@ - rhs.x@ && r.y@ == self.y@ - rhs.y@,
    {
        FixedVector2D {
            x: self.x.checked_sub(&rhs.x).unwrap(),
            y: self.y.checked_sub(&rhs.y).unwrap(),
        }
    }
}

/// The byte-level form of a point: each coordinate under its canonical
/// 4-byte encoding.
#[derive(Clone, Debug, PartialEq, Eq)]
pub struct StoredFixedPoint2D {
    /// Encoded horizontal coordinate.
    pub x: Vec<u8>,
    /// Encoded vertical coordinate.
    pub y: Vec<u8>,
}

/// `s` is the encoding of the point `p`.
pub open spec fn stored_of_point(p: FixedPoint2D, s: StoredFixedPoint2D) -> bool {
    s.x@ == fixed_be(p.x) && s.y@ == fixed_be(p.y)
}

/// Both coordinate encodings have their canonical length.
pub open spec fn stored_point_wf(s: StoredFixedPoint2D) -> bool {
    s.x@.len() == 4 && s.y@.len() == 4
}

/// The point a well-formed encoding decodes to.
pub open spec fn humanized_point(s: StoredFixedPoint2D) -> FixedPoint2D {
    FixedPoint2D { x: fixed_from_be(s.x@), y: fixed_from_be(s.y@) }
}

/// Encoding a point and decoding it gives the identical point.
pub proof fn lemma_point_round_trip(p: FixedPoint2D, s: StoredFixedPoint2D)
    requires
        stored_of_point(p, s),
    ensures
        stored_point_wf(s),
        humanized_point(s) == p,
{
    crate::codec::lemma_fixed_round_trip(p.x);
    crate::codec::lemma_fixed_round_trip(p.y);
}

impl StoredFixedPoint2D {
    /// Decode the point; a coordinate of the wrong length is malformed.
    pub fn into_humanized(&self) -> (r: Result<FixedPoint2D, GeomError>)
        ensures
            r is Ok <==> stored_point_wf(*self),
            r matches Ok(p) ==> p == humanized_point(*self),
            r matches Err(e) ==> e == GeomError::DecodeError,
    {
        let x = match decode_fixed(&self.x) {
            Some(v) => v,
            None => {
                return Err(GeomError::DecodeError);
            },
        };
        let y = match decode_fixed(&self.y) {
            Some(v) => v,
            None => {
                return Err(GeomError::DecodeError);
            },
        };
        Ok(FixedPoint2D { x, y })
    }
}

/// A displacement of the fixed-point plane.
#[derive(Copy, Clone, Debug, PartialEq, Eq, Structural)]
pub struct FixedVector2D {
    /// Horizontal component.
    pub x: Fixed,
    /// Vertical component.
    pub y: Fixed,
}

impl FixedVector2D {
    /// The dot product, truncated toward zero at 16 fractional bits.
    pub fn dot(&self, other: &FixedVector2D) -> (r: Fixed)
        requires
            fits_fixed(scaled_mul(self.x@, other.x@, 0x10000)),
            fits_fixed(scaled_mul(self.y@, other.y@, 0x10000)),
            fits_fixed(
                scaled_mul(self.x@, other.x@, 0x10000) + scaled_mul(self.y@, other.y@, 0x10000),
            ),
        ensures
            r@ == scaled_mul(self.x@, other.x@, 0x10000) + scaled_mul(self.y@, other.y@, 0x10000),
    {
        let px = self.x.checked_mul(&other.x).unwrap();
        let py = self.y.checked_mul(&other.y).unwrap();
        px.checked_add(&py).unwrap()
    }

    /// The squared length of the vector.
    pub fn len_squared(&self) -> (r: Fixed)
        requires
            fits_fixed(scaled_mul(self.x@, self.x@, 0x10000)),
            fits_fixed(scaled_mul(self.y@, self.y@, 0x10000)),
            fits_fixed(
                scaled_mul(self.x@, self.x@, 0x10000) + scaled_mul(self.y@, self.y@, 0x10000),
            ),
        ensures
            r@ == scaled_mul(self.x@, self.x@, 0x10000) + scaled_mul(self.y@, self.y@, 0x10000),
    {
        self.dot(self)
    }

    /// The point this vector displaces the origin to.
    pub fn as_point_2d(&self) -> (r: FixedPoint2D)
        ensures
            r.x == self.x && r.y == self.y,
    {
        FixedPoint2D { x: self.x, y: self.y }
    }

    /// The byte-level form of this vector.
    pub fn into_stored(&self) -> (r: StoredFixedVector2D)
        ensures
            r.x@ == fixed_be(self.x) && r.y@ == fixed_be(self.y),
    {
        StoredFixedVector2D { x: encode_fixed(&self.x), y: encode_fixed(&self.y) }
    }

    /// The vector sum.
    pub fn add(self, rhs: FixedVector2D) -> (r: FixedVector2D)
        requires
            fits_fixed(self.x@ + rhs.x@),
            fits_fixed(self.y@ + rhs.y@),
        ensures
            r.x@ == self.x@ + rhs.x@ && r.y@ == self.y@ + rhs.y@,
    {
        FixedVector2D {
            x: self.x.checked_add(&rhs.x).unwrap(),
            y: self.y.checked_add(&rhs.y).unwrap(),
        }
    }

    /// The vector difference.
    pub fn sub(self, rhs: FixedVector2D) -> (r: FixedVector2D)
        requires
            fits_fixed(self.x@ - rhs.x@),
            fits_fixed(self.y@ - rhs.y@),
        ensures
            r.x@ == self.x@ - rhs.x@ && r.y@ == self.y@ - rhs.y@,
    {
        FixedVector2D {
            x: self.x.checked_sub(&rhs.x).unwrap(),
            y: self.y.checked_sub(&rhs.y).unwrap(),
        }
    }

    /// The scalar multiple, truncated toward zero at 16 fractional bits.
    pub fn mul(self, rhs: Fixed) -> (r: FixedVector2D)
        requires
            fits_fixed(scaled_mul(self.x@, rhs@, 0x10000)),
            fits_fixed(scaled_mul(self.y@, rhs@, 0x10000)),
        ensures
            r.x@ == scaled_mul(self.x@, rhs@, 0x10000) && r.y@ == scaled_mul(
                self.y@,
                rhs@,
                0x10000,
            ),
    {
        FixedVector2D {
            x: self.x.checked_mul(&rhs).unwrap(),
            y: self.y.checked_mul(&rhs).unwrap(),
        }
    }
}

/// The byte-level form of a vector.
#[derive(Clone, Debug, PartialEq, Eq)]
pub struct StoredFixedVector2D {
    /// Encoded horizontal component.
    pub x: Vec<u8>,
    /// Encoded vertical component.
    pub y: Vec<u8>,
}

impl StoredFixedVector2D {
    /// Decode the vector; a component of the wrong length is malformed.
    pub fn into_humanized(&self) -> (r: Result<FixedVector2D, GeomError>)
        ensures
            r is Ok <==> self.x@.len() == 4 && self.y@.len() == 4,
            r matches Ok(v) ==> v.x == fixed_from_be(self.x@) && v.y == fixed_from_be(self.y@),
            r matches Err(e) ==> e == GeomError::DecodeError,
    {
        let x = match decode_fixed(&self.x) {
            Some(v) => v,
            None => {
                return Err(GeomError::DecodeError);
            },
        };
        let y = match decode_fixed(&self.y) {
            Some(v) => v,
            None => {
                return Err(GeomError::DecodeError);
            },
        };
        Ok(FixedVector2D { x, y })
    }
}

/// Twice the signed area of the triangle `a b c`, with the products
/// truncated toward zero at 16 fractional bits: positive for a
/// counterclockwise triangle, negative for a clockwise one.
pub open spec fn signed_area_spec(a: FixedPoint2D, b: FixedPoint2D, c: FixedPoint2D) -> int {
    scaled_mul(b.x@ - a.x@, c.y@ - a.y@, 0x10000) - scaled_mul(c.x@ - a.x@, b.y@ - a.y@, 0x10000)
}

/// With coordinates within range, every intermediate of the signed area
/// stays representable.
proof fn lemma_signed_area_in_range(a: FixedPoint2D, b: FixedPoint2D, c: FixedPoint2D)
    requires
        point_in_range(a),
        point_in_range(b),
        point_in_range(c),
    ensures
        fits_fixed(scaled_mul(b.x@ - a.x@, c.y@ - a.y@, 0x10000)),
        fits_fixed(scaled_mul(c.x@ - a.x@, b.y@ - a.y@, 0x10000)),
        fits_fixed(signed_area_spec(a, b, c)),
{
    lemma_scaled_mul_bound(b.x@ - a.x@, c.y@ - a.y@);
    lemma_scaled_mul_bound(c.x@ - a.x@, b.y@ - a.y@);
}

/// A truncated product of factors below 2^23 in magnitude stays below
/// 2^30.
proof fn lemma_scaled_mul_bound(x: int, y: int)
    requires
        -0x7f_fffe <= x <= 0x7f_fffe,
        -0x7f_fffe <= y <= 0x7f_fffe,
    ensures
        -0x3fff_fe00 <= scaled_mul(x, y, 0x10000) <= 0x3fff_fe00,
{
    assert(-0x3fff_fe00_0004 <= x * y <= 0x3fff_fe00_0004) by (nonlinear_arith)
        requires
            -0x7f_fffe <= x <= 0x7f_fffe,
            -0x7f_fffe <= y <= 0x7f_fffe,
    ;
    let p = x * y;
    if p >= 0 {
        assert(p / 0x10000int <= 0x3fff_fe00_0004int / 0x10000) by (nonlinear_arith)
            requires
                0 <= p <= 0x3fff_fe00_0004int,
        ;
    } else {
        assert((-p) / 0x10000int <= 0x3fff_fe00_0004int / 0x10000) by (nonlinear_arith)
            requires
                0 <= -p <= 0x3fff_fe00_0004int,
        ;
    }
}

/// Twice the area of the triangle `a b c`, signed by orientation.
pub fn signed_area(a: FixedPoint2D, b: FixedPoint2D, c: FixedPoint2D) -> (r: Fixed)
    requires
        point_in_range(a),
        point_in_range(b),
        point_in_range(c),
    ensures
        r@ == signed_area_spec(a, b, c),
{
    proof {
        lemma_signed_area_in_range(a, b, c);
    }
    let p = b.sub(a);
    let q = c.sub(a);
    let m1 = p.x.checked_mul(&q.y).unwrap();
    let m2 = q.x.checked_mul(&p.y).unwrap();
    m1.checked_sub(&m2).unwrap()
}

/// The orientation of the triangle `a b c`: counterclockwise, clockwise,
/// or collinear.
pub open spec fn ccw_spec(a: FixedPoint2D, b: FixedPoint2D, c: FixedPoint2D) -> Option<bool> {
    if signed_area_spec(a, b, c) > 0 {
        Some(true)
    } else if signed_area_spec(a, b, c) < 0 {
        Some(false)
    } else {
        None
    }
}

/// Whether the triangle `a b c` is counterclockwise (`Some(true)`),
/// clockwise (`Some(false)`) or collinear (`None`).
pub fn is_counterclockwise(a: &FixedPoint2D, b: &FixedPoint2D, c: &FixedPoint2D) -> (r: Option<
    bool,
>)
    requires
        point_in_range(*a),
        point_in_range(*b),
        point_in_range(*c),
    ensures
        r == ccw_spec(*a, *b, *c),
{
    let area = signed_area(*a, *b, *c);
    if area.raw() > 0 {
        Some(true)
    } else if area.raw() < 0 {
        Some(false)
    } else {
        None
    }
}

/// `p` and `q` lie strictly on opposite sides of the line through `a` and
/// `b` (as the truncated orientation test sees it).
pub open spec fn opposite_sides_spec(
    a: FixedPoint2D,
    b: FixedPoint2D,
    p: FixedPoint2D,
    q: FixedPoint2D,
) -> bool {
    (signed_area_spec(a, b, p) > 0 && signed_area_spec(a, b, q) < 0) || (signed_area_spec(a, b, p)
        < 0 && signed_area_spec(a, b, q) > 0)
}

/// The segments `p1 p2` and `q1 q2` properly cross: each segment's two
/// endpoints lie strictly on opposite sides of the other segment's
/// supporting line. Touching configurations (an endpoint on the other
/// line) do not count as crossing.
pub open spec fn intersects_spec(
    p1: FixedPoint2D,
    p2: FixedPoint2D,
    q1: FixedPoint2D,
    q2: FixedPoint2D,
) -> bool {
    opposite_sides_spec(p1, p2, q1, q2) && opposite_sides_spec(q1, q2, p1, p2)
}

/// A segment of the fixed-point plane.
#[derive(Copy, Clone, Debug, PartialEq, Eq)]
pub struct FixedLineSegment2D {
    /// The two endpoints.
    pub endpoints: (FixedPoint2D, FixedPoint2D),
}

impl FixedLineSegment2D {
    /// A segment between two distinct endpoints.
    pub fn new(endpoint1: FixedPoint2D, endpoint2: FixedPoint2D) -> (r: Result<
        FixedLineSegment2D,
        GeomError,
    >)
        ensures
            r is Ok <==> endpoint1 != endpoint2,
            r matches Ok(s) ==> s.endpoints == (endpoint1, endpoint2),
            r matches Err(e) ==> e == GeomError::DegenerateSegment,
    {
        if endpoint1 == endpoint2 {
            return Err(GeomError::DegenerateSegment);
        }
        Ok(FixedLineSegment2D { endpoints: (endpoint1, endpoint2) })
    }

    /// Whether this segment properly crosses `other`: each segment's
    /// endpoints lie strictly on opposite sides of the other's supporting
    /// line.
    pub fn intersects(&self, other: &FixedLineSegment2D) -> (r: bool)
        requires
            point_in_range(self.endpoints.0),
            point_in_range(self.endpoints.1),
            point_in_range(other.endpoints.0),
            point_in_range(other.endpoints.1),
        ensures
            r == intersects_spec(
                self.endpoints.0,
                self.endpoints.1,
                other.endpoints.0,
                other.endpoints.1,
            ),
    {
        let a1 = signed_area(self.endpoints.0, self.endpoints.1, other.endpoints.0);
        let a2 = signed_area(self.endpoints.0, self.endpoints.1, other.endpoints.1);
        let b1 = signed_area(other.endpoints.0, other.endpoints.1, self.endpoints.0);
        let b2 = signed_area(other.endpoints.0, other.endpoints.1, self.endpoints.1);
        ((a1.raw() > 0 && a2.raw() < 0) || (a1.raw() < 0 && a2.raw() > 0)) && ((b1.raw() > 0
            && b2.raw() < 0) || (b1.raw() < 0 && b2.raw() > 0))
    }

    /// The byte-level form of this segment.
    pub fn into_stored(&self) -> (r: StoredFixedLineSegment2D)
        ensures
            stored_of_point(self.endpoints.0, r.endpoints.0),
            stored_of_point(self.endpoints.1, r.endpoints.1),
    {
        StoredFixedLineSegment2D {
            endpoints: (self.endpoints.0.into_stored(), self.endpoints.1.into_stored()),
        }
    }
}

/// The byte-level form of a segment.
#[derive(Debug, PartialEq, Eq)]
pub struct StoredFixedLineSegment2D {
    /// The two encoded endpoints.
    pub endpoints: (StoredFixedPoint2D, StoredFixedPoint2D),
}

impl StoredFixedLineSegment2D {
    /// Decode the segment; a malformed endpoint is reported.
    pub fn into_humanized(&self) -> (r: Result<FixedLineSegment2D, GeomError>)
        ensures
            r is Ok <==> stored_point_wf(self.endpoints.0) && stored_point_wf(self.endpoints.1),
            r matches Ok(s) ==> s.endpoints == (
                humanized_point(self.endpoints.0),
                humanized_point(self.endpoints.1),
            ),
            r matches Err(e) ==> e == GeomError::DecodeError,
    {
        let e0 = match self.endpoints.0.into_humanized() {
            Ok(v) => v,
            Err(e) => {
                return Err(e);
            },
        };
        let e1 = match self.endpoints.1.into_humanized() {
            Ok(v) => v,
            Err(e) => {
                return Err(e);
            },
        };
        Ok(FixedLineSegment2D { endpoints: (e0, e1) })
    }
}

/// The axis-aligned box between two corners.
#[derive(Copy, Clone, Debug, PartialEq, Eq, Structural)]
pub struct FixedBBox2D {
    /// The corner with the least coordinates.
    pub lower_left: FixedPoint2D,
    /// The corner with the greatest coordinates.
    pub upper_right: FixedPoint2D,
}

/// Whether `point` lies within the box, borders included.
pub open spec fn bbox_contains_spec(b: FixedBBox2D, point: FixedPoint2D) -> bool {
    b.lower_left.x@ <= point.x@ <= b.upper_right.x@ && b.lower_left.y@ <= point.y@
        <= b.upper_right.y@
}

impl FixedBBox2D {
    /// Whether `point` lies within the box, borders included.
    pub fn contains(&self, point: &FixedPoint2D) -> (r: bool)
        ensures
            r == bbox_contains_spec(*self, *point),
    {
        self.lower_left.x.le(&point.x) && point.x.le(&self.upper_right.x) && self.lower_left.y.le(
            &point.y,
        ) && point.y.le(&self.upper_right.y)
    }

    /// The byte-level form of this box.
    pub fn into_stored(&self) -> (r: StoredFixedBBox2D)
        ensures
            stored_of_point(self.lower_left, r.lower_left),
            stored_of_point(self.upper_right, r.upper_right),
    {
        StoredFixedBBox2D {
            lower_left: self.lower_left.into_stored(),
            upper_right: self.upper_right.into_stored(),
        }
    }
}

/// The byte-level form of a box.
#[derive(Clone, Debug, PartialEq, Eq)]
pub struct StoredFixedBBox2D {
    /// The encoded lower-left corner.
    pub lower_left: StoredFixedPoint2D,
    /// The encoded upper-right corner.
    pub upper_right: StoredFixedPoint2D,
}

impl StoredFixedBBox2D {
    /// Decode the box; a malformed corner is reported.
    pub fn into_humanized(&self) -> (r: Result<FixedBBox2D, GeomError>)
        ensures
            r is Ok <==> stored_point_wf(self.lower_left) && stored_point_wf(self.upper_right),
            r matches Ok(b) ==> b.lower_left == humanized_point(self.lower_left) && b.upper_right
                == humanized_point(self.upper_right),
            r matches Err(e) ==> e == GeomError::DecodeError,
    {
        let lower_left = match self.lower_left.into_humanized() {
            Ok(v) => v,
            Err(e) => {
                return Err(e);
            },
        };
        let upper_right = match self.upper_right.into_humanized() {
            Ok(v) => v,
            Err(e) => {
                return Err(e);
            },
        };
        Ok(FixedBBox2D { lower_left, upper_right })
    }
}

/// Whether the directed edge `e0 e1` is crossed by the horizontal ray
/// running rightward from `point`: the edge must straddle the ray's row
/// half-openly — an upward edge counts on rows `[e0.y, e1.y)`, a downward
/// edge on rows `[e1.y, e0.y)`, a horizontal edge never — and the crossing
/// must lie strictly to the right of the point, which the sign of the
/// point's orientation against the directed edge decides.
pub open spec fn edge_crossed(point: FixedPoint2D, e0: FixedPoint2D, e1: FixedPoint2D) -> bool {
    if e0.y@ < e1.y@ {
        e0.y@ <= point.y@ < e1.y@ && signed_area_spec(e0, e1, point) > 0
    } else if e0.y@ > e1.y@ {
        e1.y@ <= point.y@ < e0.y@ && signed_area_spec(e0, e1, point) < 0
    } else {
        false
    }
}

/// How many of the first `n` edges of the vertex ring the rightward ray
/// from `point` crosses.
pub open spec fn crossings_upto(point: FixedPoint2D, vs: Seq<FixedPoint2D>, n: int) -> int
    decreases n,
{
    if n <= 0 {
        0
    } else {
        crossings_upto(point, vs, n - 1) + if edge_crossed(point, vs[n - 1], vs[n]) {
            1int
        } else {
            0int
        }
    }
}

/// A simple polygon: a closed vertex ring with its bounding box and its
/// anchor, the lexicographically least vertex by (y, x).
#[derive(Clone, Debug, PartialEq)]
pub struct FixedPolygon2D {
    /// The vertex ring; first and last vertex coincide.
    pub vertices: Vec<FixedPoint2D>,
    /// The vertex with the least y (ties broken by least x).
    pub anchor: FixedPoint2D,
    /// The bounding box of the vertices.
    pub bbox: FixedBBox2D,
}

/// Even-odd containment: the point is inside its bounding box and the
/// rightward ray from it crosses the edge ring an odd number of times.
pub open spec fn polygon_contains_spec(poly: FixedPolygon2D, point: FixedPoint2D) -> bool {
    &&& bbox_contains_spec(poly.bbox, point)
    &&& crossings_upto(point, poly.vertices@, poly.vertices@.len() - 1) % 2 == 1
}

/// The comparison `as_counterclockwise_points` sorts by: the anchor first,
/// then by orientation around the anchor, collinear points tying.
pub open spec fn ccw_cmp_spec(
    anchor: FixedPoint2D,
    a: FixedPoint2D,
    b: FixedPoint2D,
) -> core::cmp::Ordering {
    if a == anchor {
        core::cmp::Ordering::Less
    } else if b == anchor {
        core::cmp::Ordering::Greater
    } else {
        match ccw_spec(anchor, a, b) {
            Some(true) => core::cmp::Ordering::Less,
            Some(false) => core::cmp::Ordering::Greater,
            None => core::cmp::Ordering::Equal,
        }
    }
}

impl FixedPolygon2D {
    /// Build a polygon from a closed vertex ring: at least 3 vertices, the
    /// last equal to the first. The bounding box and the anchor are
    /// derived from the vertices.
    pub fn new(points: Vec<FixedPoint2D>) -> (r: Result<FixedPolygon2D, GeomError>)
        ensures
            r is Ok <==> points@.len() >= 3 && points@[0] == points@[points@.len() - 1],
            r matches Err(e) ==> (e == GeomError::TooFewVertices <==> points@.len() < 3) && (e
                == GeomError::OpenRing <==> (points@.len() >= 3 && points@[0] != points@[points@.len()
                - 1])),
            r matches Ok(p) ==> {
                &&& p.vertices@ == points@
                &&& (forall|i: int|
                    0 <= i < points@.len() ==> p.bbox.lower_left.x@ <= (#[trigger] points@[i]).x@
                        && points@[i].x@ <= p.bbox.upper_right.x@ && p.bbox.lower_left.y@
                        <= points@[i].y@ && points@[i].y@ <= p.bbox.upper_right.y@)
                &&& (exists|i: int|
                    0 <= i < points@.len() && (#[trigger] points@[i]).x@ == p.bbox.lower_left.x@)
                &&& (exists|i: int|
                    0 <= i < points@.len() && (#[trigger] points@[i]).x@ == p.bbox.upper_right.x@)
                &&& (exists|i: int|
                    0 <= i < points@.len() && (#[trigger] points@[i]).y@ == p.bbox.lower_left.y@)
                &&& (exists|i: int|
                    0 <= i < points@.len() && (#[trigger] points@[i]).y@ == p.bbox.upper_right.y@)
                &&& points@.contains(p.anchor)
                &&& (forall|i: int|
                    0 <= i < points@.len() ==> p.anchor.y@ < (#[trigger] points@[i]).y@ || (
                    p.anchor.y@ == points@[i].y@ && p.anchor.x@ <= points@[i].x@))
            },
    {
        let length = points.len();
        if length < 3 {
            return Err(GeomError::TooFewVertices);
        }
        if !(points[0] == points[length - 1]) {
            return Err(GeomError::OpenRing);
        }
        let mut anchor = points[0];
        let mut min_x: Fixed = points[0].x;
        let mut min_y: Fixed = points[0].y;
        let mut max_x: Fixed = points[0].x;
        let mut max_y: Fixed = points[0].y;
        proof {
            assert(points@.take(1int)[0] == points@[0]);
        }
        let mut i: usize = 1;
        while i < length
            invariant
                1 <= i <= length,
                length == points@.len(),
                forall|j: int|
                    0 <= j < i ==> min_x@ <= (#[trigger] points@[j]).x@ && points@[j].x@ <= max_x@
                        && min_y@ <= points@[j].y@ && points@[j].y@ <= max_y@,
                exists|j: int| 0 <= j < i && (#[trigger] points@[j]).x@ == min_x@,
                exists|j: int| 0 <= j < i && (#[trigger] points@[j]).x@ == max_x@,
                exists|j: int| 0 <= j < i && (#[trigger] points@[j]).y@ == min_y@,
                exists|j: int| 0 <= j < i && (#[trigger] points@[j]).y@ == max_y@,
                points@.take(i as int).contains(anchor),
                forall|j: int|
                    0 <= j < i ==> anchor.y@ < (#[trigger] points@[j]).y@ || (anchor.y@
                        == points@[j].y@ && anchor.x@ <= points@[j].x@),
            decreases length - i,
        {
            let pt = points[i];
            if pt.x.lt(&min_x) {
                min_x = pt.x;
            }
            if max_x.lt(&pt.x) {
                max_x = pt.x;
            }
            if pt.y.lt(&min_y) {
                min_y = pt.y;
            }
            if max_y.lt(&pt.y) {
                max_y = pt.y;
            }
            if pt.y.lt(&anchor.y) {
                anchor = pt;
            } else if pt.y.raw() == anchor.y.raw() && pt.x.lt(&anchor.x) {
                anchor = pt;
            }
            proof {
                assert(points@.take(i as int + 1).contains(anchor)) by {
                    if anchor == points@[i as int] {
                        assert(points@.take(i as int + 1)[i as int] == anchor);
                    } else {
                        let j = choose|j: int|
                            0 <= j < i && points@.take(i as int)[j] == anchor;
                        assert(points@.take(i as int + 1)[j] == anchor);
                    }
                }
                assert forall|j: int| 0 <= j < i + 1 implies min_x@ <= (#[trigger] points@[j]).x@
                    && points@[j].x@ <= max_x@ && min_y@ <= points@[j].y@ && points@[j].y@
                    <= max_y@ by {
                    if j < i {
                        assert(min_x@ <= points@[j].x@ && points@[j].x@ <= max_x@ && min_y@
                            <= points@[j].y@ && points@[j].y@ <= max_y@);
                    }
                }
            }
            i = i + 1;
        }
        proof {
            assert(points@.take(length as int) =~= points@);
        }
        let bbox = FixedBBox2D {
            lower_left: FixedPoint2D { x: min_x, y: min_y },
            upper_right: FixedPoint2D { x: max_x, y: max_y },
        };
        Ok(FixedPolygon2D { vertices: points, anchor, bbox })
    }

    /// How many vertices the ring holds (the closing vertex included).
    pub fn len(&self) -> (r: usize)
        ensures
            r == self.vertices@.len(),
    {
        self.vertices.len()
    }

    /// Even-odd containment: whether `point` lies inside the polygon,
    /// decided by how often a rightward horizontal ray from it crosses the
    /// edges, each edge counted half-openly so a crossing through a vertex
    /// is counted exactly once.
    pub fn contains(&self, point: &FixedPoint2D) -> (r: bool)
        requires
            self.vertices@.len() >= 1,
            self.vertices@.len() <= 0xffff_ffff,
            forall|i: int|
                0 <= i < self.vertices@.len() ==> point_in_range(#[trigger] self.vertices@[i]),
            point_in_range(*point),
        ensures
            r == polygon_contains_spec(*self, *point),
    {
        if !self.bbox.contains(point) {
            return false;
        }
        let n = self.len();
        let mut intersections: u32 = 0;
        let mut i: usize = 0;
        while i < n - 1
            invariant
                0 <= i <= n - 1,
                n == self.vertices@.len(),
                1 <= n <= 0xffff_ffff,
                forall|k: int|
                    0 <= k < self.vertices@.len() ==> point_in_range(#[trigger] self.vertices@[k]),
                point_in_range(*point),
                intersections <= i,
                intersections as int == crossings_upto(*point, self.vertices@, i as int),
            decreases n - 1 - i,
        {
            let e0 = self.vertices[i];
            let e1 = self.vertices[i + 1];
            if e0.y.lt(&e1.y) {
                // an upward edge counts on the rows [e0.y, e1.y), with the
                // crossing strictly right of the point
                if e0.y.le(&point.y) && point.y.lt(&e1.y) && signed_area(e0, e1, *point).raw()
                    > 0 {
                    intersections = intersections + 1;
                }
            } else if e1.y.lt(&e0.y) {
                // a downward edge counts on the rows [e1.y, e0.y)
                if e1.y.le(&point.y) && point.y.lt(&e0.y) && signed_area(e0, e1, *point).raw()
                    < 0 {
                    intersections = intersections + 1;
                }
            }
            i = i + 1;
        }
        intersections % 2 == 1
    }

    /// The comparison the counterclockwise ordering sorts by.
    fn ccw_cmp(
        anchor: &FixedPoint2D,
        a: &FixedPoint2D,
        b: &FixedPoint2D,
    ) -> (r: core::cmp::Ordering)
        requires
            point_in_range(*anchor),
            point_in_range(*a),
            point_in_range(*b),
        ensures
            r == ccw_cmp_spec(*anchor, *a, *b),
    {
        if a == anchor {
            return core::cmp::Ordering::Less;
        } else if b == anchor {
            return core::cmp::Ordering::Greater;
        }
        match is_counterclockwise(anchor, a, b) {
            Some(true) => core::cmp::Ordering::Less,
            Some(false) => core::cmp::Ordering::Greater,
            None => core::cmp::Ordering::Equal,
        }
    }

    /// The vertices reordered around the anchor by the orientation
    /// comparison: a permutation of the vertex ring with the anchor first.
    /// (The comparison is not a total order on arbitrary rings, so beyond
    /// the anchor's place only the multiset of vertices is pinned down.)
    pub fn as_counterclockwise_points(&self) -> (r: Vec<FixedPoint2D>)
        requires
            point_in_range(self.anchor),
            forall|i: int|
                0 <= i < self.vertices@.len() ==> point_in_range(#[trigger] self.vertices@[i]),
        ensures
            r@.to_multiset() == self.vertices@.to_multiset(),
            r@.len() == self.vertices@.len(),
            self.vertices@.len() > 0 && self.vertices@.contains(self.anchor) ==> r@[0]
                == self.anchor,
    {
        broadcast use vstd::seq_lib::to_multiset_update;
        broadcast use vstd::seq_lib::group_to_multiset_ensures;

        let n = self.vertices.len();
        let mut pts: Vec<FixedPoint2D> = Vec::new();
        let mut i: usize = 0;
        while i < n
            invariant
                i <= n,
                n == self.vertices@.len(),
                pts@ =~= self.vertices@.take(i as int),
            decreases n - i,
        {
            pts.push(self.vertices[i]);
            i = i + 1;
        }
        proof {
            assert(self.vertices@.take(n as int) =~= self.vertices@);
            if pts@.len() >= 1 && pts@.take(1int).contains(self.anchor) {
                let s = pts@.take(1int);
                let k = choose|k: int| 0 <= k < s.len() && s[k] == self.anchor;
                assert(s[k] == pts@[0]);
                assert(pts@[0] == self.anchor);
            }
        }
        // insertion sort by the orientation comparison; any copy of the
        // anchor compares below everything, so one ends at the front
        let mut i: usize = 1;
        while i < n
            invariant
                n == pts@.len(),
                n == self.vertices@.len(),
                i as int <= pts@.len() || pts@.len() == 0,
                pts@.to_multiset() == self.vertices@.to_multiset(),
                point_in_range(self.anchor),
                forall|k: int| 0 <= k < pts@.len() ==> point_in_range(#[trigger] pts@[k]),
                (i as int <= pts@.len() && pts@.take(i as int).contains(self.anchor)) ==> pts@[0]
                    == self.anchor,
            decreases n - i,
        {
            proof {
                if pts@.take(i as int + 1).contains(self.anchor) {
                    let s = pts@.take(i as int + 1);
                    let k = choose|k: int| 0 <= k < s.len() && s[k] == self.anchor;
                    if k < i {
                        assert(pts@.take(i as int)[k] == self.anchor);
                        assert(pts@.take(i as int).contains(self.anchor));
                    } else {
                        assert(pts@[i as int] == self.anchor);
                    }
                }
            }
            let mut j: usize = i;
            while j > 0
                invariant
                    j <= i < n,
                    n == pts@.len(),
                    pts@.to_multiset() == self.vertices@.to_multiset(),
                    point_in_range(self.anchor),
                    forall|k: int| 0 <= k < pts@.len() ==> point_in_range(#[trigger] pts@[k]),
                    pts@.take(i as int + 1).contains(self.anchor) ==> pts@[0] == self.anchor
                        || pts@[j as int] == self.anchor,
                ensures
                    n == pts@.len(),
                    pts@.to_multiset() == self.vertices@.to_multiset(),
                    forall|k: int| 0 <= k < pts@.len() ==> point_in_range(#[trigger] pts@[k]),
                    pts@.take(i as int + 1).contains(self.anchor) ==> pts@[0] == self.anchor,
                decreases j,
            {
                let cmp = FixedPolygon2D::ccw_cmp(&self.anchor, &pts[j], &pts[j - 1]);
                match cmp {
                    core::cmp::Ordering::Less => {
                        let ghost before = pts@;
                        let a = pts[j - 1];
                        let b = pts[j];
                        pts[j - 1] = b;
                        pts[j] = a;
                        proof {
                            let s1 = before.update(j as int - 1, b);
                            let s2 = s1.update(j as int, a);
                            assert(pts@ =~= s2);
                            assert(before[j as int - 1] == a && before.contains(a));
                            assert(s1[j as int] == b && s1.contains(b));
                            vstd::seq_lib::to_multiset_update(before, j as int - 1, b);
                            vstd::seq_lib::to_multiset_update(s1, j as int, a);
                            before.to_multiset_ensures();
                            s1.to_multiset_ensures();
                            assert(s2.to_multiset() =~= before.to_multiset());
                            // the anchor stays at the front or rides the swap
                            if pts@.take(i as int + 1).contains(self.anchor) {
                                let s = pts@.take(i as int + 1);
                                let k = choose|k: int| 0 <= k < s.len() && s[k] == self.anchor;
                                assert(pts@[k] == self.anchor);
                                let kb: int = if k == j as int - 1 {
                                    j as int
                                } else if k == j as int {
                                    j as int - 1
                                } else {
                                    k
                                };
                                assert(before[kb] == self.anchor);
                                assert(before.take(i as int + 1)[kb] == self.anchor);
                                assert(before.take(i as int + 1).contains(self.anchor));
                                if before[j as int] == self.anchor {
                                    assert(pts@[j as int - 1] == self.anchor);
                                } else {
                                    assert(before[0] == self.anchor);
                                    if j == 1 {
                                        // a Less comparison against the anchor in
                                        // front means the moving point is itself
                                        // the anchor
                                        assert(b == self.anchor);
                                    } else {
                                        assert(pts@[0] == self.anchor);
                                    }
                                }
                            }
                        }
                        j = j - 1;
                    },
                    _ => {
                        proof {
                            if pts@.take(i as int + 1).contains(self.anchor) {
                                if pts@[j as int] == self.anchor {
                                    // the comparison would have been Less
                                    assert(cmp == core::cmp::Ordering::Less);
                                }
                            }
                        }
                        break ;
                    },
                }
            }
            i = i + 1;
        }
        proof {
            if self.vertices@.len() > 0 && self.vertices@.contains(self.anchor) {
                self.vertices@.to_multiset_ensures();
                pts@.to_multiset_ensures();
                assert(self.vertices@.to_multiset().count(self.anchor) > 0);
                assert(pts@.to_multiset().count(self.anchor) > 0);
                assert(pts@.contains(self.anchor));
                assert(pts@.take(n as int) =~= pts@);
            }
        }
        pts
    }

    /// The byte-level form of this polygon.
    pub fn into_stored(&self) -> (r: StoredFixedPolygon2D)
        ensures
            r.vertices@.len() == self.vertices@.len(),
            forall|i: int|
                0 <= i < self.vertices@.len() ==> stored_of_point(
                    self.vertices@[i],
                    #[trigger] r.vertices@[i],
                ),
            stored_of_point(self.anchor, r.anchor),
            stored_of_point(self.bbox.lower_left, r.bbox.lower_left),
            stored_of_point(self.bbox.upper_right, r.bbox.upper_right),
    {
        let n = self.vertices.len();
        let mut vertices: Vec<StoredFixedPoint2D> = Vec::new();
        let mut i: usize = 0;
        while i < n
            invariant
                i <= n,
                n == self.vertices@.len(),
                vertices@.len() == i,
                forall|k: int|
                    0 <= k < i ==> stored_of_point(self.vertices@[k], #[trigger] vertices@[k]),
            decreases n - i,
        {
            vertices.push(self.vertices[i].into_stored());
            i = i + 1;
        }
        StoredFixedPolygon2D {
            vertices,
            anchor: self.anchor.into_stored(),
            bbox: self.bbox.into_stored(),
        }
    }
}

/// The byte-level form of a polygon.
#[derive(Clone, Debug, PartialEq, Eq)]
pub struct StoredFixedPolygon2D {
    /// The encoded vertex ring.
    pub vertices: Vec<StoredFixedPoint2D>,
    /// The encoded anchor.
    pub anchor: StoredFixedPoint2D,
    /// The encoded bounding box.
    pub bbox: StoredFixedBBox2D,
}

impl StoredFixedPolygon2D {
    /// Decode the polygon; any malformed vertex, anchor or corner is
    /// reported rather than ignored.
    pub fn into_humanized(&self) -> (r: Result<FixedPolygon2D, GeomError>)
        ensures
            r is Ok <==> (forall|i: int|
                0 <= i < self.vertices@.len() ==> stored_point_wf(#[trigger] self.vertices@[i]))
                && stored_point_wf(self.anchor) && stored_point_wf(self.bbox.lower_left)
                && stored_point_wf(self.bbox.upper_right),
            r matches Ok(p) ==> {
                &&& p.vertices@.len() == self.vertices@.len()
                &&& (forall|i: int|
                    0 <= i < self.vertices@.len() ==> #[trigger] p.vertices@[i] == humanized_point(
                        self.vertices@[i],
                    ))
                &&& p.anchor == humanized_point(self.anchor)
                &&& p.bbox.lower_left == humanized_point(self.bbox.lower_left)
                &&& p.bbox.upper_right == humanized_point(self.bbox.upper_right)
            },
            r matches Err(e) ==> e == GeomError::DecodeError,
    {
        let n = self.vertices.len();
        let mut vertices: Vec<FixedPoint2D> = Vec::new();
        let mut i: usize = 0;
        while i < n
            invariant
                i <= n,
                n == self.vertices@.len(),
                vertices@.len() == i,
                forall|k: int| 0 <= k < i ==> stored_point_wf(#[trigger] self.vertices@[k]),
                forall|k: int|
                    0 <= k < i ==> #[trigger] vertices@[k] == humanized_point(self.vertices@[k]),
            decreases n - i,
        {
            let v = match self.vertices[i].into_humanized() {
                Ok(v) => v,
                Err(e) => {
                    return Err(e);
                },
            };
            vertices.push(v);
            i = i + 1;
        }
        let anchor = match self.anchor.into_humanized() {
            Ok(v) => v,
            Err(e) => {
                return Err(e);
            },
        };
        let bbox = match self.bbox.into_humanized() {
            Ok(v) => v,
            Err(e) => {
                return Err(e);
            },
        };
        Ok(FixedPolygon2D { vertices, anchor, bbox })
    }
}

} // verus!
