//! Planar geometry on integer coordinates: points, vectors, segments,
//! bounding boxes and simple polygons, with orientation tests, segment
//! intersection and even-odd point-in-polygon containment.
//!
//! All arithmetic is exact 64-bit integer arithmetic. Where a product or
//! sum could leave the representable range the function requires its
//! inputs within range; the orientation and containment tests require the
//! coordinates they touch to be at most 2^30 in magnitude, which keeps
//! every intermediate within 64 bits.

use vstd::prelude::*;
use crate::errors::GeomError;

verus! {

/// Magnitude bound on coordinates fed to the orientation tests: with
/// coordinates below 2^30 in magnitude every intermediate product and
/// difference fits 64 bits.
pub open spec fn coord_in_range(v: int) -> bool {
    -0x3fff_ffff <= v <= 0x3fff_ffff
}

/// A point within the orientation tests' coordinate range.
pub open spec fn point_in_range(p: IntegerPoint2D) -> bool {
    coord_in_range(p.x as int) && coord_in_range(p.y as int)
}

/// True when `v` fits a 64-bit signed integer.
pub open spec fn in_i64(v: int) -> bool {
    i64::MIN <= v <= i64::MAX
}

/// A point of the integer plane.
#[derive(Copy, Clone, Debug, PartialEq, Eq, Structural)]
pub struct IntegerPoint2D {
    /// Horizontal coordinate.
    pub x: i64,
    /// Vertical coordinate.
    pub y: i64,
}

impl IntegerPoint2D {
    /// The position vector of this point.
    pub fn as_vector_2d(&self) -> (r: IntegerVector2D)
        ensures
            r.x == self.x && r.y == self.y,
    {
        IntegerVector2D { x: self.x, y: self.y }
    }

    /// The vector from `rhs` to this point.
    pub fn sub(self, rhs: IntegerPoint2D) -> (r: IntegerVector2D)
        requires
            in_i64(self.x - rhs.x),
            in_i64(self.y - rhs.y),
        ensures
            r.x == self.x - rhs.x && r.y == self.y - rhs.y,
    {
        IntegerVector2D { x: self.x - rhs.x, y: self.y - rhs.y }
    }
}

/// A displacement of the integer plane.
#[derive(Copy, Clone, Debug, PartialEq, Eq, Structural)]
pub struct IntegerVector2D {
    /// Horizontal component.
    pub x: i64,
    /// Vertical component.
    pub y: i64,
}

impl IntegerVector2D {
    /// The dot product.
    pub fn dot(&self, other: &IntegerVector2D) -> (r: i64)
        requires
            in_i64(self.x * other.x),
            in_i64(self.y * other.y),
            in_i64(self.x * other.x + self.y * other.y),
        ensures
            r == self.x * other.x + self.y * other.y,
    {
        self.x * other.x + self.y * other.y
    }

    /// The squared length of the vector.
    pub fn len_squared(&self) -> (r: i64)
        requires
            in_i64(self.x * self.x),
            in_i64(self.y * self.y),
            in_i64(self.x * self.x + self.y * self.y),
        ensures
            r == self.x * self.x + self.y * self.y,
    {
        self.dot(self)
    }

    /// The point this vector displaces the origin to.
    pub fn as_point_2d(&self) -> (r: IntegerPoint2D)
        ensures
            r.x == self.x && r.y == self.y,
    {
        IntegerPoint2D { x: self.x, y: self.y }
    }

    /// The vector sum.
    pub fn add(self, rhs: IntegerVector2D) -> (r: IntegerVector2D)
        requires
            in_i64(self.x + rhs.x),
            in_i64(self.y + rhs.y),
        ensures
            r.x == self.x + rhs.x && r.y == self.y + rhs.y,
    {
        IntegerVector2D { x: self.x + rhs.x, y: self.y + rhs.y }
    }

    /// The vector difference.
    pub fn sub(self, rhs: IntegerVector2D) -> (r: IntegerVector2D)
        requires
            in_i64(self.x - rhs.x),
            in_i64(self.y - rhs.y),
        ensures
            r.x == self.x - rhs.x && r.y == self.y - rhs.y,
    {
        IntegerVector2D { x: self.x - rhs.x, y: self.y - rhs.y }
    }

    /// The scalar multiple.
    pub fn mul(self, rhs: i64) -> (r: IntegerVector2D)
        requires
            in_i64(self.x * rhs),
            in_i64(self.y * rhs),
        ensures
            r.x == self.x * rhs && r.y == self.y * rhs,
    {
        IntegerVector2D { x: self.x * rhs, y: self.y * rhs }
    }
}

/// Twice the signed area of the triangle `a b c`: positive for a
/// counterclockwise triangle, negative for a clockwise one, zero for
/// collinear points.
pub open spec fn signed_area_spec(a: IntegerPoint2D, b: IntegerPoint2D, c: IntegerPoint2D) -> int {
    (b.x - a.x) * (c.y - a.y) - (c.x - a.x) * (b.y - a.y)
}

/// Twice the area of the triangle `a b c`, signed by orientation.
pub fn signed_area(a: IntegerPoint2D, b: IntegerPoint2D, c: IntegerPoint2D) -> (r: i64)
    requires
        point_in_range(a),
        point_in_range(b),
        point_in_range(c),
    ensures
        r == signed_area_spec(a, b, c),
{
    proof {
        lemma_signed_area_in_range(a, b, c);
    }
    let p = b.sub(a);
    let q = c.sub(a);
    p.x * q.y - q.x * p.y
}

/// With coordinates within range, every intermediate of the signed area
/// fits 64 bits.
proof fn lemma_signed_area_in_range(a: IntegerPoint2D, b: IntegerPoint2D, c: IntegerPoint2D)
    requires
        point_in_range(a),
        point_in_range(b),
        point_in_range(c),
    ensures
        in_i64((b.x - a.x) * (c.y - a.y)),
        in_i64((c.x - a.x) * (b.y - a.y)),
        in_i64(signed_area_spec(a, b, c)),
{
    lemma_mul_bound(b.x - a.x, c.y - a.y, 0x7fff_fffe);
    lemma_mul_bound(c.x - a.x, b.y - a.y, 0x7fff_fffe);
}

/// Products of bounded factors are bounded.
proof fn lemma_mul_bound(x: int, y: int, b: int)
    requires
        0 <= b,
        -b <= x <= b,
        -b <= y <= b,
    ensures
        -(b * b) <= x * y <= b * b,
{
    assert(-(b * b) <= x * y <= b * b) by (nonlinear_arith)
        requires
            0 <= b,
            -b <= x <= b,
            -b <= y <= b,
    ;
}

/// The orientation of the triangle `a b c`: counterclockwise, clockwise,
/// or collinear.
pub open spec fn ccw_spec(a: IntegerPoint2D, b: IntegerPoint2D, c: IntegerPoint2D) -> Option<
    bool,
> {
    if signed_area_spec(a, b, c) > 0 {
        Some(true)
    } else if signed_area_spec(a, b, c) < 0 {
        Some(false)
    } else {
        None
    }
}

/// Whether the triangle `a b c` is counterclockwise (`Some(true)`),
/// clockwise (`Some(false)`) or collinear (`None`).
pub fn is_counterclockwise(a: &IntegerPoint2D, b: &IntegerPoint2D, c: &IntegerPoint2D) -> (r:
    Option<bool>)
    requires
        point_in_range(*a),
        point_in_range(*b),
        point_in_range(*c),
    ensures
        r == ccw_spec(*a, *b, *c),
{
    let area = signed_area(*a, *b, *c);
    if area > 0 {
        Some(true)
    } else if area < 0 {
        Some(false)
    } else {
        None
    }
}

/// `p` and `q` lie strictly on opposite sides of the line through `a` and
/// `b`.
pub open spec fn opposite_sides_spec(
    a: IntegerPoint2D,
    b: IntegerPoint2D,
    p: IntegerPoint2D,
    q: IntegerPoint2D,
) -> bool {
    (signed_area_spec(a, b, p) > 0 && signed_area_spec(a, b, q) < 0) || (signed_area_spec(a, b, p)
        < 0 && signed_area_spec(a, b, q) > 0)
}

/// The segments `p1 p2` and `q1 q2` properly cross: each segment's two
/// endpoints lie strictly on opposite sides of the other segment's
/// supporting line. Touching configurations (an endpoint on the other
/// line) do not count as crossing.
pub open spec fn intersects_spec(
    p1: IntegerPoint2D,
    p2: IntegerPoint2D,
    q1: IntegerPoint2D,
    q2: IntegerPoint2D,
) -> bool {
    opposite_sides_spec(p1, p2, q1, q2) && opposite_sides_spec(q1, q2, p1, p2)
}

/// A segment of the integer plane.
#[derive(Copy, Clone, Debug, PartialEq, Eq)]
pub struct IntegerLineSegment2D {
    /// The two endpoints.
    pub endpoints: (IntegerPoint2D, IntegerPoint2D),
}

impl IntegerLineSegment2D {
    /// A segment between two distinct endpoints.
    pub fn new(endpoint1: IntegerPoint2D, endpoint2: IntegerPoint2D) -> (r: Result<
        IntegerLineSegment2D,
        GeomError,
    >)
        ensures
            r is Ok <==> endpoint1 != endpoint2,
            r matches Ok(s) ==> s.endpoints == (endpoint1, endpoint2),
            r matches Err(e) ==> e == GeomError::DegenerateSegment,
    {
        if endpoint1 == endpoint2 {
            return Err(GeomError::DegenerateSegment);
        }
        Ok(IntegerLineSegment2D { endpoints: (endpoint1, endpoint2) })
    }

    /// Whether this segment properly crosses `other`: each segment's
    /// endpoints lie strictly on opposite sides of the other's supporting
    /// line.
    pub fn intersects(&self, other: &IntegerLineSegment2D) -> (r: bool)
        requires
            point_in_range(self.endpoints.0),
            point_in_range(self.endpoints.1),
            point_in_range(other.endpoints.0),
            point_in_range(other.endpoints.1),
        ensures
            r == intersects_spec(
                self.endpoints.0,
                self.endpoints.1,
                other.endpoints.0,
                other.endpoints.1,
            ),
    {
        let a1 = signed_area(self.endpoints.0, self.endpoints.1, other.endpoints.0);
        let a2 = signed_area(self.endpoints.0, self.endpoints.1, other.endpoints.1);
        let b1 = signed_area(other.endpoints.0, other.endpoints.1, self.endpoints.0);
        let b2 = signed_area(other.endpoints.0, other.endpoints.1, self.endpoints.1);
        ((a1 > 0 && a2 < 0) || (a1 < 0 && a2 > 0)) && ((b1 > 0 && b2 < 0) || (b1 < 0 && b2 > 0))
    }
}

/// The axis-aligned box between two corners.
#[derive(Copy, Clone, Debug, PartialEq, Eq, Structural)]
pub struct IntegerBBox {
    /// The corner with the least coordinates.
    pub lower_left: IntegerPoint2D,
    /// The corner with the greatest coordinates.
    pub upper_right: IntegerPoint2D,
}

/// Whether `point` lies within the box, borders included.
pub open spec fn bbox_contains_spec(b: IntegerBBox, point: IntegerPoint2D) -> bool {
    b.lower_left.x <= point.x <= b.upper_right.x && b.lower_left.y <= point.y <= b.upper_right.y
}

impl IntegerBBox {
    /// Whether `point` lies within the box, borders included.
    pub fn contains(&self, point: &IntegerPoint2D) -> (r: bool)
        ensures
            r == bbox_contains_spec(*self, *point),
    {
        point.x >= self.lower_left.x && point.x <= self.upper_right.x && point.y
            >= self.lower_left.y && point.y <= self.upper_right.y
    }
}

/// Whether the directed edge `e0 e1` is crossed by the horizontal ray
/// running rightward from `point`: the edge must straddle the ray's row
/// half-openly — an upward edge counts on rows `[e0.y, e1.y)`, a downward
/// edge on rows `[e1.y, e0.y)`, a horizontal edge never — and the crossing
/// must lie strictly to the right of the point, which the sign of the
/// point's orientation against the directed edge decides.
pub open spec fn edge_crossed(
    point: IntegerPoint2D,
    e0: IntegerPoint2D,
    e1: IntegerPoint2D,
) -> bool {
    if e0.y < e1.y {
        e0.y <= point.y < e1.y && signed_area_spec(e0, e1, point) > 0
    } else if e0.y > e1.y {
        e1.y <= point.y < e0.y && signed_area_spec(e0, e1, point) < 0
    } else {
        false
    }
}

/// How many of the first `n` edges of the vertex ring the rightward ray
/// from `point` crosses.
pub open spec fn crossings_upto(point: IntegerPoint2D, vs: Seq<IntegerPoint2D>, n: int) -> int
    decreases n,
{
    if n <= 0 {
        0
    } else {
        crossings_upto(point, vs, n - 1) + if edge_crossed(point, vs[n - 1], vs[n]) {
            1int
        } else {
            0int
        }
    }
}

/// A simple polygon: a closed vertex ring with its bounding box and its
/// anchor, the lexicographically least vertex by (y, x).
#[derive(Clone, Debug, PartialEq)]
pub struct IntegerPolygon2D {
    /// The vertex ring; first and last vertex coincide.
    pub vertices: Vec<IntegerPoint2D>,
    /// The vertex with the least y (ties broken by least x).
    pub anchor: IntegerPoint2D,
    /// The bounding box of the vertices.
    pub bbox: IntegerBBox,
}

/// Even-odd containment: the point is inside its bounding box and the
/// rightward ray from it crosses the edge ring an odd number of times.
pub open spec fn polygon_contains_spec(poly: IntegerPolygon2D, point: IntegerPoint2D) -> bool {
    &&& bbox_contains_spec(poly.bbox, point)
    &&& crossings_upto(point, poly.vertices@, poly.vertices@.len() - 1) % 2 == 1
}

/// The comparison `as_counterclockwise_points` sorts by: the anchor first,
/// then by orientation around the anchor, collinear points tying.
pub open spec fn ccw_cmp_spec(
    anchor: IntegerPoint2D,
    a: IntegerPoint2D,
    b: IntegerPoint2D,
) -> core::cmp::Ordering {
    if a == anchor {
        core::cmp::Ordering::Less
    } else if b == anchor {
        core::cmp::Ordering::Greater
    } else {
        match ccw_spec(anchor, a, b) {
            Some(true) => core::cmp::Ordering::Less,
            Some(false) => core::cmp::Ordering::Greater,
            None => core::cmp::Ordering::Equal,
        }
    }
}

impl IntegerPolygon2D {
    /// Build a polygon from a closed vertex ring: at least 3 vertices, the
    /// last equal to the first. The bounding box and the anchor are
    /// derived from the vertices.
    pub fn new(points: Vec<IntegerPoint2D>) -> (r: Result<IntegerPolygon2D, GeomError>)
        ensures
            r is Ok <==> points@.len() >= 3 && points@[0] == points@[points@.len() - 1],
            r matches Err(e) ==> (e == GeomError::TooFewVertices <==> points@.len() < 3) && (e
                == GeomError::OpenRing <==> (points@.len() >= 3 && points@[0] != points@[points@.len()
                - 1])),
            r matches Ok(p) ==> {
                &&& p.vertices@ == points@
                &&& (forall|i: int|
                    0 <= i < points@.len() ==> p.bbox.lower_left.x <= #[trigger] points@[i].x
                        && points@[i].x <= p.bbox.upper_right.x && p.bbox.lower_left.y
                        <= points@[i].y && points@[i].y <= p.bbox.upper_right.y)
                &&& (exists|i: int| 0 <= i < points@.len() && #[trigger] points@[i].x == p.bbox.lower_left.x)
                &&& (exists|i: int| 0 <= i < points@.len() && #[trigger] points@[i].x == p.bbox.upper_right.x)
                &&& (exists|i: int| 0 <= i < points@.len() && #[trigger] points@[i].y == p.bbox.lower_left.y)
                &&& (exists|i: int| 0 <= i < points@.len() && #[trigger] points@[i].y == p.bbox.upper_right.y)
                &&& points@.contains(p.anchor)
                &&& (forall|i: int|
                    0 <= i < points@.len() ==> p.anchor.y < #[trigger] points@[i].y || (p.anchor.y
                        == points@[i].y && p.anchor.x <= points@[i].x))
            },
    {
        let length = points.len();
        if length < 3 {
            return Err(GeomError::TooFewVertices);
        }
        if !(points[0] == points[length - 1]) {
            return Err(GeomError::OpenRing);
        }
        let mut anchor = points[0];
        let mut min_x: i64 = points[0].x;
        let mut min_y: i64 = points[0].y;
        let mut max_x: i64 = points[0].x;
        let mut max_y: i64 = points[0].y;
        proof {
            assert(points@.take(1int)[0] == points@[0]);
        }
        let mut i: usize = 1;
        while i < length
            invariant
                1 <= i <= length,
                length == points@.len(),
                forall|j: int|
                    0 <= j < i ==> min_x <= #[trigger] points@[j].x && points@[j].x <= max_x
                        && min_y <= points@[j].y && points@[j].y <= max_y,
                exists|j: int| 0 <= j < i && #[trigger] points@[j].x == min_x,
                exists|j: int| 0 <= j < i && #[trigger] points@[j].x == max_x,
                exists|j: int| 0 <= j < i && #[trigger] points@[j].y == min_y,
                exists|j: int| 0 <= j < i && #[trigger] points@[j].y == max_y,
                points@.take(i as int).contains(anchor),
                forall|j: int|
                    0 <= j < i ==> anchor.y < #[trigger] points@[j].y || (anchor.y == points@[j].y
                        && anchor.x <= points@[j].x),
            decreases length - i,
        {
            let pt = points[i];
            if min_x > pt.x {
                min_x = pt.x;
            }
            if max_x < pt.x {
                max_x = pt.x;
            }
            if min_y > pt.y {
                min_y = pt.y;
            }
            if max_y < pt.y {
                max_y = pt.y;
            }
            if pt.y < anchor.y {
                anchor = pt;
            } else if pt.y == anchor.y && pt.x < anchor.x {
                anchor = pt;
            }
            proof {
                assert(points@.take(i as int + 1).contains(anchor)) by {
                    if anchor == points@[i as int] {
                        assert(points@.take(i as int + 1)[i as int] == anchor);
                    } else {
                        let j = choose|j: int|
                            0 <= j < i && points@.take(i as int)[j] == anchor;
                        assert(points@.take(i as int + 1)[j] == anchor);
                    }
                }
                assert forall|j: int| 0 <= j < i + 1 implies min_x <= #[trigger] points@[j].x
                    && points@[j].x <= max_x && min_y <= points@[j].y && points@[j].y
                    <= max_y by {
                    if j < i {
                        assert(min_x <= points@[j].x && points@[j].x <= max_x && min_y
                            <= points@[j].y && points@[j].y <= max_y);
                    }
                }
            }
            i = i + 1;
        }
        proof {
            assert(points@.take(length as int) =~= points@);
        }
        let bbox = IntegerBBox {
            lower_left: IntegerPoint2D { x: min_x, y: min_y },
            upper_right: IntegerPoint2D { x: max_x, y: max_y },
        };
        Ok(IntegerPolygon2D { vertices: points, anchor, bbox })
    }

    /// How many vertices the ring holds (the closing vertex included).
    pub fn len(&self) -> (r: usize)
        ensures
            r == self.vertices@.len(),
    {
        self.vertices.len()
    }

    /// Even-odd containment: whether `point` lies inside the polygon,
    /// decided by how often a rightward horizontal ray from it crosses the
    /// edges, each edge counted half-openly so a crossing through a vertex
    /// is counted exactly once.
    pub fn contains(&self, point: &IntegerPoint2D) -> (r: bool)
        requires
            self.vertices@.len() >= 1,
            self.vertices@.len() <= 0xffff_ffff,
            forall|i: int|
                0 <= i < self.vertices@.len() ==> point_in_range(#[trigger] self.vertices@[i]),
            point_in_range(*point),
        ensures
            r == polygon_contains_spec(*self, *point),
    {
        if !self.bbox.contains(point) {
            return false;
        }
        let n = self.len();
        let mut intersections: u32 = 0;
        let mut i: usize = 0;
        while i < n - 1
            invariant
                0 <= i <= n - 1,
                n == self.vertices@.len(),
                1 <= n <= 0xffff_ffff,
                forall|k: int|
                    0 <= k < self.vertices@.len() ==> point_in_range(#[trigger] self.vertices@[k]),
                point_in_range(*point),
                intersections <= i,
                intersections as int == crossings_upto(*point, self.vertices@, i as int),
            decreases n - 1 - i,
        {
            let e0 = self.vertices[i];
            let e1 = self.vertices[i + 1];
            if e0.y < e1.y {
                // an upward edge counts on the rows [e0.y, e1.y), with the
                // crossing strictly right of the point
                if e0.y <= point.y && point.y < e1.y && signed_area(e0, e1, *point) > 0 {
                    intersections = intersections + 1;
                }
            } else if e0.y > e1.y {
                // a downward edge counts on the rows [e1.y, e0.y)
                if e1.y <= point.y && point.y < e0.y && signed_area(e0, e1, *point) < 0 {
                    intersections = intersections + 1;
                }
            }
            i = i + 1;
        }
        intersections % 2 == 1
    }

    /// The comparison the counterclockwise ordering sorts by.
    fn ccw_cmp(
        anchor: &IntegerPoint2D,
        a: &IntegerPoint2D,
        b: &IntegerPoint2D,
    ) -> (r: core::cmp::Ordering)
        requires
            point_in_range(*anchor),
            point_in_range(*a),
            point_in_range(*b),
        ensures
            r == ccw_cmp_spec(*anchor, *a, *b),
    {
        if a == anchor {
            return core::cmp::Ordering::Less;
        } else if b == anchor {
            return core::cmp::Ordering::Greater;
        }
        match is_counterclockwise(anchor, a, b) {
            Some(true) => core::cmp::Ordering::Less,
            Some(false) => core::cmp::Ordering::Greater,
            None => core::cmp::Ordering::Equal,
        }
    }

    /// The vertices reordered around the anchor by the orientation
    /// comparison: a permutation of the vertex ring with the anchor first.
    /// (The comparison is not a total order on arbitrary rings, so beyond
    /// the anchor's place only the multiset of vertices is pinned down.)
    pub fn as_counterclockwise_points(&self) -> (r: Vec<IntegerPoint2D>)
        requires
            point_in_range(self.anchor),
            forall|i: int|
                0 <= i < self.vertices@.len() ==> point_in_range(#[trigger] self.vertices@[i]),
        ensures
            r@.to_multiset() == self.vertices@.to_multiset(),
            r@.len() == self.vertices@.len(),
            self.vertices@.len() > 0 && self.vertices@.contains(self.anchor) ==> r@[0]
                == self.anchor,
    {
        broadcast use vstd::seq_lib::to_multiset_update;
        broadcast use vstd::seq_lib::group_to_multiset_ensures;

        let n = self.vertices.len();
        let mut pts: Vec<IntegerPoint2D> = Vec::new();
        let mut i: usize = 0;
        while i < n
            invariant
                i <= n,
                n == self.vertices@.len(),
                pts@ =~= self.vertices@.take(i as int),
            decreases n - i,
        {
            pts.push(self.vertices[i]);
            i = i + 1;
        }
        proof {
            assert(self.vertices@.take(n as int) =~= self.vertices@);
            if pts@.len() >= 1 && pts@.take(1int).contains(self.anchor) {
                let s = pts@.take(1int);
                let k = choose|k: int| 0 <= k < s.len() && s[k] == self.anchor;
                assert(s[k] == pts@[0]);
                assert(pts@[0] == self.anchor);
            }
        }
        // insertion sort by the orientation comparison; any copy of the
        // anchor compares below everything, so one ends at the front
        let mut i: usize = 1;
        while i < n
            invariant
                n == pts@.len(),
                n == self.vertices@.len(),
                i as int <= pts@.len() || pts@.len() == 0,
                pts@.to_multiset() == self.vertices@.to_multiset(),
                point_in_range(self.anchor),
                forall|k: int| 0 <= k < pts@.len() ==> point_in_range(#[trigger] pts@[k]),
                (i as int <= pts@.len() && pts@.take(i as int).contains(self.anchor)) ==> pts@[0]
                    == self.anchor,
            decreases n - i,
        {
            proof {
                if pts@.take(i as int + 1).contains(self.anchor) {
                    let s = pts@.take(i as int + 1);
                    let k = choose|k: int| 0 <= k < s.len() && s[k] == self.anchor;
                    if k < i {
                        assert(pts@.take(i as int)[k] == self.anchor);
                        assert(pts@.take(i as int).contains(self.anchor));
                    } else {
                        assert(pts@[i as int] == self.anchor);
                    }
                }
            }
            let mut j: usize = i;
            while j > 0
                invariant
                    j <= i < n,
                    n == pts@.len(),
                    pts@.to_multiset() == self.vertices@.to_multiset(),
                    point_in_range(self.anchor),
                    forall|k: int| 0 <= k < pts@.len() ==> point_in_range(#[trigger] pts@[k]),
                    pts@.take(i as int + 1).contains(self.anchor) ==> pts@[0] == self.anchor
                        || pts@[j as int] == self.anchor,
                ensures
                    n == pts@.len(),
                    pts@.to_multiset() == self.vertices@.to_multiset(),
                    forall|k: int| 0 <= k < pts@.len() ==> point_in_range(#[trigger] pts@[k]),
                    pts@.take(i as int + 1).contains(self.anchor) ==> pts@[0] == self.anchor,
                decreases j,
            {
                let cmp = IntegerPolygon2D::ccw_cmp(&self.anchor, &pts[j], &pts[j - 1]);
                match cmp {
                    core::cmp::Ordering::Less => {
                        let ghost before = pts@;
                        let a = pts[j - 1];
                        let b = pts[j];
                        pts[j - 1] = b;
                        pts[j] = a;
                        proof {
                            let s1 = before.update(j as int - 1, b);
                            let s2 = s1.update(j as int, a);
                            assert(pts@ =~= s2);
                            assert(before[j as int - 1] == a && before.contains(a));
                            assert(s1[j as int] == b && s1.contains(b));
                            vstd::seq_lib::to_multiset_update(before, j as int - 1, b);
                            vstd::seq_lib::to_multiset_update(s1, j as int, a);
                            before.to_multiset_ensures();
                            s1.to_multiset_ensures();
                            assert(s2.to_multiset() =~= before.to_multiset());
                            // the anchor stays at the front or rides the swap
                            if pts@.take(i as int + 1).contains(self.anchor) {
                                let s = pts@.take(i as int + 1);
                                let k = choose|k: int| 0 <= k < s.len() && s[k] == self.anchor;
                                assert(pts@[k] == self.anchor);
                                let kb: int = if k == j as int - 1 {
                                    j as int
                                } else if k == j as int {
                                    j as int - 1
                                } else {
                                    k
                                };
                                assert(before[kb] == self.anchor);
                                assert(before.take(i as int + 1)[kb] == self.anchor);
                                assert(before.take(i as int + 1).contains(self.anchor));
                                if before[j as int] == self.anchor {
                                    assert(pts@[j as int - 1] == self.anchor);
                                } else {
                                    assert(before[0] == self.anchor);
                                    if j == 1 {
                                        // a Less comparison against the anchor in
                                        // front means the moving point is itself
                                        // the anchor
                                        assert(b == self.anchor);
                                    } else {
                                        assert(pts@[0] == self.anchor);
                                    }
                                }
                            }
                        }
                        j = j - 1;
                    },
                    _ => {
                        proof {
                            if pts@.take(i as int + 1).contains(self.anchor) {
                                if pts@[j as int] == self.anchor {
                                    // the comparison would have been Less
                                    assert(cmp == core::cmp::Ordering::Less);
                                }
                            }
                        }
                        break ;
                    },
                }
            }
            i = i + 1;
        }
        proof {
            if self.vertices@.len() > 0 && self.vertices@.contains(self.anchor) {
                self.vertices@.to_multiset_ensures();
                pts@.to_multiset_ensures();
                assert(self.vertices@.to_multiset().count(self.anchor) > 0);
                assert(pts@.to_multiset().count(self.anchor) > 0);
                assert(pts@.contains(self.anchor));
                assert(pts@.take(n as int) =~= pts@);
            }
        }
        pts
    }
}

} // verus!
