//! The planar-geometry toolkit on integer and fixed-point coordinates.

use secret_data_tools::errors::GeomError;
use secret_data_tools::fixed::Fixed;
use secret_data_tools::fixed_geom::{
    FixedBBox2D, FixedLineSegment2D, FixedPoint2D, FixedPolygon2D, FixedVector2D,
};
use secret_data_tools::integer_geom::{
    IntegerBBox, IntegerLineSegment2D, IntegerPoint2D, IntegerPolygon2D, IntegerVector2D,
    is_counterclockwise, signed_area,
};

fn ip(x: i64, y: i64) -> IntegerPoint2D {
    IntegerPoint2D { x, y }
}

fn fp(x: i32, y: i32) -> FixedPoint2D {
    FixedPoint2D { x: Fixed::from_int(x), y: Fixed::from_int(y) }
}

#[test]
fn integer_vector_arithmetic() {
    let v = ip(3, 4).as_vector_2d();
    assert_eq!(v.dot(&IntegerVector2D { x: 2, y: 5 }), 26);
    assert_eq!(v.len_squared(), 25);
    let w = v.add(IntegerVector2D { x: 1, y: 1 });
    assert_eq!((w.x, w.y), (4, 5));
    let u = v.sub(IntegerVector2D { x: 1, y: 1 });
    assert_eq!((u.x, u.y), (2, 3));
    let m = v.mul(3);
    assert_eq!((m.x, m.y), (9, 12));
    let p = v.as_point_2d();
    assert_eq!((p.x, p.y), (3, 4));
    let d = ip(5, 7).sub(ip(2, 3));
    assert_eq!((d.x, d.y), (3, 4));
}

#[test]
fn integer_signed_area_and_orientation() {
    // counterclockwise unit triangle: twice its area is 1
    assert_eq!(signed_area(ip(0, 0), ip(1, 0), ip(0, 1)), 1);
    assert_eq!(is_counterclockwise(&ip(0, 0), &ip(1, 0), &ip(0, 1)), Some(true));
    // the reverse order is clockwise
    assert_eq!(signed_area(ip(0, 0), ip(0, 1), ip(1, 0)), -1);
    assert_eq!(is_counterclockwise(&ip(0, 0), &ip(0, 1), &ip(1, 0)), Some(false));
    // collinear points have no orientation
    assert_eq!(is_counterclockwise(&ip(0, 0), &ip(1, 1), &ip(2, 2)), None);
}

#[test]
fn integer_segments() {
    assert_eq!(
        IntegerLineSegment2D::new(ip(1, 1), ip(1, 1)).unwrap_err(),
        GeomError::DegenerateSegment
    );
    let s1 = IntegerLineSegment2D::new(ip(0, 0), ip(10, 10)).unwrap();
    let s2 = IntegerLineSegment2D::new(ip(0, 10), ip(10, 0)).unwrap();
    assert!(s1.intersects(&s2));
    let s3 = IntegerLineSegment2D::new(ip(20, 20), ip(30, 20)).unwrap();
    assert!(!s1.intersects(&s3));
    // a far-away segment whose supporting line is merely straddled does
    // not cross
    let vertical = IntegerLineSegment2D::new(ip(0, -1), ip(0, 1)).unwrap();
    let far_horizontal = IntegerLineSegment2D::new(ip(10, 0), ip(20, 0)).unwrap();
    assert!(!vertical.intersects(&far_horizontal));
    assert!(!far_horizontal.intersects(&vertical));
    // but crossing the segment itself does
    let near_horizontal = IntegerLineSegment2D::new(ip(-5, 0), ip(5, 0)).unwrap();
    assert!(vertical.intersects(&near_horizontal));
    // touching at an endpoint is not a proper crossing
    let touching = IntegerLineSegment2D::new(ip(0, 1), ip(5, 5)).unwrap();
    assert!(!vertical.intersects(&touching));
}

#[test]
fn integer_bbox_contains() {
    let b = IntegerBBox { lower_left: ip(0, 0), upper_right: ip(10, 10) };
    assert!(b.contains(&ip(5, 5)));
    assert!(b.contains(&ip(0, 10)));
    assert!(!b.contains(&ip(11, 5)));
    assert!(!b.contains(&ip(5, -1)));
}

#[test]
fn integer_polygon_construction_rules() {
    assert_eq!(
        IntegerPolygon2D::new(vec![ip(0, 0), ip(1, 0)]).unwrap_err(),
        GeomError::TooFewVertices
    );
    assert_eq!(
        IntegerPolygon2D::new(vec![ip(0, 0), ip(1, 0), ip(1, 1)]).unwrap_err(),
        GeomError::OpenRing
    );
    let square =
        IntegerPolygon2D::new(vec![ip(0, 0), ip(10, 0), ip(10, 10), ip(0, 10), ip(0, 0)]).unwrap();
    assert_eq!(square.len(), 5);
    assert_eq!(square.bbox, IntegerBBox { lower_left: ip(0, 0), upper_right: ip(10, 10) });
    assert_eq!(square.anchor, ip(0, 0));
}

#[test]
fn integer_polygon_contains() {
    let square =
        IntegerPolygon2D::new(vec![ip(0, 0), ip(10, 0), ip(10, 10), ip(0, 10), ip(0, 0)]).unwrap();
    assert!(square.contains(&ip(5, 5)));
    assert!(square.contains(&ip(1, 9)));
    assert!(!square.contains(&ip(11, 5)));
    assert!(!square.contains(&ip(5, 11)));
    // points outside the bounding box are rejected before any ray is cast
    assert!(!square.contains(&ip(-1, 5)));
}

#[test]
fn integer_polygon_contains_concave_shapes() {
    // a pentagon with one inward-pointing vertex: the ray from (10, 1)
    // crosses exactly one edge
    let pentagon = IntegerPolygon2D::new(vec![
        ip(0, 0),
        ip(30, 0),
        ip(30, 20),
        ip(20, 20),
        ip(25, 5),
        ip(0, 0),
    ])
    .unwrap();
    assert!(pentagon.contains(&ip(10, 1)));
    assert!(pentagon.contains(&ip(24, 3)));
    assert!(!pentagon.contains(&ip(10, 8)));
    // a square with a notch cut from the right side
    let notched = IntegerPolygon2D::new(vec![
        ip(0, 0),
        ip(10, 0),
        ip(10, 4),
        ip(5, 5),
        ip(10, 6),
        ip(10, 10),
        ip(0, 10),
        ip(0, 0),
    ])
    .unwrap();
    assert!(notched.contains(&ip(2, 5)));
    assert!(!notched.contains(&ip(9, 5)));
}

#[test]
fn integer_counterclockwise_points_is_a_permutation_led_by_the_anchor() {
    let square =
        IntegerPolygon2D::new(vec![ip(3, 3), ip(10, 3), ip(10, 10), ip(3, 10), ip(3, 3)]).unwrap();
    let mut sorted = square.as_counterclockwise_points();
    assert_eq!(sorted.len(), 5);
    assert_eq!(sorted[0], square.anchor);
    assert_eq!(sorted[0], ip(3, 3));
    let mut expected = vec![ip(3, 3), ip(10, 3), ip(10, 10), ip(3, 10), ip(3, 3)];
    let key = |p: &IntegerPoint2D| (p.x, p.y);
    sorted.sort_by_key(key);
    expected.sort_by_key(key);
    assert_eq!(sorted, expected);
}

#[test]
fn fixed_vector_arithmetic() {
    let v = fp(3, 4).as_vector_2d();
    let w = FixedVector2D { x: Fixed::from_int(2), y: Fixed::from_int(5) };
    assert_eq!(v.dot(&w).raw(), 26 * 65536);
    assert_eq!(v.len_squared().raw(), 25 * 65536);
    let s = v.add(w);
    assert_eq!((s.x.raw(), s.y.raw()), (5 * 65536, 9 * 65536));
    let d = v.sub(w);
    assert_eq!((d.x.raw(), d.y.raw()), (1 * 65536, -1 * 65536));
    let m = v.mul(Fixed::from_raw(0x8000)); // times 0.5
    assert_eq!((m.x.raw(), m.y.raw()), (3 * 32768, 4 * 32768));
    let d2 = fp(5, 7).sub(fp(2, 3));
    assert_eq!((d2.x.raw(), d2.y.raw()), (3 * 65536, 4 * 65536));
}

#[test]
fn fixed_signed_area_and_orientation() {
    assert_eq!(secret_data_tools::fixed_geom::signed_area(fp(0, 0), fp(1, 0), fp(0, 1)).raw(), 65536);
    let ccw = secret_data_tools::fixed_geom::is_counterclockwise;
    assert_eq!(ccw(&fp(0, 0), &fp(1, 0), &fp(0, 1)), Some(true));
    assert_eq!(ccw(&fp(0, 0), &fp(0, 1), &fp(1, 0)), Some(false));
    assert_eq!(ccw(&fp(0, 0), &fp(1, 1), &fp(2, 2)), None);
}

#[test]
fn fixed_segments_and_bbox() {
    assert_eq!(
        FixedLineSegment2D::new(fp(1, 1), fp(1, 1)).unwrap_err(),
        GeomError::DegenerateSegment
    );
    let s1 = FixedLineSegment2D::new(fp(0, 0), fp(10, 10)).unwrap();
    let s2 = FixedLineSegment2D::new(fp(0, 10), fp(10, 0)).unwrap();
    assert!(s1.intersects(&s2));
    // straddling only the supporting line is not a crossing
    let vertical = FixedLineSegment2D::new(fp(0, -1), fp(0, 1)).unwrap();
    let far_horizontal = FixedLineSegment2D::new(fp(10, 0), fp(20, 0)).unwrap();
    assert!(!vertical.intersects(&far_horizontal));
    let b = FixedBBox2D { lower_left: fp(0, 0), upper_right: fp(10, 10) };
    assert!(b.contains(&fp(5, 5)));
    assert!(!b.contains(&fp(11, 5)));
}

#[test]
fn fixed_polygon_contains() {
    let square =
        FixedPolygon2D::new(vec![fp(0, 0), fp(10, 0), fp(10, 10), fp(0, 10), fp(0, 0)]).unwrap();
    assert_eq!(square.len(), 5);
    assert!(square.contains(&fp(5, 5)));
    assert!(!square.contains(&fp(11, 5)));
    // the reordering is a permutation led by the anchor
    let mut sorted = square.as_counterclockwise_points();
    assert_eq!(sorted.len(), 5);
    assert_eq!(sorted[0], square.anchor);
    let key = |p: &FixedPoint2D| (p.x.raw(), p.y.raw());
    sorted.sort_by_key(key);
    let mut expected = vec![fp(0, 0), fp(10, 0), fp(10, 10), fp(0, 10), fp(0, 0)];
    expected.sort_by_key(key);
    assert_eq!(sorted, expected);
}

#[test]
fn fixed_polygon_contains_concave_shape() {
    let pentagon = FixedPolygon2D::new(vec![
        fp(0, 0),
        fp(30, 0),
        fp(30, 20),
        fp(20, 20),
        fp(25, 5),
        fp(0, 0),
    ])
    .unwrap();
    assert!(pentagon.contains(&fp(10, 1)));
    assert!(pentagon.contains(&fp(24, 3)));
    assert!(!pentagon.contains(&fp(10, 8)));
}

#[test]
fn stored_point_round_trip() {
    let p = fp(-3, 40);
    let stored = p.into_stored();
    assert_eq!(stored.x.len(), 4);
    assert_eq!(stored.into_humanized().unwrap(), p);
}

#[test]
fn stored_vector_round_trip() {
    let v = FixedVector2D { x: Fixed::from_raw(0x1_8000), y: Fixed::from_int(-7) };
    let stored = v.into_stored();
    assert_eq!(stored.into_humanized().unwrap(), v);
}

#[test]
fn stored_segment_and_bbox_round_trip() {
    let s = FixedLineSegment2D::new(fp(0, 0), fp(3, 4)).unwrap();
    assert_eq!(s.into_stored().into_humanized().unwrap(), s);
    let b = FixedBBox2D { lower_left: fp(-1, -2), upper_right: fp(3, 4) };
    assert_eq!(b.into_stored().into_humanized().unwrap(), b);
}

#[test]
fn stored_polygon_round_trip_and_malformed_vertex() {
    let poly =
        FixedPolygon2D::new(vec![fp(0, 0), fp(10, 0), fp(10, 10), fp(0, 10), fp(0, 0)]).unwrap();
    let stored = poly.into_stored();
    assert_eq!(stored.into_humanized().unwrap(), poly);
    let mut bad = poly.into_stored();
    bad.vertices[2].x = vec![0; 3];
    assert_eq!(bad.into_humanized().unwrap_err(), GeomError::DecodeError);
}

#[test]
fn geometry_errors_describe_themselves() {
    assert_eq!(GeomError::DegenerateSegment.describe(), "endpoints cannot be the same");
    assert_eq!(GeomError::TooFewVertices.describe(), "polygon must have at least 3 vertices");
    assert_eq!(GeomError::OpenRing.describe(), "first and last vertex must be the same");
    assert_eq!(GeomError::DecodeError.describe(), "malformed stored bytes");
}

#[test]
fn stored_point_rejects_wrong_length() {
    let p = fp(1, 2);
    let mut stored = p.into_stored();
    stored.y = vec![0; 8];
    assert_eq!(stored.into_humanized().unwrap_err(), GeomError::DecodeError);
}
