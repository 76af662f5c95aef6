use linefollower::path::{Path, Point};

fn straight_path() -> Path {
    // A horizontal segment from (0, 0) to (100, 0) pixels, in
    // thousandths of a pixel.
    Path::new(vec![Point::new(0, 0), Point::new(100_000, 0)]).unwrap()
}

#[test]
fn path_new_rejects_too_few_points() {
    assert!(Path::new(vec![]).is_none());
    assert!(Path::new(vec![Point::new(1, 2)]).is_none());
}

#[test]
fn path_new_rejects_out_of_bounds_points() {
    assert!(Path::new(vec![Point::new(0, 0), Point::new(30_000_000, 0)]).is_none());
    assert!(Path::new(vec![Point::new(0, -30_000_000), Point::new(0, 0)]).is_none());
}

#[test]
fn path_new_accepts_two_points() {
    assert!(Path::new(vec![Point::new(0, 0), Point::new(1, 1)]).is_some());
}

#[test]
fn zero_radius_on_stored_point_hits() {
    let p = straight_path();
    // A circle of radius zero centered exactly on a stored point: the
    // distance is zero, within the half line width.
    assert!(p.intersects_circle(Point::new(0, 0), 0));
    assert!(p.intersects_circle(Point::new(100_000, 0), 0));
}

#[test]
fn far_center_misses_every_segment() {
    let p = straight_path();
    // 1000 pixels above the segment: far beyond radius + half line width.
    assert!(!p.intersects_circle(Point::new(0, 1_000_000), 0));
    assert!(!p.intersects_circle(Point::new(50_000, 1_000_000), 100));
}

#[test]
fn interior_projection_hit_and_miss() {
    let p = straight_path();
    // 20 px above the middle of the segment: inside the 30 px half width.
    assert!(p.intersects_circle(Point::new(50_000, 20_000), 0));
    // 40 px above: outside at radius 0, inside once the radius adds 20 px.
    assert!(!p.intersects_circle(Point::new(50_000, 40_000), 0));
    assert!(p.intersects_circle(Point::new(50_000, 40_000), 20_000));
}

#[test]
fn beyond_endpoint_clamps_to_endpoint() {
    let p = straight_path();
    // 40 px beyond the right endpoint along the axis: distance is to the
    // endpoint itself, 40 > 30 at radius 0, within 50 at radius 20.
    assert!(!p.intersects_circle(Point::new(140_000, 0), 0));
    assert!(p.intersects_circle(Point::new(140_000, 0), 20_000));
}

#[test]
fn reversed_segment_answers_identically() {
    // Storing the segment's endpoints in the opposite order changes no
    // query answer: the projection is recomputed consistently.
    let fwd = Path::new(vec![Point::new(0, 0), Point::new(100_000, 0)]).unwrap();
    let rev = Path::new(vec![Point::new(100_000, 0), Point::new(0, 0)]).unwrap();
    let queries = [
        (0, 0, 0),
        (100_000, 0, 0),
        (50_000, 20_000, 0),
        (50_000, 40_000, 0),
        (140_000, 0, 20_000),
        (-30_000, 10_000, 5_000),
        (70_000, -35_000, 1_000),
    ];
    for &(x, y, r) in queries.iter() {
        assert_eq!(
            fwd.intersects_circle(Point::new(x, y), r),
            rev.intersects_circle(Point::new(x, y), r)
        );
    }
}

#[test]
fn degenerate_segment_acts_as_point() {
    // Two coincident points: a zero-length segment, treated as a point.
    let p = Path::new(vec![Point::new(5_000, 5_000), Point::new(5_000, 5_000)]).unwrap();
    assert!(p.intersects_circle(Point::new(5_000, 25_000), 0));
    assert!(!p.intersects_circle(Point::new(5_000, 45_000), 0));
}
