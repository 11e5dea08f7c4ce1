use appshell::geometry::{clamp_coord, clamp_to_bounds, Point, Size};

// Coordinates are in thousandths of a logical point: 500.0 points is
// 500_000 units.

#[test]
fn clamp_pins_far_outside_point_to_edges() {
    // a cursor at (-50, 9999) against 500 x 500 content bounds is pinned
    // to (0, 500)
    let raw = Point { x: -50_000, y: 9_999_000 };
    let bounds = Size { width: 500_000, height: 500_000 };
    let r = clamp_to_bounds(raw, bounds);
    assert_eq!(r, Point { x: 0, y: 500_000 });
}

#[test]
fn clamp_keeps_inside_point_unchanged() {
    let raw = Point { x: 12_500, y: 499_999 };
    let bounds = Size { width: 500_000, height: 500_000 };
    assert_eq!(clamp_to_bounds(raw, bounds), raw);
}

#[test]
fn clamp_keeps_edge_points() {
    let bounds = Size { width: 640_000, height: 480_000 };
    assert_eq!(
        clamp_to_bounds(Point { x: 0, y: 480_000 }, bounds),
        Point { x: 0, y: 480_000 },
    );
    assert_eq!(
        clamp_to_bounds(Point { x: 640_000, y: 0 }, bounds),
        Point { x: 640_000, y: 0 },
    );
}

#[test]
fn clamp_handles_zero_bounds() {
    let bounds = Size { width: 0, height: 0 };
    assert_eq!(
        clamp_to_bounds(Point { x: -7, y: 9 }, bounds),
        Point { x: 0, y: 0 },
    );
}

#[test]
fn clamp_coord_each_region() {
    assert_eq!(clamp_coord(-1, 100), 0);
    assert_eq!(clamp_coord(0, 100), 0);
    assert_eq!(clamp_coord(55, 100), 55);
    assert_eq!(clamp_coord(100, 100), 100);
    assert_eq!(clamp_coord(101, 100), 100);
    assert_eq!(clamp_coord(i64::MIN, 100), 0);
    assert_eq!(clamp_coord(i64::MAX, 100), 100);
}
