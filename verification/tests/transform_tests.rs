use tetris::point::Point;
use tetris::transform::{rotate, transform, Orientation, RotationDirection};

fn test_star() -> Vec<Point> {
    vec![
        Point::new(0, 1),
        Point::new(1, 1),
        Point::new(1, 0),
        Point::new(1, -1),
        Point::new(0, -1),
        Point::new(-1, -1),
        Point::new(-1, 0),
        Point::new(-1, 1),
    ]
}

#[test]
fn transform_north() {
    let rotation = Orientation::North;
    let test_points = test_star();
    for i in 0..test_points.len() {
        let p = test_points[i];
        assert_eq!(p, transform(&p, &rotation));
    }
}

#[test]
fn transform_east() {
    let rotation = Orientation::East;
    let test_points = test_star();
    for i in 0..test_points.len() {
        let p = test_points[i];
        let p_east = test_points[(i + 2) % test_points.len()];
        assert_eq!(p_east, transform(&p, &rotation));
    }
}

#[test]
fn transform_south() {
    let rotation = Orientation::South;
    let test_points = test_star();
    for i in 0..test_points.len() {
        let p = test_points[i];
        let p_south = test_points[(i + 4) % test_points.len()];
        assert_eq!(p_south, transform(&p, &rotation));
    }
}

#[test]
fn transform_west() {
    let rotation = Orientation::West;
    let test_points = test_star();
    for i in 0..test_points.len() {
        let p = test_points[i];
        let p_west = test_points[(i + 6) % test_points.len()];
        assert_eq!(p_west, transform(&p, &rotation));
    }
}

#[test]
fn rotate_steps_clockwise_through_all_orientations() {
    let mut o = Orientation::North;
    o = rotate(&o, &RotationDirection::Clockwise);
    assert_eq!(o, Orientation::East);
    o = rotate(&o, &RotationDirection::Clockwise);
    assert_eq!(o, Orientation::South);
    o = rotate(&o, &RotationDirection::Clockwise);
    assert_eq!(o, Orientation::West);
    o = rotate(&o, &RotationDirection::Clockwise);
    assert_eq!(o, Orientation::North);
}

#[test]
fn rotate_counter_clockwise_inverts_clockwise() {
    for o in [Orientation::North, Orientation::East, Orientation::South, Orientation::West] {
        let there = rotate(&o, &RotationDirection::Clockwise);
        let back = rotate(&there, &RotationDirection::CounterClockwise);
        assert_eq!(o, back);
    }
}

#[test]
fn add_i32() {
    let p = Point::new(1i32, 2i32);
    let r = Point::new(3i32, 4i32);
    let s = p.add(r);
    assert_eq!(s.x, 4i32);
    assert_eq!(s.y, 6i32);
}

#[test]
fn point_i32_origin() {
    let p: Point = Point::origin();
    assert_eq!(p.x, 0i32);
    assert_eq!(p.y, 0i32);
}
