use tetris::point::Point;
use tetris::tetriscolor::Color;
use tetris::tetronimo::{Shape, Tetromino, TetronimoState, SlideDirection};
use tetris::transform::{Orientation, RotationDirection};

const ALL_SHAPES: [Shape; 7] = [
    Shape::O,
    Shape::I,
    Shape::T,
    Shape::L,
    Shape::J,
    Shape::S,
    Shape::Z,
];

#[test]
fn new_piece_is_a_placeholder() {
    let t = Tetromino::new();
    assert_eq!(Shape::O, t.shape);
    assert_eq!(Point::new(0, 0), t.origin);
    assert_eq!(Orientation::North, t.orientation);
    assert!(matches!(t.state, TetronimoState::Nonexistant));
}

#[test]
fn new_shape_keeps_identity() {
    let t = Tetromino::new_shape(Shape::S);
    assert_eq!(Shape::S, t.shape);
    assert_eq!(Orientation::North, t.orientation);
}

#[test]
fn put_moves_anchor_only() {
    let mut t = Tetromino::new_shape(Shape::L);
    t.put(Point::new(4, 7));
    assert_eq!(Point::new(4, 7), t.origin);
    assert_eq!(Shape::L, t.shape);
}

#[test]
fn slide_shifts_one_column() {
    let mut t = Tetromino::new_shape(Shape::T);
    t.put(Point::new(5, 5));
    t.slide(SlideDirection::Left);
    assert_eq!(Point::new(4, 5), t.origin);
    t.slide(SlideDirection::Right);
    t.slide(SlideDirection::Right);
    assert_eq!(Point::new(6, 5), t.origin);
}

#[test]
fn translate_adds_offset() {
    let mut t = Tetromino::new_shape(Shape::T);
    t.put(Point::new(5, 5));
    t.translate(&Point::new(-2, 1));
    assert_eq!(Point::new(3, 6), t.origin);
}

#[test]
fn move_down_drops_one_row() {
    let mut t = Tetromino::new_shape(Shape::Z);
    t.put(Point::new(5, 5));
    t.move_down();
    assert_eq!(Point::new(5, 4), t.origin);
}

#[test]
fn rotate_advances_orientation() {
    let mut t = Tetromino::new_shape(Shape::J);
    t.rotate(&RotationDirection::Clockwise);
    assert_eq!(Orientation::East, t.orientation);
    t.rotate(&RotationDirection::CounterClockwise);
    assert_eq!(Orientation::North, t.orientation);
    t.rotate(&RotationDirection::CounterClockwise);
    assert_eq!(Orientation::West, t.orientation);
}

#[test]
fn blocks_of_o_fill_a_square() {
    let mut t = Tetromino::new_shape(Shape::O);
    t.put(Point::new(3, 3));
    let bs = t.blocks();
    let points: Vec<Point> = bs.iter().map(|b| b.point).collect();
    assert_eq!(
        vec![
            Point::new(2, 3),
            Point::new(2, 2),
            Point::new(3, 3),
            Point::new(3, 2)
        ],
        points
    );
}

#[test]
fn blocks_of_i_lie_in_one_row() {
    let mut t = Tetromino::new_shape(Shape::I);
    t.put(Point::new(5, 5));
    let bs = t.blocks();
    let points: Vec<Point> = bs.iter().map(|b| b.point).collect();
    assert_eq!(
        vec![
            Point::new(3, 5),
            Point::new(4, 5),
            Point::new(5, 5),
            Point::new(6, 5)
        ],
        points
    );
}

#[test]
fn blocks_of_rotated_i_lie_in_one_column() {
    let mut t = Tetromino::new_shape(Shape::I);
    t.put(Point::new(5, 5));
    t.rotate(&RotationDirection::Clockwise);
    let bs = t.blocks();
    let points: Vec<Point> = bs.iter().map(|b| b.point).collect();
    assert_eq!(
        vec![
            Point::new(5, 6),
            Point::new(5, 5),
            Point::new(5, 4),
            Point::new(5, 3)
        ],
        points
    );
}

#[test]
fn blocks_are_pure() {
    let mut t = Tetromino::new_shape(Shape::S);
    t.put(Point::new(4, 9));
    t.state = TetronimoState::Falling;
    let first = t.blocks();
    let second = t.blocks();
    assert_eq!(first, second);
}

#[test]
fn color_follows_shape_table() {
    let mut t = Tetromino::new_shape(Shape::O);
    t.state = TetronimoState::Falling;
    assert_eq!(Color { red: 0, green: 0, blue: 10, alpha: 10 }, t.color());
    t.shape = Shape::T;
    assert_eq!(Color { red: 7, green: 7, blue: 0, alpha: 10 }, t.color());
    t.shape = Shape::I;
    assert_eq!(Color { red: 0, green: 7, blue: 7, alpha: 10 }, t.color());
    t.shape = Shape::L;
    assert_eq!(Color { red: 5, green: 7, blue: 7, alpha: 10 }, t.color());
    t.shape = Shape::J;
    assert_eq!(Color { red: 5, green: 0, blue: 7, alpha: 10 }, t.color());
    t.shape = Shape::S;
    assert_eq!(Color { red: 5, green: 3, blue: 0, alpha: 10 }, t.color());
    t.shape = Shape::Z;
    assert_eq!(Color { red: 0, green: 3, blue: 5, alpha: 10 }, t.color());
}

#[test]
fn color_alpha_follows_state() {
    let mut t = Tetromino::new_shape(Shape::O);
    assert_eq!(0, t.color().alpha);
    t.state = TetronimoState::Falling;
    assert_eq!(10, t.color().alpha);
    t.state = TetronimoState::Shadow;
    assert_eq!(2, t.color().alpha);
    t.state = TetronimoState::Locking;
    assert_eq!(10, t.color().alpha);
    t.state = TetronimoState::Frozen;
    assert_eq!(10, t.color().alpha);
}

#[test]
fn wall_kicks_for_i_north_clockwise_match_reference() {
    let t = Tetromino::new_shape(Shape::I);
    let kicks = t.wall_kick_options(&RotationDirection::Clockwise);
    assert_eq!(
        vec![
            Point::new(0, 0),
            Point::new(1, 0),
            Point::new(-2, 0),
            Point::new(1, -2),
            Point::new(-2, 1)
        ],
        kicks
    );
}

#[test]
fn wall_kicks_for_o_are_trivial() {
    let t = Tetromino::new_shape(Shape::O);
    assert_eq!(
        vec![Point::new(0, 0)],
        t.wall_kick_options(&RotationDirection::Clockwise)
    );
    assert_eq!(
        vec![Point::new(0, 0)],
        t.wall_kick_options(&RotationDirection::CounterClockwise)
    );
}

#[test]
fn first_wall_kick_is_always_the_identity() {
    for shape in ALL_SHAPES {
        let mut t = Tetromino::new_shape(shape);
        for _turn in 0..4 {
            for dir in [RotationDirection::Clockwise, RotationDirection::CounterClockwise] {
                let kicks = t.wall_kick_options(&dir);
                assert!(kicks.len() >= 1);
                assert_eq!(Point::new(0, 0), kicks[0]);
            }
            t.rotate(&RotationDirection::Clockwise);
        }
    }
}

#[test]
fn shared_table_differs_from_i_table() {
    let i = Tetromino::new_shape(Shape::I);
    let t = Tetromino::new_shape(Shape::T);
    let l = Tetromino::new_shape(Shape::L);
    let i_kicks = i.wall_kick_options(&RotationDirection::Clockwise);
    let t_kicks = t.wall_kick_options(&RotationDirection::Clockwise);
    let l_kicks = l.wall_kick_options(&RotationDirection::Clockwise);
    assert_ne!(i_kicks, t_kicks);
    assert_eq!(t_kicks, l_kicks);
}
