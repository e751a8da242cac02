use tetris::block::Block;
use tetris::board::{GameBoard, RowPopulation};
use tetris::error::Error;
use tetris::point::Point;
use tetris::tetriscolor::Color;
use tetris::tetronimo::{Shape, Tetromino, TetronimoState};
use tetris::transform::{Orientation, RotationDirection};

#[test]
fn new_board() {
    let a = GameBoard::new(2, 3, 0);
    assert_eq!(6, a.blocks.len());
    let b = GameBoard::new(20, 10, 0);
    assert_eq!(200, b.blocks.len());
    let c = GameBoard::new(12, 5, 0);
    assert_eq!(60, c.blocks.len());
}

#[test]
fn copy_rows() {
    let mut board = GameBoard::new(2, 2, 0);
    let c1 = Color::black();
    let c2 = Color::white();
    board.blocks = vec![None, Some(c1), Some(c2), None];
    board.copy_row(0, 1);
    assert_eq!(vec![Some(c2), None, Some(c2), None], board.blocks);
}

#[test]
fn row_status_check() {
    let mut board = GameBoard::new(2, 3, 0);
    let c1 = Color::black();
    board.blocks = vec![None, None, Some(c1), None, Some(c1), Some(c1)];
    assert_eq!(RowPopulation::Empty, board.row_status(0));
    assert_eq!(RowPopulation::Mixed, board.row_status(1));
    assert_eq!(RowPopulation::Full, board.row_status(2));
}

#[test]
fn copy_row_past_top_clears() {
    let mut board = GameBoard::new(2, 2, 0);
    let c1 = Color::black();
    board.blocks = vec![Some(c1), Some(c1), None, None];
    board.copy_row(0, 5);
    assert_eq!(vec![None, None, None, None], board.blocks);
}

#[test]
fn height_excludes_hidden_rows() {
    let board = GameBoard::new(10, 22, 2);
    assert_eq!(20, board.height());
}

#[test]
fn index_in_bounds_is_row_major() {
    let board = GameBoard::new(3, 4, 0);
    assert_eq!(Ok(0), board.index(&Point::new(0, 0)));
    assert_eq!(Ok(7), board.index(&Point::new(1, 2)));
}

#[test]
fn index_out_of_bounds_errors() {
    let board = GameBoard::new(3, 4, 0);
    assert_eq!(Err(Error::OutOfBounds), board.index(&Point::new(-1, 0)));
    assert_eq!(Err(Error::OutOfBounds), board.index(&Point::new(0, -1)));
    assert_eq!(Err(Error::OutOfBounds), board.index(&Point::new(3, 0)));
    assert_eq!(Err(Error::OutOfBounds), board.index(&Point::new(0, 4)));
}

#[test]
fn wipe_removes_full_row_and_stops_at_empty() {
    // rows bottom to top: Mixed, Full, Empty
    let mut board = GameBoard::new(2, 3, 0);
    let c1 = Color::black();
    let c2 = Color::white();
    board.blocks = vec![Some(c1), None, Some(c2), Some(c2), None, None];
    board.wipe_full_rows();
    assert_eq!(vec![Some(c1), None, None, None, None, None], board.blocks);
}

#[test]
fn wipe_keeps_non_full_rows_in_order() {
    // rows bottom to top: Full, Mixed, Mixed
    let mut board = GameBoard::new(2, 3, 0);
    let c1 = Color::black();
    let c2 = Color::white();
    board.blocks = vec![Some(c1), Some(c1), Some(c2), None, None, Some(c1)];
    board.wipe_full_rows();
    assert_eq!(
        vec![Some(c2), None, None, Some(c1), None, None],
        board.blocks
    );
}

#[test]
fn wipe_leaves_untouched_board_alone() {
    let mut board = GameBoard::new(2, 2, 0);
    let c1 = Color::black();
    board.blocks = vec![Some(c1), None, None, None];
    board.wipe_full_rows();
    assert_eq!(vec![Some(c1), None, None, None], board.blocks);
}

fn falling(shape: Shape, x: i32, y: i32) -> Tetromino {
    let mut t = Tetromino::new_shape(shape);
    t.put(Point::new(x, y));
    t.state = TetronimoState::Falling;
    t
}

#[test]
fn check_piece_accepts_free_space() {
    let board = GameBoard::new(4, 4, 0);
    let piece = falling(Shape::O, 1, 1);
    assert!(board.check_piece(&piece));
}

#[test]
fn check_piece_rejects_left_wall() {
    let board = GameBoard::new(4, 4, 0);
    let piece = falling(Shape::O, 0, 1);
    assert!(!board.check_piece(&piece));
}

#[test]
fn check_piece_rejects_floor() {
    let board = GameBoard::new(4, 4, 0);
    let piece = falling(Shape::O, 1, 0);
    assert!(!board.check_piece(&piece));
}

#[test]
fn check_piece_rejects_right_wall() {
    let board = GameBoard::new(4, 4, 0);
    let piece = falling(Shape::O, 4, 1);
    assert!(!board.check_piece(&piece));
}

#[test]
fn check_piece_rejects_occupied_cell() {
    let mut board = GameBoard::new(4, 4, 0);
    let piece = falling(Shape::O, 1, 1);
    board.add_blocks(&vec![Block::new(Color::white(), Point::new(0, 0))]);
    assert!(!board.check_piece(&piece));
}

#[test]
fn add_blocks_sets_board_rest_alpha() {
    let mut board = GameBoard::new(2, 2, 0);
    let c = Color { red: 5, green: 7, blue: 7, alpha: 10 };
    board.add_blocks(&vec![Block::new(c, Point::new(1, 0))]);
    assert_eq!(
        Some(Color { red: 5, green: 7, blue: 7, alpha: 8 }),
        board.blocks[1]
    );
}

#[test]
fn add_blocks_paints_over_occupied_cell_black() {
    let mut board = GameBoard::new(2, 2, 0);
    let c = Color::white();
    board.add_blocks(&vec![Block::new(c, Point::new(0, 0))]);
    board.add_blocks(&vec![Block::new(c, Point::new(0, 0))]);
    assert_eq!(
        Some(Color { red: 0, green: 0, blue: 0, alpha: 8 }),
        board.blocks[0]
    );
}

#[test]
fn board_blocks_cover_visible_rows_with_default_color() {
    let mut board = GameBoard::new(2, 3, 1);
    let c = Color { red: 5, green: 3, blue: 0, alpha: 10 };
    board.add_blocks(&vec![Block::new(c, Point::new(1, 1))]);
    let cells = board.blocks();
    assert_eq!(4, cells.len());
    // row 0 is empty: default black, full alpha
    assert_eq!(Color { red: 0, green: 0, blue: 0, alpha: 10 }, cells[0].color);
    assert_eq!(Point::new(0, 0), cells[0].point);
    // the committed cell keeps its colour at the board-rest alpha
    assert_eq!(Color { red: 5, green: 3, blue: 0, alpha: 8 }, cells[3].color);
    assert_eq!(Point::new(1, 1), cells[3].point);
}

#[test]
fn kick_rotation_turns_piece_in_free_space() {
    let board = GameBoard::new(10, 22, 2);
    let piece = falling(Shape::T, 5, 5);
    let turned = board.kick_rotation(&piece, &RotationDirection::Clockwise);
    match turned {
        Some(t) => {
            assert_eq!(Orientation::East, t.orientation);
            assert_eq!(Point::new(5, 5), t.origin);
            assert_eq!(Shape::T, t.shape);
        }
        None => panic!("rotation in open space must succeed"),
    }
}

#[test]
fn lowest_fit_drops_to_floor() {
    let board = GameBoard::new(4, 8, 0);
    let piece = falling(Shape::O, 2, 5);
    let shadow = board.lowest_fit(&piece);
    assert_eq!(1, shadow.origin.y);
    assert_eq!(2, shadow.origin.x);
    assert!(matches!(shadow.state, TetronimoState::Shadow));
}

#[test]
fn lowest_fit_rests_on_locked_cells() {
    let mut board = GameBoard::new(4, 8, 0);
    board.add_blocks(&vec![Block::new(Color::white(), Point::new(1, 0))]);
    let piece = falling(Shape::O, 2, 5);
    let shadow = board.lowest_fit(&piece);
    assert_eq!(2, shadow.origin.y);
}
