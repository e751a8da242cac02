use tetris::supply::TetrominoGenerator;
use tetris::tetronimo::{Shape, TetronimoState};

fn pop_shapes(gen: &mut TetrominoGenerator, n: usize) -> Vec<Shape> {
    let mut shapes = Vec::new();
    for _i in 0..n {
        shapes.push(gen.pop().shape);
    }
    shapes
}

fn is_one_full_bag(shapes: &[Shape]) -> bool {
    let mut sorted: Vec<Shape> = shapes.to_vec();
    sorted.sort();
    sorted.dedup();
    shapes.len() == 7 && sorted.len() == 7
}

#[test]
fn seven_pops_cover_every_shape_once() {
    let mut gen = TetrominoGenerator::new();
    let shapes = pop_shapes(&mut gen, 7);
    assert!(is_one_full_bag(&shapes));
}

#[test]
fn second_bag_is_fair_too() {
    let mut gen = TetrominoGenerator::new();
    let first = pop_shapes(&mut gen, 7);
    let second = pop_shapes(&mut gen, 7);
    assert!(is_one_full_bag(&first));
    assert!(is_one_full_bag(&second));
}

#[test]
fn peek_matches_later_pops() {
    let mut gen = TetrominoGenerator::new();
    let mut previews = Vec::new();
    for i in 0..10 {
        previews.push(gen.peek(i).shape);
    }
    for i in 0..10 {
        assert_eq!(previews[i], gen.pop().shape);
    }
}

#[test]
fn peek_does_not_consume() {
    let mut gen = TetrominoGenerator::new();
    let a = gen.peek(0).shape;
    let b = gen.peek(0).shape;
    assert_eq!(a, b);
    assert_eq!(a, gen.pop().shape);
}

#[test]
fn popped_pieces_start_out_of_play() {
    let mut gen = TetrominoGenerator::new();
    let piece = gen.pop();
    assert!(matches!(piece.state, TetronimoState::Nonexistant));
    assert_eq!(0, piece.origin.x);
    assert_eq!(0, piece.origin.y);
}

#[test]
fn far_lookahead_refills_repeatedly() {
    let mut gen = TetrominoGenerator::new();
    // index 20 needs three bags
    let _ = gen.peek(20);
    let shapes = pop_shapes(&mut gen, 21);
    assert!(is_one_full_bag(&shapes[0..7]));
    assert!(is_one_full_bag(&shapes[7..14]));
    assert!(is_one_full_bag(&shapes[14..21]));
}
