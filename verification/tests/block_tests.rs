use tetris::block::{into_block, transform_int, Block};
use tetris::point::Point;
use tetris::tetriscolor::Color;

#[test]
fn zero_to_zero() {
    assert_eq!(0i32, transform_int(0i32));
}

#[test]
fn two_to_one() {
    assert_eq!(1i32, transform_int(2i32));
}

#[test]
fn negative_two_to_one() {
    assert_eq!(-1i32, transform_int(-2i32));
}

#[test]
fn test_range() {
    let xrange = vec![4, 3, 2, 1, 0, -1, -2, -3, -4];
    let result = vec![2, 1, 1, 0, 0, -1, -1, -2, -2];

    for i in 0..xrange.len() {
        assert_eq!(result[i], transform_int(xrange[i]))
    }
}

#[test]
fn into_block_halves_both_axes() {
    assert_eq!(Point::new(1, -2), into_block(&Point::new(3, -3)));
    assert_eq!(Point::new(0, 0), into_block(&Point::new(1, 0)));
    assert_eq!(Point::new(-1, 1), into_block(&Point::new(-1, 2)));
}

#[test]
fn block_new_keeps_fields() {
    let c = Color::black();
    let p = Point::new(3, 4);
    let b = Block::new(c, p);
    assert_eq!(b.color, c);
    assert_eq!(b.point, p);
}
