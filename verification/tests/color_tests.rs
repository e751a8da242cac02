use tetris::error::Error;
use tetris::tetriscolor::Color;

#[test]
fn as_list_orders_channels() {
    let c = Color { red: 1, green: 2, blue: 3, alpha: 4 };
    assert_eq!([1, 2, 3, 4], c.as_list());
}

#[test]
fn black_is_opaque() {
    assert_eq!(Color { red: 0, green: 0, blue: 0, alpha: 10 }, Color::black());
}

#[test]
fn white_is_opaque() {
    assert_eq!(Color { red: 10, green: 10, blue: 10, alpha: 10 }, Color::white());
}

#[test]
fn out_of_bounds_has_a_message() {
    let e = Error::OutOfBounds;
    assert_eq!("tetromino out of bounds", e.message());
}
