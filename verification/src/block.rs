use vstd::prelude::*;
use crate::point::Point;
use crate::tetriscolor::Color;

verus! {

/// One occupied cell: a board-space position together with the colour
/// it is drawn in.
#[derive(Debug, Clone, Copy, PartialEq, Eq, Structural)]
pub struct Block {
    pub color: Color,
    pub point: Point,
}

impl Block {
    pub fn new(c: Color, p: Point) -> (r: Block)
        ensures
            r.color == c,
            r.point == p,
    {
        Block { color: c, point: p }
    }
}

/// Halving with floor rounding: the map from the fine piece lattice
/// (two units per cell) down to whole board cells.
pub open spec fn spec_half(x: int) -> int {
    x / 2
}

/// Halve one coordinate, rounding toward negative infinity
/// (so -1 maps to -1 and -2 maps to -1).
pub fn transform_int(x: i32) -> (r: i32)
    ensures
        r as int == spec_half(x as int),
{
    proof {
        assert((x >> 1u32) as int == x as int / 2) by (bit_vector);
    }
    x >> 1u32
}

/// Map a point of the fine piece lattice to the board cell it lies in.
pub fn into_block(point: &Point) -> (r: Point)
    ensures
        r.x as int == spec_half(point.x as int),
        r.y as int == spec_half(point.y as int),
{
    Point::new(transform_int(point.x), transform_int(point.y))
}

} // verus!
