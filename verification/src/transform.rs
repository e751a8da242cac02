use vstd::prelude::*;
use crate::point::Point;

verus! {

/// The four discrete orientations a piece can take, ordered clockwise.
#[derive(Debug, Clone, Copy, PartialEq, Eq, Structural)]
pub enum Orientation {
    North,
    East,
    South,
    West,
}

/// Which way a rotation turns; an input to rotation and kick lookup,
/// never stored state.
#[derive(Debug, Clone, Copy, PartialEq, Eq, Structural)]
pub enum RotationDirection {
    Clockwise,
    CounterClockwise,
}

/// A 2x2 integer matrix, row major.
#[derive(Debug, Clone, Copy, PartialEq, Eq, Structural)]
pub struct Matrix {
    pub m11: i32,
    pub m12: i32,
    pub m21: i32,
    pub m22: i32,
}

/// The exact 90-degree-multiple rotation each orientation stands for,
/// as a map on lattice coordinates.  North is the identity.
pub open spec fn spec_rotate(o: Orientation, x: int, y: int) -> (int, int) {
    match o {
        Orientation::North => (x, y),
        Orientation::East => (y, -x),
        Orientation::South => (-x, -y),
        Orientation::West => (-y, x),
    }
}

/// One step of rotation: the next orientation in the given direction.
pub open spec fn spec_next_orientation(o: Orientation, d: RotationDirection) -> Orientation {
    match d {
        RotationDirection::Clockwise => match o {
            Orientation::North => Orientation::East,
            Orientation::East => Orientation::South,
            Orientation::South => Orientation::West,
            Orientation::West => Orientation::North,
        },
        RotationDirection::CounterClockwise => match o {
            Orientation::North => Orientation::West,
            Orientation::West => Orientation::South,
            Orientation::South => Orientation::East,
            Orientation::East => Orientation::North,
        },
    }
}

pub open spec fn spec_matrix(o: Orientation) -> Matrix {
    match o {
        Orientation::North => (Matrix { m11: 1, m12: 0, m21: 0, m22: 1 }),
        Orientation::East => (Matrix { m11: 0, m12: 1, m21: -1i32, m22: 0 }),
        Orientation::South => (Matrix { m11: -1i32, m12: 0, m21: 0, m22: -1i32 }),
        Orientation::West => (Matrix { m11: 0, m12: -1i32, m21: 1, m22: 0 }),
    }
}

fn rotation_matrix(o: &Orientation) -> (m: Matrix)
    ensures
        m == spec_matrix(*o),
{
    match *o {
        Orientation::North => Matrix { m11: 1, m12: 0, m21: 0, m22: 1 },
        Orientation::East => Matrix { m11: 0, m12: 1, m21: -1, m22: 0 },
        Orientation::South => Matrix { m11: -1, m12: 0, m21: 0, m22: -1 },
        Orientation::West => Matrix { m11: 0, m12: -1, m21: 1, m22: 0 },
    }
}

/// Rotate a lattice point by the exact rotation of the given
/// orientation.  The rotations negate coordinates, so `i32::MIN`
/// (which has no negation) is excluded.
pub fn transform(point: &Point, orientation: &Orientation) -> (r: Point)
    requires
        point.x > i32::MIN,
        point.y > i32::MIN,
    ensures
        (r.x as int, r.y as int) == spec_rotate(*orientation, point.x as int, point.y as int),
{
    let m = rotation_matrix(orientation);
    proof {
        assert((
            m.m11 == 1 && m.m12 == 0 && m.m21 == 0 && m.m22 == 1
        ) || (
            m.m11 == 0 && m.m12 == 1 && m.m21 == -1 && m.m22 == 0
        ) || (
            m.m11 == -1 && m.m12 == 0 && m.m21 == 0 && m.m22 == -1
        ) || (
            m.m11 == 0 && m.m12 == -1 && m.m21 == 1 && m.m22 == 0
        ));
    }
    Point {
        x: m.m11 * point.x + m.m12 * point.y,
        y: m.m21 * point.x + m.m22 * point.y,
    }
}

/// Advance an orientation one step in the given direction.
pub fn rotate(o: &Orientation, d: &RotationDirection) -> (r: Orientation)
    ensures
        r == spec_next_orientation(*o, *d),
{
    match *d {
        RotationDirection::Clockwise => match *o {
            Orientation::North => Orientation::East,
            Orientation::East => Orientation::South,
            Orientation::South => Orientation::West,
            Orientation::West => Orientation::North,
        },
        RotationDirection::CounterClockwise => match *o {
            Orientation::North => Orientation::West,
            Orientation::West => Orientation::South,
            Orientation::South => Orientation::East,
            Orientation::East => Orientation::North,
        },
    }
}

/// Eight lattice points forming a compass ring around the origin,
/// listed clockwise starting from straight up.
pub open spec fn compass_ring() -> Seq<(int, int)> {
    seq![(0, 1), (1, 1), (1, 0), (1, -1), (0, -1), (-1, -1), (-1, 0), (-1, 1)]
}

/// Rotating the compass ring by North leaves each point in place;
/// rotating by East, South or West shifts the ring cyclically by
/// two, four or six positions.
pub proof fn lemma_rotation_ring(i: int)
    requires
        0 <= i < 8,
    ensures
        spec_rotate(Orientation::North, compass_ring()[i].0, compass_ring()[i].1)
            == compass_ring()[i],
        spec_rotate(Orientation::East, compass_ring()[i].0, compass_ring()[i].1)
            == compass_ring()[(i + 2) % 8],
        spec_rotate(Orientation::South, compass_ring()[i].0, compass_ring()[i].1)
            == compass_ring()[(i + 4) % 8],
        spec_rotate(Orientation::West, compass_ring()[i].0, compass_ring()[i].1)
            == compass_ring()[(i + 6) % 8],
{
    if i == 0 {
    } else if i == 1 {
    } else if i == 2 {
    } else if i == 3 {
    } else if i == 4 {
    } else if i == 5 {
    } else if i == 6 {
    } else {
        assert(i == 7);
    }
}

} // verus!
