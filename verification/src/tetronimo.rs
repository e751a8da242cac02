use vstd::prelude::*;
use crate::block::{self, Block};
use crate::point::Point;
use crate::tetriscolor::Color;
use crate::transform::{self, Orientation, RotationDirection};

verus! {

/// Lifecycle tag of a piece.  It only gates how the piece is drawn
/// (its alpha); collision and movement never consult it.
#[derive(Debug, Clone, Copy, PartialEq, Eq, Structural)]
pub enum TetronimoState {
    Falling,
    Shadow,
    Locking,
    Frozen,
    Nonexistant,
}

/// The seven canonical tetromino identities.
#[derive(Debug, Clone, Copy, PartialEq, Eq, PartialOrd, Ord, Structural)]
pub enum Shape {
    O,
    T,
    I,
    L,
    J,
    S,
    Z,
}

#[derive(Debug, Clone, Copy, PartialEq, Eq, Structural)]
pub enum SlideDirection {
    Left,
    Right,
}

/// A falling piece: an immutable shape identity, a board-space anchor,
/// an orientation and a lifecycle tag.  Its occupied cells are always
/// recomputed from these four fields; there is no hidden cell list.
#[derive(Debug, Clone, Copy, PartialEq, Eq, Structural)]
pub struct Tetromino {
    pub shape: Shape,
    pub origin: Point,
    pub orientation: Orientation,
    pub state: TetronimoState,
}

/// Each shape's four canonical lattice offsets, in the fine lattice of
/// two units per cell, relative to the piece's pivot.
pub open spec fn spec_points(s: Shape) -> Seq<Point> {
    match s {
        Shape::O => seq![
            Point { x: -1i32, y: 1 },
            Point { x: -1i32, y: -1i32 },
            Point { x: 1, y: 1 },
            Point { x: 1, y: -1i32 },
        ],
        Shape::I => seq![
            Point { x: -3i32, y: 1 },
            Point { x: -1i32, y: 1 },
            Point { x: 1, y: 1 },
            Point { x: 3, y: 1 },
        ],
        Shape::T => seq![
            Point { x: 0, y: 0 },
            Point { x: -2i32, y: 0 },
            Point { x: 2, y: 0 },
            Point { x: 0, y: 2 },
        ],
        Shape::L => seq![
            Point { x: 0, y: 0 },
            Point { x: -2i32, y: 0 },
            Point { x: 2, y: 0 },
            Point { x: 2, y: 2 },
        ],
        Shape::J => seq![
            Point { x: 0, y: 0 },
            Point { x: -2i32, y: 0 },
            Point { x: 2, y: 0 },
            Point { x: -2i32, y: 2 },
        ],
        Shape::S => seq![
            Point { x: 0, y: 0 },
            Point { x: -2i32, y: 0 },
            Point { x: 0, y: 2 },
            Point { x: 2, y: 2 },
        ],
        Shape::Z => seq![
            Point { x: 0, y: 2 },
            Point { x: -2i32, y: 2 },
            Point { x: 0, y: 0 },
            Point { x: 2, y: 0 },
        ],
    }
}

/// The board cell (pivot-relative) that one canonical offset lands in
/// under the given orientation: rotate exactly, then halve with floor
/// rounding.
pub open spec fn spec_cell(o: Orientation, p: Point) -> (int, int) {
    let r = transform::spec_rotate(o, p.x as int, p.y as int);
    (block::spec_half(r.0), block::spec_half(r.1))
}

/// Alpha channel (in tenths) drawn for each lifecycle tag.
pub open spec fn spec_alpha(st: TetronimoState) -> u8 {
    match st {
        TetronimoState::Falling => 10,
        TetronimoState::Shadow => 2,
        TetronimoState::Locking => 10,
        TetronimoState::Frozen => 10,
        TetronimoState::Nonexistant => 0,
    }
}

/// The fixed colour of each shape, with alpha taken from the
/// lifecycle tag.  Channels are in tenths.
pub open spec fn spec_color(s: Shape, st: TetronimoState) -> Color {
    let a = spec_alpha(st);
    match s {
        Shape::O => (Color { red: 0, green: 0, blue: 10, alpha: a }),
        Shape::T => (Color { red: 7, green: 7, blue: 0, alpha: a }),
        Shape::I => (Color { red: 0, green: 7, blue: 7, alpha: a }),
        Shape::L => (Color { red: 5, green: 7, blue: 7, alpha: a }),
        Shape::J => (Color { red: 5, green: 0, blue: 7, alpha: a }),
        Shape::S => (Color { red: 5, green: 3, blue: 0, alpha: a }),
        Shape::Z => (Color { red: 0, green: 3, blue: 5, alpha: a }),
    }
}

/// A freshly materialized piece of the given shape: at the origin,
/// facing North, not yet in play.
pub open spec fn spec_new_shape(shape: Shape) -> Tetromino {
    Tetromino {
        shape: shape,
        origin: Point { x: 0, y: 0 },
        orientation: Orientation::North,
        state: TetronimoState::Nonexistant,
    }
}

impl Tetromino {
    /// The board-space coordinates of the piece's `j`-th block, as
    /// unbounded integers.
    pub open spec fn block_pt(self, j: int) -> (int, int) {
        let c = spec_cell(self.orientation, spec_points(self.shape)[j]);
        (self.origin.x + c.0, self.origin.y + c.1)
    }

    /// Room for the pivot-relative cells, which lie within -2..=1 of
    /// the anchor on each axis: the widest range the machine admits.
    pub open spec fn origin_in_range(self) -> bool {
        &&& i32::MIN + 2 <= self.origin.x <= i32::MAX - 1
        &&& i32::MIN + 2 <= self.origin.y <= i32::MAX - 1
    }

    /// Creates a dummy tetromino.
    pub fn new() -> (r: Self)
        ensures
            r == (Tetromino {
                shape: Shape::O,
                origin: Point { x: 0, y: 0 },
                orientation: Orientation::North,
                state: TetronimoState::Nonexistant,
            }),
    {
        Tetromino {
            shape: Shape::O,
            origin: Point::origin(),
            orientation: Orientation::North,
            state: TetronimoState::Nonexistant,
        }
    }

    /// Creates a tetromino with a desired shape.
    pub fn new_shape(shape: Shape) -> (r: Self)
        ensures
            r == (Tetromino {
                shape: shape,
                origin: Point { x: 0, y: 0 },
                orientation: Orientation::North,
                state: TetronimoState::Nonexistant,
            }),
    {
        Tetromino {
            shape: shape,
            origin: Point::origin(),
            orientation: Orientation::North,
            state: TetronimoState::Nonexistant,
        }
    }

    /// Move the piece's anchor to the given board position.
    pub fn put(&mut self, p: Point)
        ensures
            final(self).origin == p,
            final(self).shape == old(self).shape,
            final(self).orientation == old(self).orientation,
            final(self).state == old(self).state,
    {
        self.origin = p;
    }

    /// Colour of the tetromino.
    pub fn color(&self) -> (c: Color)
        ensures
            c == spec_color(self.shape, self.state),
    {
        let alpha: u8 = match self.state {
            TetronimoState::Falling => 10,
            TetronimoState::Shadow => 2,
            TetronimoState::Locking => 10,
            TetronimoState::Frozen => 10,
            TetronimoState::Nonexistant => 0,
        };

        match self.shape {
            Shape::O => Color { red: 0, green: 0, blue: 10, alpha: alpha },
            Shape::T => Color { red: 7, green: 7, blue: 0, alpha: alpha },
            Shape::I => Color { red: 0, green: 7, blue: 7, alpha: alpha },
            Shape::L => Color { red: 5, green: 7, blue: 7, alpha: alpha },
            Shape::J => Color { red: 5, green: 0, blue: 7, alpha: alpha },
            Shape::S => Color { red: 5, green: 3, blue: 0, alpha: alpha },
            Shape::Z => Color { red: 0, green: 3, blue: 5, alpha: alpha },
        }
    }

    /// Shift the anchor one column left or right; validity is the
    /// caller's responsibility.
    pub fn slide(&mut self, direction: SlideDirection)
        requires
            direction is Left ==> old(self).origin.x > i32::MIN,
            direction is Right ==> old(self).origin.x < i32::MAX,
        ensures
            direction is Left ==> final(self).origin.x == old(self).origin.x - 1,
            direction is Right ==> final(self).origin.x == old(self).origin.x + 1,
            final(self).origin.y == old(self).origin.y,
            final(self).shape == old(self).shape,
            final(self).orientation == old(self).orientation,
            final(self).state == old(self).state,
    {
        match direction {
            SlideDirection::Left => self.origin.x = self.origin.x - 1,
            SlideDirection::Right => self.origin.x = self.origin.x + 1,
        }
    }

    /// Shift the anchor by the given offset.
    pub fn translate(&mut self, offset: &Point)
        requires
            i32::MIN <= old(self).origin.x + offset.x <= i32::MAX,
            i32::MIN <= old(self).origin.y + offset.y <= i32::MAX,
        ensures
            final(self).origin.x == old(self).origin.x + offset.x,
            final(self).origin.y == old(self).origin.y + offset.y,
            final(self).shape == old(self).shape,
            final(self).orientation == old(self).orientation,
            final(self).state == old(self).state,
    {
        self.origin = self.origin.add(*offset);
    }

    /// Advance the orientation one step; the caller re-checks
    /// collision and applies a kick if needed.
    pub fn rotate(&mut self, rotation: &RotationDirection)
        ensures
            final(self).orientation
                == transform::spec_next_orientation(old(self).orientation, *rotation),
            final(self).origin == old(self).origin,
            final(self).shape == old(self).shape,
            final(self).state == old(self).state,
    {
        self.orientation = transform::rotate(&self.orientation, rotation);
    }

    /// The ordered candidate kick offsets for rotating this piece in
    /// the given direction from its current orientation.
    pub fn wall_kick_options(&self, direction: &RotationDirection) -> (r: Vec<Point>)
        ensures
            r@ == spec_wall_kicks(self.shape, self.orientation, *direction),
    {
        wall_kicks(&self.shape, &self.orientation, direction)
    }

    /// Drop the anchor one row; validity is the caller's
    /// responsibility.
    pub fn move_down(&mut self)
        requires
            old(self).origin.y > i32::MIN,
        ensures
            final(self).origin.y == old(self).origin.y - 1,
            final(self).origin.x == old(self).origin.x,
            final(self).shape == old(self).shape,
            final(self).orientation == old(self).orientation,
            final(self).state == old(self).state,
    {
        self.origin.y = self.origin.y - 1;
    }

    /// Exactly the blocks `blocks` returns, as a predicate on the
    /// result: four entries, each carrying the piece's colour and
    /// the board-space cell of the matching canonical offset.
    pub open spec fn is_blocks_of(self, r: Seq<Block>) -> bool {
        &&& r.len() == 4
        &&& forall|j: int| 0 <= j < 4 ==> {
            &&& (#[trigger] r[j]).color == spec_color(self.shape, self.state)
            &&& r[j].point.x as int == self.block_pt(j).0
            &&& r[j].point.y as int == self.block_pt(j).1
        }
    }

    /// The four cells the piece occupies, in board space, each paired
    /// with the piece's colour.  A pure function of shape, anchor,
    /// orientation and lifecycle tag.
    pub fn blocks(&self) -> (r: Vec<Block>)
        requires
            self.origin_in_range(),
        ensures
            self.is_blocks_of(r@),
            r@.len() == 4,
            forall|j: int| 0 <= j < 4 ==> {
                &&& (#[trigger] r@[j]).color == spec_color(self.shape, self.state)
                &&& r@[j].point.x as int == self.block_pt(j).0
                &&& r@[j].point.y as int == self.block_pt(j).1
            },
    {
        let color = self.color();
        let pts = tetronimo_points(self.shape);
        let mut r: Vec<Block> = Vec::new();
        let mut i: usize = 0;
        while i < 4
            invariant
                self.origin_in_range(),
                pts@ == spec_points(self.shape),
                pts@.len() == 4,
                color == spec_color(self.shape, self.state),
                i <= 4,
                r@.len() == i,
                forall|j: int| 0 <= j < i ==> {
                    &&& (#[trigger] r@[j]).color == spec_color(self.shape, self.state)
                    &&& r@[j].point.x as int == self.block_pt(j).0
                    &&& r@[j].point.y as int == self.block_pt(j).1
                },
            decreases 4 - i,
        {
            proof {
                lemma_offset_bounds(self.shape, i as int);
                lemma_cell_bounds(self.shape, self.orientation, i as int);
            }
            let p = pts[i];
            let tetronimo_space = transform::transform(&p, &self.orientation);
            let block_space = block::into_block(&tetronimo_space);
            let final_point = Point::new(self.origin.x + block_space.x, self.origin.y + block_space.y);
            r.push(Block::new(color, final_point));
            i = i + 1;
        }
        r
    }
}

/// Querying a piece's blocks is pure: without a mutation in between,
/// two results for the same piece are identical.
pub proof fn lemma_blocks_pure(p: Tetromino, r1: Seq<Block>, r2: Seq<Block>)
    requires
        p.is_blocks_of(r1),
        p.is_blocks_of(r2),
    ensures
        r1 == r2,
{
    assert forall|j: int| 0 <= j < 4 implies r1[j] == r2[j] by {
        assert(r1[j].point.x == r2[j].point.x);
        assert(r1[j].point.y == r2[j].point.y);
        assert(r1[j].color == r2[j].color);
    }
    assert(r1 =~= r2);
}

/// Each canonical offset lies within three fine-lattice units of the
/// pivot on both axes.
pub proof fn lemma_offset_bounds(s: Shape, j: int)
    requires
        0 <= j < 4,
    ensures
        -3 <= spec_points(s)[j].x <= 3,
        -3 <= spec_points(s)[j].y <= 3,
{
    match s {
        Shape::O => {},
        Shape::I => {},
        Shape::T => {},
        Shape::L => {},
        Shape::J => {},
        Shape::S => {},
        Shape::Z => {},
    }
}

/// After rotation and floor halving, every canonical offset lands in
/// a cell within -2..=1 of the anchor on both axes.
pub proof fn lemma_cell_bounds(s: Shape, o: Orientation, j: int)
    requires
        0 <= j < 4,
    ensures
        -2 <= spec_cell(o, spec_points(s)[j]).0 <= 1,
        -2 <= spec_cell(o, spec_points(s)[j]).1 <= 1,
{
    lemma_offset_bounds(s, j);
    let p = spec_points(s)[j];
    let r = transform::spec_rotate(o, p.x as int, p.y as int);
    match o {
        Orientation::North => {},
        Orientation::East => {},
        Orientation::South => {},
        Orientation::West => {},
    }
    assert(-3 <= r.0 <= 3 && -3 <= r.1 <= 3);
}

// All the following information is from the SRS rotation model.
// Reference https://tetris.wiki/SRS

/// The ordered kick candidates for each shape, orientation and
/// rotation direction.  The O piece never needs a kick; the I piece
/// has its own wider table; the five 3x3-bounded shapes share one.
/// These offsets are reference data, reproduced verbatim.
pub open spec fn spec_wall_kicks(shape: Shape, orientation: Orientation, direction: RotationDirection) -> Seq<Point> {
    match shape {
        Shape::I => match (orientation, direction) {
            (Orientation::North, RotationDirection::Clockwise) => seq![
                Point { x: 0, y: 0 },
                Point { x: 1, y: 0 },
                Point { x: -2i32, y: 0 },
                Point { x: 1, y: -2i32 },
                Point { x: -2i32, y: 1 },
            ],
            (Orientation::North, RotationDirection::CounterClockwise) => seq![
                Point { x: 0, y: 0 },
                Point { x: 2, y: 0 },
                Point { x: -1i32, y: 0 },
                Point { x: 2, y: 1 },
                Point { x: -1i32, y: -2i32 },
            ],
            (Orientation::East, RotationDirection::Clockwise) => seq![
                Point { x: 0, y: 0 },
                Point { x: -2i32, y: 0 },
                Point { x: 1, y: 0 },
                Point { x: -2i32, y: -1i32 },
                Point { x: 1, y: 2 },
            ],
            (Orientation::East, RotationDirection::CounterClockwise) => seq![
                Point { x: 0, y: 0 },
                Point { x: 1, y: 0 },
                Point { x: -2i32, y: 0 },
                Point { x: 1, y: -2i32 },
                Point { x: -2i32, y: 1 },
            ],
            (Orientation::South, RotationDirection::Clockwise) => seq![
                Point { x: 0, y: 0 },
                Point { x: -1i32, y: 0 },
                Point { x: 2, y: 0 },
                Point { x: -1i32, y: 2 },
                Point { x: 2, y: -1i32 },
            ],
            (Orientation::South, RotationDirection::CounterClockwise) => seq![
                Point { x: 0, y: 0 },
                Point { x: -2i32, y: 0 },
                Point { x: 1, y: 0 },
                Point { x: -2i32, y: -1i32 },
                Point { x: 1, y: 2 },
            ],
            (Orientation::West, RotationDirection::Clockwise) => seq![
                Point { x: 0, y: 0 },
                Point { x: 2, y: 0 },
                Point { x: -1i32, y: 0 },
                Point { x: 2, y: 1 },
                Point { x: -1i32, y: -2i32 },
            ],
            (Orientation::West, RotationDirection::CounterClockwise) => seq![
                Point { x: 0, y: 0 },
                Point { x: -1i32, y: 0 },
                Point { x: 2, y: 0 },
                Point { x: -1i32, y: 2 },
                Point { x: 2, y: -1i32 },
            ],
        },
        Shape::O => seq![Point { x: 0, y: 0 }],
        _ => match (orientation, direction) {
            (Orientation::North, RotationDirection::Clockwise) => seq![
                Point { x: 0, y: 0 },
                Point { x: -1i32, y: 0 },
                Point { x: -1i32, y: -1i32 },
                Point { x: 0, y: 2 },
                Point { x: -1i32, y: 2 },
            ],
            (Orientation::North, RotationDirection::CounterClockwise) => seq![
                Point { x: 0, y: 0 },
                Point { x: 1, y: 0 },
                Point { x: 1, y: -1i32 },
                Point { x: 0, y: 2 },
                Point { x: 1, y: 2 },
            ],
            (Orientation::East, RotationDirection::Clockwise) => seq![
                Point { x: 0, y: 0 },
                Point { x: -1i32, y: 0 },
                Point { x: -1i32, y: 1 },
                Point { x: 0, y: -2i32 },
                Point { x: -1i32, y: -2i32 },
            ],
            (Orientation::East, RotationDirection::CounterClockwise) => seq![
                Point { x: 0, y: 0 },
                Point { x: -1i32, y: 0 },
                Point { x: -1i32, y: 1 },
                Point { x: 0, y: -2i32 },
                Point { x: -1i32, y: -2i32 },
            ],
            (Orientation::South, RotationDirection::Clockwise) => seq![
                Point { x: 0, y: 0 },
                Point { x: 1, y: 0 },
                Point { x: 1, y: -1i32 },
                Point { x: 0, y: 2 },
                Point { x: 1, y: 2 },
            ],
            (Orientation::South, RotationDirection::CounterClockwise) => seq![
                Point { x: 0, y: 0 },
                Point { x: -1i32, y: 0 },
                Point { x: -1i32, y: -1i32 },
                Point { x: 0, y: 2 },
                Point { x: -1i32, y: 2 },
            ],
            (Orientation::West, RotationDirection::Clockwise) => seq![
                Point { x: 0, y: 0 },
                Point { x: 1, y: 0 },
                Point { x: 1, y: 1 },
                Point { x: 0, y: -2i32 },
                Point { x: 1, y: -2i32 },
            ],
            (Orientation::West, RotationDirection::CounterClockwise) => seq![
                Point { x: 0, y: 0 },
                Point { x: 1, y: 0 },
                Point { x: 1, y: 1 },
                Point { x: 0, y: -2i32 },
                Point { x: 1, y: -2i32 },
            ],
        },
    }
}

/// A same-position rotation is always tried first: every kick list
/// starts with the zero offset.
pub proof fn lemma_first_kick_identity(s: Shape, o: Orientation, d: RotationDirection)
    ensures
        spec_wall_kicks(s, o, d).len() >= 1,
        spec_wall_kicks(s, o, d)[0] == (Point { x: 0, y: 0 }),
{
    match s {
        Shape::O => {},
        Shape::I => {
            match (o, d) {
                (Orientation::North, RotationDirection::Clockwise) => {},
                (Orientation::North, RotationDirection::CounterClockwise) => {},
                (Orientation::East, RotationDirection::Clockwise) => {},
                (Orientation::East, RotationDirection::CounterClockwise) => {},
                (Orientation::South, RotationDirection::Clockwise) => {},
                (Orientation::South, RotationDirection::CounterClockwise) => {},
                (Orientation::West, RotationDirection::Clockwise) => {},
                (Orientation::West, RotationDirection::CounterClockwise) => {},
            }
        },
        _ => {
            match (o, d) {
                (Orientation::North, RotationDirection::Clockwise) => {},
                (Orientation::North, RotationDirection::CounterClockwise) => {},
                (Orientation::East, RotationDirection::Clockwise) => {},
                (Orientation::East, RotationDirection::CounterClockwise) => {},
                (Orientation::South, RotationDirection::Clockwise) => {},
                (Orientation::South, RotationDirection::CounterClockwise) => {},
                (Orientation::West, RotationDirection::Clockwise) => {},
                (Orientation::West, RotationDirection::CounterClockwise) => {},
            }
        },
    }
}

/// Every kick offset lies within two cells of the original position
/// on both axes.
pub proof fn lemma_kick_bounds(s: Shape, o: Orientation, d: RotationDirection, k: int)
    requires
        0 <= k < spec_wall_kicks(s, o, d).len(),
    ensures
        -2 <= spec_wall_kicks(s, o, d)[k].x <= 2,
        -2 <= spec_wall_kicks(s, o, d)[k].y <= 2,
{
    match s {
        Shape::O => {},
        Shape::I => {
            match (o, d) {
                (Orientation::North, RotationDirection::Clockwise) => {},
                (Orientation::North, RotationDirection::CounterClockwise) => {},
                (Orientation::East, RotationDirection::Clockwise) => {},
                (Orientation::East, RotationDirection::CounterClockwise) => {},
                (Orientation::South, RotationDirection::Clockwise) => {},
                (Orientation::South, RotationDirection::CounterClockwise) => {},
                (Orientation::West, RotationDirection::Clockwise) => {},
                (Orientation::West, RotationDirection::CounterClockwise) => {},
            }
        },
        _ => {
            match (o, d) {
                (Orientation::North, RotationDirection::Clockwise) => {},
                (Orientation::North, RotationDirection::CounterClockwise) => {},
                (Orientation::East, RotationDirection::Clockwise) => {},
                (Orientation::East, RotationDirection::CounterClockwise) => {},
                (Orientation::South, RotationDirection::Clockwise) => {},
                (Orientation::South, RotationDirection::CounterClockwise) => {},
                (Orientation::West, RotationDirection::Clockwise) => {},
                (Orientation::West, RotationDirection::CounterClockwise) => {},
            }
        },
    }
}

/// The candidate placement obtained by rotating `piece` one step in
/// `direction` and then applying the `k`-th kick offset of the
/// rotated piece's table.
pub open spec fn spec_kicked(piece: Tetromino, direction: RotationDirection, k: int) -> Tetromino {
    let o2 = transform::spec_next_orientation(piece.orientation, direction);
    let kick = spec_wall_kicks(piece.shape, o2, direction)[k];
    Tetromino {
        shape: piece.shape,
        origin: Point {
            x: (piece.origin.x + kick.x) as i32,
            y: (piece.origin.y + kick.y) as i32,
        },
        orientation: o2,
        state: piece.state,
    }
}

/// The same piece moved `k` rows straight down.
pub open spec fn spec_lowered(piece: Tetromino, k: int) -> Tetromino {
    Tetromino {
        shape: piece.shape,
        origin: Point { x: piece.origin.x, y: (piece.origin.y - k) as i32 },
        orientation: piece.orientation,
        state: piece.state,
    }
}

fn wall_kicks(shape: &Shape, orientation: &Orientation, direction: &RotationDirection) -> (r: Vec<Point>)
    ensures
        r@ == spec_wall_kicks(*shape, *orientation, *direction),
{
    let r: Vec<Point> = match *shape {
        Shape::I => match (*orientation, *direction) {
            (Orientation::North, RotationDirection::Clockwise) => vec![
                Point { x: 0, y: 0 },
                Point { x: 1, y: 0 },
                Point { x: -2, y: 0 },
                Point { x: 1, y: -2 },
                Point { x: -2, y: 1 },
            ],
            (Orientation::North, RotationDirection::CounterClockwise) => vec![
                Point { x: 0, y: 0 },
                Point { x: 2, y: 0 },
                Point { x: -1, y: 0 },
                Point { x: 2, y: 1 },
                Point { x: -1, y: -2 },
            ],
            (Orientation::East, RotationDirection::Clockwise) => vec![
                Point { x: 0, y: 0 },
                Point { x: -2, y: 0 },
                Point { x: 1, y: 0 },
                Point { x: -2, y: -1 },
                Point { x: 1, y: 2 },
            ],
            (Orientation::East, RotationDirection::CounterClockwise) => vec![
                Point { x: 0, y: 0 },
                Point { x: 1, y: 0 },
                Point { x: -2, y: 0 },
                Point { x: 1, y: -2 },
                Point { x: -2, y: 1 },
            ],
            (Orientation::South, RotationDirection::Clockwise) => vec![
                Point { x: 0, y: 0 },
                Point { x: -1, y: 0 },
                Point { x: 2, y: 0 },
                Point { x: -1, y: 2 },
                Point { x: 2, y: -1 },
            ],
            (Orientation::South, RotationDirection::CounterClockwise) => vec![
                Point { x: 0, y: 0 },
                Point { x: -2, y: 0 },
                Point { x: 1, y: 0 },
                Point { x: -2, y: -1 },
                Point { x: 1, y: 2 },
            ],
            (Orientation::West, RotationDirection::Clockwise) => vec![
                Point { x: 0, y: 0 },
                Point { x: 2, y: 0 },
                Point { x: -1, y: 0 },
                Point { x: 2, y: 1 },
                Point { x: -1, y: -2 },
            ],
            (Orientation::West, RotationDirection::CounterClockwise) => vec![
                Point { x: 0, y: 0 },
                Point { x: -1, y: 0 },
                Point { x: 2, y: 0 },
                Point { x: -1, y: 2 },
                Point { x: 2, y: -1 },
            ],
        },
        Shape::O => vec![Point { x: 0, y: 0 }],
        _ => match (*orientation, *direction) {
            (Orientation::North, RotationDirection::Clockwise) => vec![
                Point { x: 0, y: 0 },
                Point { x: -1, y: 0 },
                Point { x: -1, y: -1 },
                Point { x: 0, y: 2 },
                Point { x: -1, y: 2 },
            ],
            (Orientation::North, RotationDirection::CounterClockwise) => vec![
                Point { x: 0, y: 0 },
                Point { x: 1, y: 0 },
                Point { x: 1, y: -1 },
                Point { x: 0, y: 2 },
                Point { x: 1, y: 2 },
            ],
            (Orientation::East, RotationDirection::Clockwise) => vec![
                Point { x: 0, y: 0 },
                Point { x: -1, y: 0 },
                Point { x: -1, y: 1 },
                Point { x: 0, y: -2 },
                Point { x: -1, y: -2 },
            ],
            (Orientation::East, RotationDirection::CounterClockwise) => vec![
                Point { x: 0, y: 0 },
                Point { x: -1, y: 0 },
                Point { x: -1, y: 1 },
                Point { x: 0, y: -2 },
                Point { x: -1, y: -2 },
            ],
            (Orientation::South, RotationDirection::Clockwise) => vec![
                Point { x: 0, y: 0 },
                Point { x: 1, y: 0 },
                Point { x: 1, y: -1 },
                Point { x: 0, y: 2 },
                Point { x: 1, y: 2 },
            ],
            (Orientation::South, RotationDirection::CounterClockwise) => vec![
                Point { x: 0, y: 0 },
                Point { x: -1, y: 0 },
                Point { x: -1, y: -1 },
                Point { x: 0, y: 2 },
                Point { x: -1, y: 2 },
            ],
            (Orientation::West, RotationDirection::Clockwise) => vec![
                Point { x: 0, y: 0 },
                Point { x: 1, y: 0 },
                Point { x: 1, y: 1 },
                Point { x: 0, y: -2 },
                Point { x: 1, y: -2 },
            ],
            (Orientation::West, RotationDirection::CounterClockwise) => vec![
                Point { x: 0, y: 0 },
                Point { x: 1, y: 0 },
                Point { x: 1, y: 1 },
                Point { x: 0, y: -2 },
                Point { x: 1, y: -2 },
            ],
        },
    };
    proof {
        assert(r@ =~= spec_wall_kicks(*shape, *orientation, *direction));
    }
    r
}

fn tetronimo_points(shape: Shape) -> (r: Vec<Point>)
    ensures
        r@ == spec_points(shape),
{
    let r: Vec<Point> = match shape {
        Shape::O => vec![
            Point { x: -1, y: 1 },
            Point { x: -1, y: -1 },
            Point { x: 1, y: 1 },
            Point { x: 1, y: -1 },
        ],
        Shape::I => vec![
            Point { x: -3, y: 1 },
            Point { x: -1, y: 1 },
            Point { x: 1, y: 1 },
            Point { x: 3, y: 1 },
        ],
        Shape::T => vec![
            Point { x: 0, y: 0 },
            Point { x: -2, y: 0 },
            Point { x: 2, y: 0 },
            Point { x: 0, y: 2 },
        ],
        Shape::L => vec![
            Point { x: 0, y: 0 },
            Point { x: -2, y: 0 },
            Point { x: 2, y: 0 },
            Point { x: 2, y: 2 },
        ],
        Shape::J => vec![
            Point { x: 0, y: 0 },
            Point { x: -2, y: 0 },
            Point { x: 2, y: 0 },
            Point { x: -2, y: 2 },
        ],
        Shape::S => vec![
            Point { x: 0, y: 0 },
            Point { x: -2, y: 0 },
            Point { x: 0, y: 2 },
            Point { x: 2, y: 2 },
        ],
        Shape::Z => vec![
            Point { x: 0, y: 2 },
            Point { x: -2, y: 2 },
            Point { x: 0, y: 0 },
            Point { x: 2, y: 0 },
        ],
    };
    proof {
        assert(r@ =~= spec_points(shape));
    }
    r
}

} // verus!
