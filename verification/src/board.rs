use vstd::prelude::*;
use vstd::pervasive::VecAdditionalExecFns;
use crate::block::Block;
use crate::error::Error;
use crate::point::Point;
use crate::tetriscolor::Color;
use crate::transform::RotationDirection;
use crate::tetronimo::{Tetromino, TetronimoState};

verus! {

/// How populated one board row is.
#[derive(Debug, Clone, Copy, PartialEq, Eq, Structural)]
pub enum RowPopulation {
    Empty,
    Full,
    Mixed,
}

/// The grid of locked cells.  `blocks` is row major, bottom row
/// first; a cell is `None` when empty.  The top `size_hidden` rows
/// are the spawn buffer above the visible play area.
#[derive(Debug)]
pub struct GameBoard {
    pub size_x: usize,
    pub size_y: usize,
    pub size_hidden: usize,
    pub blocks: Vec<Option<Color>>,
}

impl GameBoard {
    /// The cell vector covers exactly the grid, and the hidden band
    /// fits within the rows.
    pub open spec fn wf(self) -> bool {
        &&& self.blocks@.len() == self.size_x * self.size_y
        &&& self.size_x * self.size_y <= usize::MAX
        &&& self.size_hidden <= self.size_y
    }

    pub open spec fn spec_in_bounds(self, x: int, y: int) -> bool {
        0 <= x < self.size_x && 0 <= y < self.size_y
    }

    /// The committed contents of the cell in column `x` of row `y`.
    pub open spec fn cell(self, x: int, y: int) -> Option<Color> {
        self.blocks@[y * self.size_x + x]
    }

    pub open spec fn row_full(self, row: int) -> bool {
        forall|i: int| 0 <= i < self.size_x ==> (#[trigger] self.cell(i, row)) is Some
    }

    pub open spec fn row_empty(self, row: int) -> bool {
        forall|i: int| 0 <= i < self.size_x ==> (#[trigger] self.cell(i, row)) is None
    }

    /// The classification the engine gives row `row`: `Full` when
    /// every cell is occupied, else `Empty` when no cell is, else
    /// `Mixed`.  (On a zero-width board every row counts as `Full`.)
    pub open spec fn spec_row_status(self, row: int) -> RowPopulation {
        if self.row_full(row) {
            RowPopulation::Full
        } else if self.row_empty(row) {
            RowPopulation::Empty
        } else {
            RowPopulation::Mixed
        }
    }

    /// How many of the first `upto` cells of row `row` are occupied.
    pub open spec fn row_count(self, row: int, upto: int) -> int
        decreases upto,
    {
        if upto <= 0 {
            0
        } else {
            self.row_count(row, upto - 1) + if self.cell(upto - 1, row) is Some {
                1int
            } else {
                0int
            }
        }
    }

    pub fn new(x: usize, y: usize, h: usize) -> (r: GameBoard)
        requires
            x * y <= usize::MAX,
            h <= y,
        ensures
            r.wf(),
            r.size_x == x,
            r.size_y == y,
            r.size_hidden == h,
            forall|k: int| 0 <= k < r.blocks@.len() ==> (#[trigger] r.blocks@[k]) is None,
    {
        proof {
            lemma_mul_bounds(x as int, y as int);
        }
        let n = x * y;
        let mut blocks: Vec<Option<Color>> = Vec::new();
        let mut k: usize = 0;
        while k < n
            invariant
                k <= n,
                blocks@.len() == k,
                forall|i: int| 0 <= i < k ==> (#[trigger] blocks@[i]) is None,
            decreases n - k,
        {
            blocks.push(None);
            k = k + 1;
        }
        GameBoard { size_x: x, size_y: y, size_hidden: h, blocks }
    }

    /// The number of visible rows: everything below the hidden band.
    pub fn height(&self) -> (r: usize)
        requires
            self.wf(),
        ensures
            r == self.size_y - self.size_hidden,
    {
        self.size_y - self.size_hidden
    }

    /// The cell index of a board point, or `OutOfBounds` exactly when
    /// the point lies outside the grid.
    pub fn index(&self, p: &Point) -> (r: Result<usize, Error>)
        requires
            self.wf(),
        ensures
            match r {
                Ok(i) => self.spec_in_bounds(p.x as int, p.y as int)
                    && i == p.y * self.size_x + p.x,
                Err(e) => !self.spec_in_bounds(p.x as int, p.y as int)
                    && e == Error::OutOfBounds,
            },
    {
        if p.x < 0 || p.y < 0 {
            return Err(Error::OutOfBounds);
        }
        let x = p.x as usize;
        let y = p.y as usize;
        if x >= self.size_x || y >= self.size_y {
            return Err(Error::OutOfBounds);
        }
        proof {
            lemma_grid_index(self.size_x as int, self.size_y as int, x as int, y as int);
        }
        Ok(y * self.size_x + x)
    }

    fn is_empty(&self, p: &Point) -> (r: bool)
        requires
            self.wf(),
            self.spec_in_bounds(p.x as int, p.y as int),
        ensures
            r == (self.cell(p.x as int, p.y as int) is None),
    {
        let i = match self.index(p) {
            Ok(i) => i,
            Err(_) => {
                proof {
                    assert(false);
                }
                0
            },
        };
        proof {
            lemma_grid_index(self.size_x as int, self.size_y as int, p.x as int, p.y as int);
        }
        match self.blocks[i] {
            Some(_) => false,
            None => true,
        }
    }

    fn get_color(&self, p: &Point) -> (r: Color)
        requires
            self.wf(),
            self.spec_in_bounds(p.x as int, p.y as int),
        ensures
            r == match self.cell(p.x as int, p.y as int) {
                Some(c) => c,
                None => GameBoard::default_color_spec(),
            },
    {
        let i = match self.index(p) {
            Ok(i) => i,
            Err(_) => {
                proof {
                    assert(false);
                }
                0
            },
        };
        proof {
            lemma_grid_index(self.size_x as int, self.size_y as int, p.x as int, p.y as int);
        }
        match self.blocks[i] {
            Some(c) => c,
            None => GameBoard::default_color(),
        }
    }

    /// The colour an unoccupied visible cell is drawn in.
    pub open spec fn default_color_spec() -> Color {
        Color { red: 0, green: 0, blue: 0, alpha: 10 }
    }

    fn default_color() -> (r: Color)
        ensures
            r == GameBoard::default_color_spec(),
    {
        Color { red: 0, green: 0, blue: 0, alpha: 10 }
    }

    /// Counting occupied cells characterises fullness and emptiness:
    /// the count equals the width exactly when every cell is
    /// occupied, and zero exactly when none is.
    proof fn lemma_row_count_char(self, row: int, upto: int)
        requires
            0 <= upto,
        ensures
            0 <= self.row_count(row, upto) <= upto,
            (self.row_count(row, upto) == upto) <==> (forall|i: int|
                0 <= i < upto ==> (#[trigger] self.cell(i, row)) is Some),
            (self.row_count(row, upto) == 0) <==> (forall|i: int|
                0 <= i < upto ==> (#[trigger] self.cell(i, row)) is None),
        decreases upto,
    {
        if upto > 0 {
            self.lemma_row_count_char(row, upto - 1);
        }
    }

    /// Row classification round-trip: on a board at least one cell
    /// wide, a row is `Empty` exactly when it has zero occupied
    /// cells, `Full` exactly when every cell is occupied, and
    /// `Mixed` otherwise.
    pub proof fn lemma_row_classification(self, row: int)
        requires
            self.size_x >= 1,
        ensures
            (self.spec_row_status(row) == RowPopulation::Empty) <==> (self.row_count(
                row,
                self.size_x as int,
            ) == 0),
            (self.spec_row_status(row) == RowPopulation::Full) <==> (self.row_count(
                row,
                self.size_x as int,
            ) == self.size_x),
            (self.spec_row_status(row) == RowPopulation::Mixed) <==> (0 < self.row_count(
                row,
                self.size_x as int,
            ) < self.size_x),
    {
        self.lemma_row_count_char(row, self.size_x as int);
    }

    /// Classify how populated row `row` is, by counting its occupied
    /// cells.
    pub fn row_status(&self, row: usize) -> (r: RowPopulation)
        requires
            self.wf(),
            row < self.size_y,
        ensures
            r == self.spec_row_status(row as int),
    {
        let w = self.size_x;
        let mut row_pop: usize = 0;
        let mut i: usize = 0;
        while i < w
            invariant
                self.wf(),
                row < self.size_y,
                w == self.size_x,
                i <= w,
                row_pop <= i,
                row_pop == self.row_count(row as int, i as int),
            decreases w - i,
        {
            proof {
                lemma_grid_index(self.size_x as int, self.size_y as int, i as int, row as int);
            }
            if self.blocks[row * w + i].is_some() {
                row_pop = row_pop + 1;
            }
            i = i + 1;
        }
        proof {
            self.lemma_row_count_char(row as int, w as int);
        }
        if row_pop == w {
            RowPopulation::Full
        } else if row_pop == 0 {
            RowPopulation::Empty
        } else {
            RowPopulation::Mixed
        }
    }

    /// Whether the piece's `j`-th block lands on an in-bounds, empty
    /// cell.
    pub open spec fn fits_at(self, piece: Tetromino, j: int) -> bool {
        let p = piece.block_pt(j);
        self.spec_in_bounds(p.0, p.1) && self.cell(p.0, p.1) is None
    }

    /// Whether every one of the piece's four blocks lands on an
    /// in-bounds, empty cell.
    pub open spec fn piece_fits(self, piece: Tetromino) -> bool {
        forall|j: int| 0 <= j < 4 ==> #[trigger] self.fits_at(piece, j)
    }

    /// True exactly when all four of the piece's blocks map to
    /// in-bounds, empty cells; any block out of bounds or on an
    /// occupied cell fails the whole check.
    pub fn check_piece(&self, piece: &Tetromino) -> (r: bool)
        requires
            self.wf(),
            piece.origin_in_range(),
        ensures
            r == self.piece_fits(*piece),
    {
        let bs = piece.blocks();
        let mut ok = true;
        let mut j: usize = 0;
        while j < 4
            invariant
                self.wf(),
                bs@.len() == 4,
                forall|t: int| 0 <= t < 4 ==> {
                    &&& (#[trigger] bs@[t]).point.x as int == piece.block_pt(t).0
                    &&& bs@[t].point.y as int == piece.block_pt(t).1
                },
                j <= 4,
                ok == (forall|t: int| 0 <= t < j ==> #[trigger] self.fits_at(*piece, t)),
            decreases 4 - j,
        {
            let b = &bs[j];
            let fits_here = match self.index(&b.point) {
                Ok(_) => self.is_empty(&b.point),
                Err(_) => false,
            };
            proof {
                assert(fits_here == self.fits_at(*piece, j as int));
            }
            let ghost ok_before = ok;
            ok = ok && fits_here;
            proof {
                assert forall|t: int| 0 <= t < j + 1 && ok implies #[trigger] self.fits_at(
                    *piece,
                    t,
                ) by {};
                if !ok {
                    if ok_before {
                        assert(!self.fits_at(*piece, j as int));
                    } else {
                        let t0 = choose|t: int| 0 <= t < j && !self.fits_at(*piece, t);
                        assert(!self.fits_at(*piece, t0));
                    }
                }
            }
            j = j + 1;
        }
        ok
    }

    /// The first row at or above `from` that is not full; rows past
    /// the top count as not full.
    pub open spec fn skip_full(self, from: int) -> int
        decreases self.size_y - from,
    {
        if from >= self.size_y {
            from
        } else if self.row_full(from) {
            self.skip_full(from + 1)
        } else {
            from
        }
    }

    /// The row of this board whose contents compaction moves down
    /// into output row `l`: the `l`-th non-full row from the bottom.
    pub open spec fn src_row(self, l: int) -> int
        decreases l,
    {
        if l <= 0 {
            self.skip_full(0)
        } else {
            self.skip_full(self.src_row(l - 1) + 1)
        }
    }

    /// The first row classified `Empty`, or the row count when none
    /// is.
    pub open spec fn first_empty(self, from: int) -> int
        decreases self.size_y - from,
    {
        if from >= self.size_y {
            self.size_y as int
        } else if self.spec_row_status(from) == RowPopulation::Empty {
            from
        } else {
            self.first_empty(from + 1)
        }
    }

    /// What compaction leaves in the cell at column `x` of row `y`:
    /// the matching cell of the row that feeds `y`, or an empty cell
    /// when that source lies past the top.
    pub open spec fn wiped_cell(self, x: int, y: int) -> Option<Color> {
        if self.src_row(y) < self.size_y {
            self.cell(x, self.src_row(y))
        } else {
            None
        }
    }

    /// Pins `first_empty` down: when no row below `k` is `Empty` and
    /// `k` is (or the rows run out at `k`), the search from `from`
    /// ends at `k`.
    proof fn lemma_first_empty_char(self, from: int, k: int)
        requires
            0 <= from <= k <= self.size_y,
            forall|l: int| from <= l < k ==> #[trigger] self.spec_row_status(l)
                != RowPopulation::Empty,
            k < self.size_y ==> self.spec_row_status(k) == RowPopulation::Empty,
        ensures
            self.first_empty(from) == if k < self.size_y {
                k
            } else {
                self.size_y as int
            },
        decreases k - from,
    {
        if from < k {
            self.lemma_first_empty_char(from + 1, k);
        }
    }

    /// Commit each block's colour into its cell, in order.  A block
    /// whose cell is already occupied paints it black instead; every
    /// committed cell gets the fixed board-rest alpha.  Callers must
    /// hand in-bounds blocks only.
    pub fn add_blocks(&mut self, blocks: &Vec<Block>)
        requires
            old(self).wf(),
            forall|t: int| 0 <= t < blocks@.len() ==> old(self).spec_in_bounds(
                (#[trigger] blocks@[t]).point.x as int,
                blocks@[t].point.y as int,
            ),
        ensures
            final(self).wf(),
            final(self).size_x == old(self).size_x,
            final(self).size_y == old(self).size_y,
            final(self).size_hidden == old(self).size_hidden,
            final(self).blocks@ == spec_commit(
                old(self).blocks@,
                old(self).size_x as int,
                blocks@,
            ),
    {
        let ghost orig = *self;
        let mut t: usize = 0;
        let n = blocks.len();
        while t < n
            invariant
                self.wf(),
                orig.wf(),
                self.size_x == orig.size_x,
                self.size_y == orig.size_y,
                self.size_hidden == orig.size_hidden,
                n == blocks@.len(),
                t <= n,
                forall|u: int| 0 <= u < blocks@.len() ==> orig.spec_in_bounds(
                    (#[trigger] blocks@[u]).point.x as int,
                    blocks@[u].point.y as int,
                ),
                self.blocks@ == spec_commit(
                    orig.blocks@,
                    orig.size_x as int,
                    blocks@.subrange(0, t as int),
                ),
            decreases n - t,
        {
            let b = blocks[t];
            let idx = match self.index(&b.point) {
                Ok(i) => i,
                Err(_) => {
                    proof {
                        assert(false);
                    }
                    0
                },
            };
            proof {
                lemma_grid_index(
                    self.size_x as int,
                    self.size_y as int,
                    b.point.x as int,
                    b.point.y as int,
                );
            }
            let mut c = b.color;
            if self.blocks[idx].is_some() {
                c = Color::black();
            }
            c.alpha = 8;
            self.blocks.set(idx, Some(c));
            proof {
                lemma_commit_snoc(
                    orig.blocks@,
                    orig.size_x as int,
                    blocks@.subrange(0, t as int),
                    blocks@[t as int],
                );
                assert(blocks@.subrange(0, t as int).push(blocks@[t as int]) =~= blocks@.subrange(
                    0,
                    t as int + 1,
                ));
            }
            t = t + 1;
        }
        proof {
            assert(blocks@.subrange(0, n as int) =~= blocks@);
        }
    }

    /// Overwrite row `lower` with the contents of row `upper`, or
    /// clear it when `upper` lies past the top of the grid.  No other
    /// cell changes.
    pub fn copy_row(&mut self, lower: usize, upper: usize)
        requires
            old(self).wf(),
            lower < old(self).size_y,
        ensures
            final(self).wf(),
            final(self).size_x == old(self).size_x,
            final(self).size_y == old(self).size_y,
            final(self).size_hidden == old(self).size_hidden,
            forall|i: int| 0 <= i < old(self).size_x ==> final(self).cell(i, lower as int)
                == (if upper < old(self).size_y {
                    old(self).cell(i, upper as int)
                } else {
                    None::<Color>
                }),
            forall|k: int| 0 <= k < old(self).blocks@.len()
                && !(lower * old(self).size_x <= k < (lower + 1) * old(self).size_x)
                ==> #[trigger] final(self).blocks@[k] == old(self).blocks@[k],
    {
        let ghost orig = *self;
        let w = self.size_x;
        let mut i: usize = 0;
        while i < w
            invariant
                self.wf(),
                orig.wf(),
                self.blocks@.len() == orig.blocks@.len(),
                self.size_x == orig.size_x,
                self.size_y == orig.size_y,
                self.size_hidden == orig.size_hidden,
                w == orig.size_x,
                lower < orig.size_y,
                i <= w,
                forall|j: int| 0 <= j < i ==> self.cell(j, lower as int)
                    == (if upper < orig.size_y {
                        orig.cell(j, upper as int)
                    } else {
                        None::<Color>
                    }),
                forall|k: int| 0 <= k < orig.blocks@.len()
                    && !(lower * orig.size_x <= k < lower * orig.size_x + i)
                    ==> #[trigger] self.blocks@[k] == orig.blocks@[k],
            decreases w - i,
        {
            proof {
                lemma_grid_index(orig.size_x as int, orig.size_y as int, i as int, lower as int);
            }
            let src: Option<Color> = if upper < self.size_y {
                proof {
                    lemma_grid_index(
                        orig.size_x as int,
                        orig.size_y as int,
                        i as int,
                        upper as int,
                    );
                    if upper != lower {
                        lemma_rows_disjoint(
                            orig.size_x as int,
                            lower as int,
                            upper as int,
                            i as int,
                        );
                    }
                    assert(self.blocks@[upper as int * orig.size_x + i]
                        == orig.blocks@[upper as int * orig.size_x + i]);
                }
                self.blocks[upper * w + i]
            } else {
                None
            };
            proof {
                if upper < orig.size_y {
                    assert(src == orig.cell(i as int, upper as int));
                }
            }
            let ghost pre = *self;
            self.blocks.set(lower * w + i, src);
            proof {
                let wi = orig.size_x as int;
                let li = lower as int;
                assert forall|j: int| 0 <= j < i + 1 implies self.cell(j, li)
                    == (if upper < orig.size_y {
                        orig.cell(j, upper as int)
                    } else {
                        None::<Color>
                    }) by {
                    if j < i {
                        assert(pre.cell(j, li)
                            == (if upper < orig.size_y {
                                orig.cell(j, upper as int)
                            } else {
                                None::<Color>
                            }));
                        assert(li * wi + j != li * wi + i);
                        assert(self.cell(j, li) == pre.cell(j, li));
                    } else {
                        assert(self.cell(j, li) == src);
                    }
                }
                assert forall|k: int| 0 <= k < orig.blocks@.len()
                    && !(li * wi <= k < li * wi + i + 1)
                    implies #[trigger] self.blocks@[k] == orig.blocks@[k] by {
                    assert(pre.blocks@[k] == orig.blocks@[k]);
                }
            }
            i = i + 1;
        }
        proof {
            assert((lower + 1) * orig.size_x == lower * orig.size_x + orig.size_x)
                by (nonlinear_arith);
        }
    }

    /// Remove every full row in one stable, order-preserving pass:
    /// each row below the first originally-`Empty` row receives the
    /// contents of its source row (`src_row`), rows revealed past the
    /// top become empty, and rows from the first `Empty` row upward
    /// are left untouched.  Row classification is taken from a
    /// snapshot made before any copying.
    pub fn wipe_full_rows(&mut self)
        requires
            old(self).wf(),
        ensures
            final(self).wf(),
            final(self).size_x == old(self).size_x,
            final(self).size_y == old(self).size_y,
            final(self).size_hidden == old(self).size_hidden,
            forall|l: int, i: int|
                0 <= l < old(self).size_y && l < old(self).first_empty(0) && 0 <= i < old(
                    self,
                ).size_x ==> #[trigger] final(self).cell(i, l) == old(self).wiped_cell(i, l),
            forall|l: int, i: int|
                old(self).first_empty(0) <= l < old(self).size_y && 0 <= i < old(self).size_x
                    ==> #[trigger] final(self).cell(i, l) == old(self).cell(i, l),
    {
        let ghost orig = *self;
        let n = self.size_y;
        let w = self.size_x;

        let mut status: Vec<RowPopulation> = Vec::new();
        let mut row: usize = 0;
        while row < n
            invariant
                self.wf(),
                *self == orig,
                n == orig.size_y,
                row <= n,
                status@.len() == row,
                forall|t: int| 0 <= t < row ==> status@[t] == orig.spec_row_status(t),
            decreases n - row,
        {
            let st = self.row_status(row);
            status.push(st);
            row = row + 1;
        }

        let mut lower: usize = 0;
        let mut upper: usize = 0;

        while lower < n
            invariant
                orig == *old(self),
                self.wf(),
                orig.wf(),
                self.size_x == orig.size_x,
                self.size_y == orig.size_y,
                self.size_hidden == orig.size_hidden,
                self.blocks@.len() == orig.blocks@.len(),
                n == orig.size_y,
                w == orig.size_x,
                status@.len() == n,
                forall|t: int| 0 <= t < n ==> status@[t] == orig.spec_row_status(t),
                lower <= upper <= n,
                upper < n ==> orig.skip_full(upper as int) == orig.src_row(lower as int),
                upper == n ==> orig.src_row(lower as int) >= n,
                forall|l: int| 0 <= l < lower ==> #[trigger] orig.spec_row_status(l)
                    != RowPopulation::Empty,
                forall|l: int, i: int|
                    0 <= l < lower && 0 <= i < w ==> #[trigger] self.cell(i, l)
                        == orig.wiped_cell(i, l),
                forall|k: int|
                    lower * w <= k < orig.blocks@.len() ==> #[trigger] self.blocks@[k]
                        == orig.blocks@[k],
            decreases n - lower,
        {
            if matches!(status[lower], RowPopulation::Empty) {
                proof {
                    orig.lemma_first_empty_char(0, lower as int);
                    assert forall|l: int, i: int|
                        orig.first_empty(0) <= l < n && 0 <= i < w implies #[trigger] self.cell(
                        i,
                        l,
                    ) == orig.cell(i, l) by {
                        lemma_grid_index(w as int, n as int, i, l);
                        lemma_mul_mono(w as int, lower as int, l);
                    }
                }
                return ;
            }
            while upper < n && matches!(status[upper], RowPopulation::Full)
                invariant
                    n == orig.size_y,
                    w == orig.size_x,
                    status@.len() == n,
                    forall|t: int| 0 <= t < n ==> status@[t] == orig.spec_row_status(t),
                    lower <= upper <= n,
                    lower < n,
                    upper < n ==> orig.skip_full(upper as int) == orig.src_row(lower as int),
                    upper == n ==> orig.src_row(lower as int) >= n,
                decreases n - upper,
            {
                proof {
                    assert(status@[upper as int] == orig.spec_row_status(upper as int));
                    assert(orig.spec_row_status(upper as int) == RowPopulation::Full);
                    assert(orig.row_full(upper as int));
                    assert(orig.skip_full(upper as int) == orig.skip_full(upper as int + 1));
                }
                upper = upper + 1;
            }
            proof {
                if upper < n {
                    assert(orig.spec_row_status(upper as int) != RowPopulation::Full);
                    assert(!orig.row_full(upper as int));
                    assert(orig.skip_full(upper as int) == upper as int);
                    assert(orig.src_row(lower as int) == upper as int);
                } else {
                    assert(orig.src_row(lower as int) >= n);
                }
            }
            let ghost pre = *self;
            self.copy_row(lower, upper);
            proof {
                let wi = w as int;
                let li = lower as int;
                // row `lower` now matches its compaction target
                assert forall|i: int| 0 <= i < wi implies self.cell(i, li) == orig.wiped_cell(
                    i,
                    li,
                ) by {
                    if upper < n {
                        lemma_grid_index(wi, n as int, i, upper as int);
                        lemma_mul_mono(wi, li, upper as int);
                        assert(pre.blocks@[upper as int * wi + i] == orig.blocks@[upper as int * wi
                            + i]);
                        assert(pre.cell(i, upper as int) == orig.cell(i, upper as int));
                    }
                }
                // earlier rows untouched by this copy
                assert forall|l: int, i: int| 0 <= l < li && 0 <= i < wi implies #[trigger] self
                    .cell(i, l) == orig.wiped_cell(i, l) by {
                    lemma_grid_index(wi, n as int, i, l);
                    lemma_mul_mono(wi, l + 1, li);
                    assert(!(li * wi <= l * wi + i < (li + 1) * wi));
                    assert(self.blocks@[l * wi + i] == pre.blocks@[l * wi + i]);
                    assert(pre.cell(i, l) == orig.wiped_cell(i, l));
                }
                // rows above `lower + 1` still hold their original cells
                assert forall|k: int|
                    (li + 1) * wi <= k < orig.blocks@.len() implies #[trigger] self.blocks@[k]
                    == orig.blocks@[k] by {
                    assert(li * wi <= (li + 1) * wi) by (nonlinear_arith)
                        requires
                            0 <= li,
                            0 <= wi,
                    ;
                    assert(self.blocks@[k] == pre.blocks@[k]);
                }
            }
            lower = lower + 1;
            if upper < n {
                upper = upper + 1;
            }
            proof {
                let li = lower as int;  // the incremented value
                assert(orig.src_row(li) == orig.skip_full(orig.src_row(li - 1) + 1));
                if orig.src_row(li - 1) + 1 >= n {
                    assert(orig.skip_full(orig.src_row(li - 1) + 1) == orig.src_row(li - 1) + 1);
                }
            }
        }
        proof {
            orig.lemma_first_empty_char(0, n as int);
        }
    }

    /// All committed cells of the visible rows, row by row from the
    /// bottom, each as a block: its colour (black for empty cells)
    /// and its board point.
    pub fn blocks(&self) -> (r: Vec<Block>)
        requires
            self.wf(),
            self.size_x <= i32::MAX,
            self.size_y <= i32::MAX,
        ensures
            r@.len() == (self.size_y - self.size_hidden) * self.size_x,
            forall|jx: int, ix: int|
                0 <= jx < self.size_y - self.size_hidden && 0 <= ix < self.size_x
                    ==> #[trigger] r@[jx * self.size_x + ix] == (Block {
                    color: match self.cell(ix, jx) {
                        Some(c) => c,
                        None => GameBoard::default_color_spec(),
                    },
                    point: Point { x: ix as i32, y: jx as i32 },
                }),
    {
        let h = self.height();
        let w = self.size_x;
        let mut result: Vec<Block> = Vec::new();
        let mut jx: usize = 0;
        while jx < h
            invariant
                self.wf(),
                self.size_x <= i32::MAX,
                self.size_y <= i32::MAX,
                h == self.size_y - self.size_hidden,
                w == self.size_x,
                jx <= h,
                result@.len() == jx * w,
                forall|j2: int, i2: int|
                    0 <= j2 < jx && 0 <= i2 < w ==> #[trigger] result@[j2 * w + i2] == (Block {
                        color: match self.cell(i2, j2) {
                            Some(c) => c,
                            None => GameBoard::default_color_spec(),
                        },
                        point: Point { x: i2 as i32, y: j2 as i32 },
                    }),
            decreases h - jx,
        {
            let mut ix: usize = 0;
            proof {
                lemma_mul_bounds(jx as int, w as int);
                lemma_mul_mono(w as int, jx as int + 1, h as int);
                assert((jx + 1) * w == jx * w + w) by (nonlinear_arith);
                lemma_mul_mono(w as int, h as int, self.size_y as int);
            }
            while ix < w
                invariant
                    self.wf(),
                    self.size_x <= i32::MAX,
                    self.size_y <= i32::MAX,
                    h == self.size_y - self.size_hidden,
                    w == self.size_x,
                    jx < h,
                    ix <= w,
                    jx * w + w <= self.blocks@.len(),
                    result@.len() == jx * w + ix,
                    forall|j2: int, i2: int|
                        0 <= j2 < jx && 0 <= i2 < w ==> #[trigger] result@[j2 * w + i2] == (Block {
                            color: match self.cell(i2, j2) {
                                Some(c) => c,
                                None => GameBoard::default_color_spec(),
                            },
                            point: Point { x: i2 as i32, y: j2 as i32 },
                        }),
                    forall|i2: int|
                        0 <= i2 < ix ==> #[trigger] result@[jx * w + i2] == (Block {
                            color: match self.cell(i2, jx as int) {
                                Some(c) => c,
                                None => GameBoard::default_color_spec(),
                            },
                            point: Point { x: i2 as i32, y: jx as i32 },
                        }),
                decreases w - ix,
            {
                let p = Point { x: ix as i32, y: jx as i32 };
                let block = Block { color: self.get_color(&p), point: p };
                result.push(block);
                proof {
                    assert forall|j2: int, i2: int| 0 <= j2 < jx && 0 <= i2 < w implies #[trigger]
                    result@[j2 * w + i2] == (Block {
                        color: match self.cell(i2, j2) {
                            Some(c) => c,
                            None => GameBoard::default_color_spec(),
                        },
                        point: Point { x: i2 as i32, y: j2 as i32 },
                    }) by {
                        lemma_grid_index(w as int, h as int, i2, j2);
                        lemma_mul_mono(w as int, j2 + 1, jx as int);
                    }
                }
                ix = ix + 1;
            }
            jx = jx + 1;
        }
        result
    }

    /// A piece that fits the board has its anchor no lower than one
    /// row below the floor.
    proof fn lemma_fits_low_bound(self, t: Tetromino)
        requires
            self.piece_fits(t),
        ensures
            t.origin.y >= -1,
    {
        assert(self.fits_at(t, 0));
        crate::tetronimo::lemma_cell_bounds(t.shape, t.orientation, 0);
    }

    /// Rotate `piece` one step and try each wall-kick offset of the
    /// rotated piece in table order; the first collision-free
    /// placement wins, and a rotation with no valid kick yields
    /// nothing (the caller leaves the piece unchanged).
    pub fn kick_rotation(&self, piece: &Tetromino, direction: &RotationDirection) -> (r: Option<
        Tetromino,
    >)
        requires
            self.wf(),
            i32::MIN + 4 <= piece.origin.x <= i32::MAX - 3,
            i32::MIN + 4 <= piece.origin.y <= i32::MAX - 3,
        ensures
            ({
                let o2 = crate::transform::spec_next_orientation(piece.orientation, *direction);
                let kicks = crate::tetronimo::spec_wall_kicks(piece.shape, o2, *direction);
                match r {
                    Some(t) => exists|k: int|
                        {
                            &&& 0 <= k < kicks.len()
                            &&& t == crate::tetronimo::spec_kicked(*piece, *direction, k)
                            &&& self.piece_fits(t)
                            &&& forall|j: int|
                                0 <= j < k ==> !self.piece_fits(
                                    #[trigger] crate::tetronimo::spec_kicked(*piece, *direction, j),
                                )
                        },
                    None => forall|k: int|
                        0 <= k < kicks.len() ==> !self.piece_fits(
                            #[trigger] crate::tetronimo::spec_kicked(*piece, *direction, k),
                        ),
                }
            }),
    {
        let mut new_piece = piece.clone();
        new_piece.rotate(direction);
        let translations = new_piece.wall_kick_options(direction);
        let ghost o2 = crate::transform::spec_next_orientation(piece.orientation, *direction);
        let ghost kicks = crate::tetronimo::spec_wall_kicks(piece.shape, o2, *direction);
        let mut k: usize = 0;
        let n = translations.len();
        while k < n
            invariant
                self.wf(),
                i32::MIN + 4 <= piece.origin.x <= i32::MAX - 3,
                i32::MIN + 4 <= piece.origin.y <= i32::MAX - 3,
                new_piece.shape == piece.shape,
                new_piece.origin == piece.origin,
                new_piece.state == piece.state,
                new_piece.orientation == o2,
                o2 == crate::transform::spec_next_orientation(piece.orientation, *direction),
                kicks == crate::tetronimo::spec_wall_kicks(piece.shape, o2, *direction),
                translations@ == kicks,
                n == kicks.len(),
                k <= n,
                forall|j: int|
                    0 <= j < k ==> !self.piece_fits(
                        #[trigger] crate::tetronimo::spec_kicked(*piece, *direction, j),
                    ),
            decreases n - k,
        {
            proof {
                crate::tetronimo::lemma_kick_bounds(piece.shape, o2, *direction, k as int);
            }
            let mut test_piece = new_piece.clone();
            test_piece.translate(&translations[k]);
            proof {
                assert(test_piece == crate::tetronimo::spec_kicked(*piece, *direction, k as int));
            }
            if self.check_piece(&test_piece) {
                return Some(test_piece);
            }
            k = k + 1;
        }
        None
    }

    /// The piece dropped straight down as far as it fits: the
    /// landing preview derived from the active piece.  When even the
    /// current position does not fit, the piece is returned where it
    /// stands.  Only the lifecycle tag of the result is changed.
    pub fn lowest_fit(&self, piece: &Tetromino) -> (r: Tetromino)
        requires
            self.wf(),
            piece.origin_in_range(),
        ensures
            r.shape == piece.shape,
            r.orientation == piece.orientation,
            r.origin.x == piece.origin.x,
            r.state == TetronimoState::Shadow,
            ({
                let k = piece.origin.y - r.origin.y;
                &&& k >= 0
                &&& forall|j: int|
                    1 <= j <= k ==> self.piece_fits(
                        #[trigger] crate::tetronimo::spec_lowered(*piece, j),
                    )
                &&& if self.piece_fits(*piece) {
                    !self.piece_fits(crate::tetronimo::spec_lowered(*piece, k + 1))
                } else {
                    k == 0
                }
            }),
    {
        let mut test = piece.clone();
        let mut shadow = test.clone();
        let ghost mut steps: int = 0;
        while self.check_piece(&test)
            invariant
                self.wf(),
                piece.origin_in_range(),
                test.origin_in_range(),
                0 <= steps,
                test.origin.y == piece.origin.y - steps,
                test == crate::tetronimo::spec_lowered(*piece, steps),
                steps >= 1 ==> shadow.origin.y == piece.origin.y - (steps - 1),
                shadow == if steps == 0 {
                    *piece
                } else {
                    crate::tetronimo::spec_lowered(*piece, steps - 1)
                },
                forall|j: int|
                    0 <= j < steps ==> self.piece_fits(
                        #[trigger] crate::tetronimo::spec_lowered(*piece, j),
                    ),
            decreases test.origin.y + 3,
        {
            proof {
                self.lemma_fits_low_bound(test);
            }
            shadow = test.clone();
            test.move_down();
            proof {
                steps = steps + 1;
            }
        }
        proof {
            if steps > 0 {
                assert(self.piece_fits(crate::tetronimo::spec_lowered(*piece, 0)));
                assert(crate::tetronimo::spec_lowered(*piece, 0) == *piece);
            }
        }
        shadow.state = TetronimoState::Shadow;
        shadow
    }
}

/// The colour actually committed to a cell: the block's own colour,
/// or black when the cell was already occupied (a defensive paint
/// over, not an error); either way the board-rest alpha is forced.
pub open spec fn committed_color(prev: Option<Color>, c: Color) -> Color {
    let base = if prev is Some {
        Color { red: 0, green: 0, blue: 0, alpha: 10 }
    } else {
        c
    };
    Color { red: base.red, green: base.green, blue: base.blue, alpha: 8 }
}

/// One block committed into the cell vector.
pub open spec fn commit_one(cells: Seq<Option<Color>>, w: int, b: Block) -> Seq<Option<Color>> {
    let idx = b.point.y * w + b.point.x;
    cells.update(idx, Some(committed_color(cells[idx], b.color)))
}

/// The cell vector after committing a list of blocks in order.
pub open spec fn spec_commit(cells: Seq<Option<Color>>, w: int, bs: Seq<Block>) -> Seq<
    Option<Color>,
>
    decreases bs.len(),
{
    if bs.len() == 0 {
        cells
    } else {
        spec_commit(commit_one(cells, w, bs[0]), w, bs.drop_first())
    }
}

/// Committing a list and then one more block is the same as
/// committing the extended list.
proof fn lemma_commit_snoc(cells: Seq<Option<Color>>, w: int, bs: Seq<Block>, b: Block)
    ensures
        spec_commit(cells, w, bs.push(b)) == commit_one(spec_commit(cells, w, bs), w, b),
    decreases bs.len(),
{
    let s1 = bs.push(b);
    if bs.len() == 0 {
        assert(s1.drop_first() =~= Seq::<Block>::empty());
        assert(s1[0] == b);
        assert(spec_commit(cells, w, s1) == spec_commit(
            commit_one(cells, w, b),
            w,
            Seq::<Block>::empty(),
        ));
        assert(spec_commit(commit_one(cells, w, b), w, Seq::<Block>::empty()) == commit_one(
            cells,
            w,
            b,
        ));
        assert(spec_commit(cells, w, bs) == cells);
    } else {
        assert(s1.drop_first() =~= bs.drop_first().push(b));
        assert(s1[0] == bs[0]);
        assert(spec_commit(cells, w, s1) == spec_commit(
            commit_one(cells, w, bs[0]),
            w,
            bs.drop_first().push(b),
        ));
        lemma_commit_snoc(commit_one(cells, w, bs[0]), w, bs.drop_first(), b);
        assert(spec_commit(cells, w, bs) == spec_commit(
            commit_one(cells, w, bs[0]),
            w,
            bs.drop_first(),
        ));
    }
}

/// The grid index of column `x` in row `y` lies inside the cell
/// vector.
proof fn lemma_grid_index(w: int, h: int, x: int, y: int)
    by (nonlinear_arith)
    requires
        0 <= x < w,
        0 <= y < h,
    ensures
        0 <= y * w + x < h * w,
        y * w <= y * w + x < (y + 1) * w,
        h * w == w * h,
        (y + 1) * w == y * w + w,
{
}

/// Multiplying by a common nonnegative factor keeps the order.
proof fn lemma_mul_mono(w: int, a: int, b: int)
    by (nonlinear_arith)
    requires
        0 <= w,
        0 <= a <= b,
    ensures
        a * w <= b * w,
{
}

/// Cells of different rows occupy disjoint index ranges.
proof fn lemma_rows_disjoint(w: int, y1: int, y2: int, x: int)
    by (nonlinear_arith)
    requires
        0 <= x < w,
        0 <= y1,
        0 <= y2,
        y1 != y2,
    ensures
        !(y1 * w <= y2 * w + x < (y1 + 1) * w),
{
}

/// Multiplying two nonnegative bounded numbers stays within their
/// product's bound.
proof fn lemma_mul_bounds(x: int, y: int)
    by (nonlinear_arith)
    requires
        0 <= x,
        0 <= y,
    ensures
        0 <= x * y,
        y >= 1 ==> x <= x * y,
{
}

} // verus!
