use vstd::prelude::*;

use vstd::arithmetic::div_mod::lemma_fundamental_div_mod_converse;

verus! {

/// Screen units in one pixel. Screen coordinates are integers in this unit,
/// fine enough that a board laid out on a window of whole pixels has its
/// origin, cell size and half cell size exact.
pub const UNITS_PER_PIXEL: i64 = 16;

/// Bound on the magnitude of a layout's origin and cell size, so that every
/// position computed from a layout fits in an `i64`.
pub const COORD_LIMIT: i64 = 1_099_511_627_776;

/// A point on screen, in units of `1 / UNITS_PER_PIXEL` pixel, y pointing up
/// and the window's centre at the origin.
#[derive(Clone, Copy, Debug, PartialEq, Eq, Structural)]
pub struct ScreenPos {
    pub x: i64,
    pub y: i64,
}

/// Where the board stands on screen: the top-left corner of the board and the
/// size of one square.
#[derive(Clone, Copy, Debug, PartialEq, Eq, Structural)]
pub struct BoardConfiguration {
    pub board_origin: ScreenPos,
    pub cell_size: i64,
    pub half_cell_size: i64,
}

pub open spec fn min_int(a: int, b: int) -> int {
    if a <= b {
        a
    } else {
        b
    }
}

/// `c` is the layout of a window of `width` by `height` pixels: the origin is
/// the window's top-left corner `(-width / 2, height / 2)` and a square is an
/// eighth of the window's shorter side.
pub open spec fn is_layout_for(c: BoardConfiguration, width: int, height: int) -> bool {
    &&& 2 * c.board_origin.x == -(width * UNITS_PER_PIXEL)
    &&& 2 * c.board_origin.y == height * UNITS_PER_PIXEL
    &&& 8 * c.cell_size == min_int(width, height) * UNITS_PER_PIXEL
    &&& 2 * c.half_cell_size == c.cell_size
}

/// `v` clamped to the board's indices `0..=7`.
pub open spec fn clamp_index(v: int) -> int {
    if v < 0 {
        0
    } else if v > 7 {
        7
    } else {
        v
    }
}

/// Index of the row or column at distance `offset` from the board's edge:
/// `clamp(floor(offset / cell_size), 0, 7)`. A board of size zero sends
/// every point past its edge to the last index, the limit of the division.
pub open spec fn axis_index(offset: int, cell_size: int) -> int {
    if cell_size > 0 {
        clamp_index(offset / cell_size)
    } else if offset > 0 {
        7
    } else {
        0
    }
}

/// Whether `a` lies strictly within `half` of `b` on both axes.
pub open spec fn near(a: ScreenPos, b: ScreenPos, half: int) -> bool {
    &&& b.x - half < a.x < b.x + half
    &&& b.y - half < a.y < b.y + half
}

impl BoardConfiguration {
    /// Origin and cell size are bounded, cell size is not negative, and the
    /// half cell size is exactly half of it.
    pub open spec fn wf(&self) -> bool {
        &&& -COORD_LIMIT <= self.board_origin.x <= COORD_LIMIT
        &&& -COORD_LIMIT <= self.board_origin.y <= COORD_LIMIT
        &&& 0 <= self.cell_size <= COORD_LIMIT
        &&& 2 * self.half_cell_size == self.cell_size
    }

    /// Centre of the square `(row, col)` on screen.
    pub open spec fn center(&self, row: int, col: int) -> ScreenPos {
        ScreenPos {
            x: (self.board_origin.x + self.half_cell_size + col * self.cell_size) as i64,
            y: (self.board_origin.y - self.half_cell_size - row * self.cell_size) as i64,
        }
    }

    /// Row of the board under the point `p`.
    pub open spec fn row_at(&self, p: ScreenPos) -> int {
        axis_index(self.board_origin.y - p.y, self.cell_size as int)
    }

    /// Column of the board under the point `p`.
    pub open spec fn col_at(&self, p: ScreenPos) -> int {
        axis_index(p.x - self.board_origin.x, self.cell_size as int)
    }

    /// Centre of the square `(row, col)` on screen.
    pub fn cell_position(&self, row: usize, col: usize) -> (p: ScreenPos)
        requires
            self.wf(),
            row < 8,
            col < 8,
        ensures
            p == self.center(row as int, col as int),
            p.x == self.board_origin.x + self.half_cell_size + col * self.cell_size,
            p.y == self.board_origin.y - self.half_cell_size - row * self.cell_size,
    {
        proof {
            assert(0 <= col * self.cell_size <= 7 * COORD_LIMIT) by (nonlinear_arith)
                requires
                    0 <= col < 8,
                    0 <= self.cell_size <= COORD_LIMIT,
            ;
            assert(0 <= row * self.cell_size <= 7 * COORD_LIMIT) by (nonlinear_arith)
                requires
                    0 <= row < 8,
                    0 <= self.cell_size <= COORD_LIMIT,
            ;
        }
        let c = col as i64;
        let r = row as i64;
        ScreenPos {
            x: self.board_origin.x + self.half_cell_size + c * self.cell_size,
            y: self.board_origin.y - self.half_cell_size - r * self.cell_size,
        }
    }

    /// The square `(row, col)` under the point `p`, clamped to the board.
    pub fn board_cell(&self, p: ScreenPos) -> (rc: (usize, usize))
        requires
            self.wf(),
        ensures
            rc.0 == self.row_at(p),
            rc.1 == self.col_at(p),
            rc.0 < 8,
            rc.1 < 8,
    {
        let row = axis_cell(self.board_origin.y as i128 - p.y as i128, self.cell_size);
        let col = axis_cell(p.x as i128 - self.board_origin.x as i128, self.cell_size);
        (row, col)
    }
}

/// Index of the row or column at distance `offset` from the board's edge.
fn axis_cell(offset: i128, cell_size: i64) -> (i: usize)
    requires
        cell_size >= 0,
    ensures
        i == axis_index(offset as int, cell_size as int),
        i < 8,
{
    if offset <= 0 {
        proof {
            if cell_size > 0 {
                assert((offset as int) / (cell_size as int) <= 0) by (nonlinear_arith)
                    requires
                        offset <= 0,
                        cell_size > 0,
                ;
            }
        }
        0
    } else if cell_size == 0 {
        7
    } else {
        let q = (offset as u128) / (cell_size as u128);
        if q > 7 {
            7
        } else {
            q as usize
        }
    }
}

/// Whether `a` lies strictly within `half` of `b` on both axes.
pub fn is_near(a: ScreenPos, b: ScreenPos, half: i64) -> (r: bool)
    ensures
        r == near(a, b, half as int),
{
    let (ax, ay, bx, by, h) = (a.x as i128, a.y as i128, b.x as i128, b.y as i128, half as i128);
    bx - h < ax && ax < bx + h && by - h < ay && ay < by + h
}

/// The layout of the board on a window of `width` by `height` pixels.
pub fn compute_layout(width: u32, height: u32) -> (c: BoardConfiguration)
    ensures
        c.wf(),
        is_layout_for(c, width as int, height as int),
{
    let w = width as i64;
    let h = height as i64;
    let shorter = if w <= h {
        w
    } else {
        h
    };
    // With sixteen units to the pixel, half a window side is 8 units per
    // pixel, an eighth of it 2, and half of that 1.
    BoardConfiguration {
        board_origin: ScreenPos { x: -(w * 8), y: h * 8 },
        cell_size: shorter * 2,
        half_cell_size: shorter,
    }
}

impl Default for BoardConfiguration {
    /// The layout of a board of size zero at the screen's centre, held until
    /// the window's size is known.
    fn default() -> (c: BoardConfiguration)
        ensures
            c.wf(),
            c.board_origin == (ScreenPos { x: 0, y: 0 }),
            c.cell_size == 0,
            c.half_cell_size == 0,
    {
        BoardConfiguration { board_origin: ScreenPos { x: 0, y: 0 }, cell_size: 0, half_cell_size: 0 }
    }
}

/// The layout is a function of the window's size: two layouts of the same
/// window are identical, and a square is an eighth of the shorter side.
pub proof fn lemma_layout_deterministic(c1: BoardConfiguration, c2: BoardConfiguration, width: int, height: int)
    requires
        is_layout_for(c1, width, height),
        is_layout_for(c2, width, height),
    ensures
        c1 == c2,
        c1.cell_size * 8 == min_int(width, height) * UNITS_PER_PIXEL,
{
}

/// Along one axis, a point strictly within half a square of the centre of
/// square `i` lies on square `i`.
proof fn lemma_axis_near_center(offset: int, i: int, cell_size: int, half: int)
    requires
        0 <= i < 8,
        cell_size > 0,
        2 * half == cell_size,
        half + i * cell_size - half < offset < half + i * cell_size + half,
    ensures
        axis_index(offset, cell_size) == i,
{
    let r = offset - i * cell_size;
    assert(0 < r < cell_size);
    lemma_fundamental_div_mod_converse(offset, cell_size, i, r);
}

/// Every point strictly within half a square of the centre of `(row, col)`,
/// on both axes, maps back to `(row, col)`.
pub proof fn lemma_near_center_maps_to_cell(c: BoardConfiguration, row: int, col: int, p: ScreenPos)
    requires
        c.wf(),
        c.cell_size > 0,
        on_board_index(row),
        on_board_index(col),
        near(p, c.center(row, col), c.half_cell_size as int),
    ensures
        c.row_at(p) == row,
        c.col_at(p) == col,
{
    lemma_center_fits(c, row, col);
    lemma_axis_near_center(c.board_origin.y - p.y, row, c.cell_size as int, c.half_cell_size as int);
    lemma_axis_near_center(p.x - c.board_origin.x, col, c.cell_size as int, c.half_cell_size as int);
}

/// Mapping a square's centre back to the board gives that square: the
/// screen-to-board mapping is a left inverse of the placement of squares.
pub proof fn lemma_center_maps_back(c: BoardConfiguration, row: int, col: int)
    requires
        c.wf(),
        c.cell_size > 0,
        on_board_index(row),
        on_board_index(col),
    ensures
        c.row_at(c.center(row, col)) == row,
        c.col_at(c.center(row, col)) == col,
{
    lemma_center_fits(c, row, col);
    lemma_near_center_maps_to_cell(c, row, col, c.center(row, col));
}

/// The centre of a square of a well-formed layout is computed without
/// truncation.
pub proof fn lemma_center_fits(c: BoardConfiguration, row: int, col: int)
    requires
        c.wf(),
        on_board_index(row),
        on_board_index(col),
    ensures
        c.center(row, col).x == c.board_origin.x + c.half_cell_size + col * c.cell_size,
        c.center(row, col).y == c.board_origin.y - c.half_cell_size - row * c.cell_size,
{
    assert(0 <= col * c.cell_size <= 7 * COORD_LIMIT) by (nonlinear_arith)
        requires
            0 <= col < 8,
            0 <= c.cell_size <= COORD_LIMIT,
    ;
    assert(0 <= row * c.cell_size <= 7 * COORD_LIMIT) by (nonlinear_arith)
        requires
            0 <= row < 8,
            0 <= c.cell_size <= COORD_LIMIT,
    ;
}

/// Whether `i` is a row or column index of the board.
pub open spec fn on_board_index(i: int) -> bool {
    0 <= i < 8
}

} // verus!
