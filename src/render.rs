use vstd::prelude::*;

use vstd::arithmetic::div_mod::lemma_fundamental_div_mod_converse;

use crate::board::{square, Board, BOARD_SIZE};
use crate::layout::{BoardConfiguration, ScreenPos};
use crate::piece::Piece;

verus! {

/// Depth of the board's squares.
pub const TILE_DEPTH: u8 = 0;

/// Depth of a piece at rest, above the squares.
pub const PIECE_DEPTH: u8 = 1;

/// Depth of a piece being dragged, above every other piece.
pub const DRAG_DEPTH: u8 = 2;

/// Atlas index of the squares whose row and column add up to an even number.
pub const LIGHT_TILE_INDEX: usize = 12;

/// Atlas index of the squares whose row and column add up to an odd number.
pub const DARK_TILE_INDEX: usize = 13;

/// One drawable: a cell of the sprite atlas at a point of the screen, scaled
/// to the size of a square.
#[derive(Clone, Copy, Debug, PartialEq, Eq, Structural)]
pub struct Visual {
    pub position: ScreenPos,
    pub depth: u8,
    pub index: usize,
}

/// Atlas index of square `(row, col)`: a checkerboard of two colours.
pub open spec fn tile_index(row: int, col: int) -> usize {
    if (row + col) % 2 == 0 {
        LIGHT_TILE_INDEX
    } else {
        DARK_TILE_INDEX
    }
}

/// The drawable of square `(row, col)`.
pub open spec fn tile_visual(c: BoardConfiguration, row: int, col: int) -> Visual {
    Visual { position: c.center(row, col), depth: TILE_DEPTH, index: tile_index(row, col) }
}

/// The drawable of `piece` at rest on square `(row, col)`.
pub open spec fn piece_visual(c: BoardConfiguration, row: int, col: int, piece: Piece) -> Visual {
    Visual { position: c.center(row, col), depth: PIECE_DEPTH, index: piece.index }
}

/// The drawable of the occupant of square `(row, col)`, if there is one.
pub open spec fn slot_visual(
    c: BoardConfiguration,
    row: int,
    col: int,
    occupant: Option<Piece>,
) -> Option<Visual> {
    match occupant {
        Some(piece) => Some(piece_visual(c, row, col, piece)),
        None => None,
    }
}

/// The 64 squares' drawables, in row-major order.
pub open spec fn rendered_tiles(c: BoardConfiguration) -> Seq<Visual> {
    Seq::new(64, |k: int| tile_visual(c, k / 8, k % 8))
}

/// One slot per square in row-major order, holding the drawable of the
/// square's occupant if there is one.
pub open spec fn rendered_pieces(c: BoardConfiguration, cells: Seq<Option<Piece>>) -> Seq<
    Option<Visual>,
> {
    Seq::new(64, |k: int| slot_visual(c, k / 8, k % 8, cells[k]))
}

/// Row and column of position `square(row, col)`.
proof fn lemma_square_parts(row: int, col: int)
    requires
        0 <= row < 8,
        0 <= col < 8,
    ensures
        square(row, col) / 8 == row,
        square(row, col) % 8 == col,
{
    lemma_fundamental_div_mod_converse(square(row, col), 8, row, col);
}

/// The drawables of the 64 squares for layout `c`, in row-major order.
pub fn tile_visuals(c: &BoardConfiguration) -> (tiles: Vec<Visual>)
    requires
        c.wf(),
    ensures
        tiles@ == rendered_tiles(*c),
{
    let mut tiles: Vec<Visual> = Vec::new();
    let mut row: usize = 0;
    while row < BOARD_SIZE
        invariant
            c.wf(),
            row <= 8,
            tiles@.len() == 8 * row,
            forall|k: int| 0 <= k < tiles@.len() ==> #[trigger] tiles@[k] == tile_visual(*c, k / 8, k % 8),
        decreases 8 - row,
    {
        let mut col: usize = 0;
        while col < BOARD_SIZE
            invariant
                c.wf(),
                row < 8,
                col <= 8,
                tiles@.len() == 8 * row + col,
                forall|k: int| 0 <= k < tiles@.len() ==> #[trigger] tiles@[k] == tile_visual(*c, k / 8, k % 8),
            decreases 8 - col,
        {
            proof {
                lemma_square_parts(row as int, col as int);
            }
            let index = if (row + col) % 2 == 0 {
                LIGHT_TILE_INDEX
            } else {
                DARK_TILE_INDEX
            };
            tiles.push(Visual { position: c.cell_position(row, col), depth: TILE_DEPTH, index });
            col += 1;
        }
        row += 1;
    }
    assert(tiles@ =~= rendered_tiles(*c));
    tiles
}

/// One slot per square of `board` in row-major order, holding the drawable of
/// the square's occupant for layout `c` if there is one.
pub fn piece_visuals(board: &Board, c: &BoardConfiguration) -> (pieces: Vec<Option<Visual>>)
    requires
        board.wf(),
        c.wf(),
    ensures
        pieces@ == rendered_pieces(*c, board@),
{
    let mut pieces: Vec<Option<Visual>> = Vec::new();
    let mut row: usize = 0;
    while row < BOARD_SIZE
        invariant
            board.wf(),
            c.wf(),
            row <= 8,
            pieces@.len() == 8 * row,
            forall|k: int|
                0 <= k < pieces@.len() ==> #[trigger] pieces@[k] == slot_visual(*c, k / 8, k % 8, board@[k]),
        decreases 8 - row,
    {
        let mut col: usize = 0;
        while col < BOARD_SIZE
            invariant
                board.wf(),
                c.wf(),
                row < 8,
                col <= 8,
                pieces@.len() == 8 * row + col,
                forall|k: int|
                    0 <= k < pieces@.len() ==> #[trigger] pieces@[k] == slot_visual(*c, k / 8, k % 8, board@[k]),
            decreases 8 - col,
        {
            proof {
                lemma_square_parts(row as int, col as int);
            }
            let slot = match board.get(row, col) {
                Some(piece) => Some(
                    Visual { position: c.cell_position(row, col), depth: PIECE_DEPTH, index: piece.index },
                ),
                None => None,
            };
            pieces.push(slot);
            col += 1;
        }
        row += 1;
    }
    assert(pieces@ =~= rendered_pieces(*c, board@));
    pieces
}

} // verus!
