use vstd::prelude::*;

use crate::piece::{get_piece_index, glyph_index, piece_symbol, Piece, PieceColor, PieceType};

verus! {

/// Number of rows, and of columns, of the board.
pub const BOARD_SIZE: usize = 8;

/// Position of square `(row, col)` in the row-major list of the 64 squares.
pub open spec fn square(row: int, col: int) -> int {
    8 * row + col
}

/// Whether `(row, col)` names a square of the board.
pub open spec fn on_board(row: int, col: int) -> bool {
    0 <= row < 8 && 0 <= col < 8
}

/// The piece of a kind and side, drawn with the glyph that belongs to them.
pub open spec fn piece_of(piece_type: PieceType, color: PieceColor) -> Piece {
    Piece { piece_type, color, index: glyph_index(piece_type, color) as usize }
}

/// Kind on column `col` of a back rank: Rook, Knight, Bishop, Queen, King,
/// Bishop, Knight, Rook.
pub open spec fn back_rank_kind(col: int) -> PieceType {
    if col == 0 || col == 7 {
        PieceType::Rook
    } else if col == 1 || col == 6 {
        PieceType::Knight
    } else if col == 2 || col == 5 {
        PieceType::Bishop
    } else if col == 3 {
        PieceType::Queen
    } else {
        PieceType::King
    }
}

/// Occupant of `(row, col)` in the starting position: Black's back rank on
/// row 0 and its pawns on row 1, White's pawns on row 6 and its back rank on
/// row 7, every other square empty.
pub open spec fn standard_occupant(row: int, col: int) -> Option<Piece> {
    if row == 0 {
        Some(piece_of(back_rank_kind(col), PieceColor::Black))
    } else if row == 1 {
        Some(piece_of(PieceType::Pawn, PieceColor::Black))
    } else if row == 6 {
        Some(piece_of(PieceType::Pawn, PieceColor::White))
    } else if row == 7 {
        Some(piece_of(back_rank_kind(col), PieceColor::White))
    } else {
        None
    }
}

/// The 64 squares of the starting position in row-major order.
pub open spec fn standard_squares() -> Seq<Option<Piece>> {
    Seq::new(64, |k: int| standard_occupant(k / 8, k % 8))
}

/// Number of occupied squares among `cells`.
pub open spec fn count_occupied(cells: Seq<Option<Piece>>) -> nat
    decreases cells.len(),
{
    if cells.len() == 0 {
        0
    } else {
        count_occupied(cells.drop_last()) + if cells.last() is Some { 1nat } else { 0nat }
    }
}

/// Number of squares among `cells` that hold a piece of side `color`.
pub open spec fn count_side(cells: Seq<Option<Piece>>, color: PieceColor) -> nat
    decreases cells.len(),
{
    if cells.len() == 0 {
        0
    } else {
        count_side(cells.drop_last(), color) + match cells.last() {
            Some(p) => if p.color == color { 1nat } else { 0nat },
            None => 0nat,
        }
    }
}

/// The occupancy grid: for each of the 64 squares, the piece on it if any.
/// No rule of chess is enforced: any square may receive any piece.
pub struct Board {
    cells: Vec<Option<Piece>>,
}

impl View for Board {
    type V = Seq<Option<Piece>>;

    /// The squares in row-major order.
    closed spec fn view(&self) -> Seq<Option<Piece>> {
        self.cells@
    }
}

impl Board {
    /// A board has exactly 64 squares.
    pub open spec fn wf(&self) -> bool {
        self@.len() == 64
    }

    /// The occupant of square `(row, col)`.
    pub open spec fn cell(&self, row: int, col: int) -> Option<Piece> {
        self@[square(row, col)]
    }

    /// The occupant of square `(row, col)`.
    pub fn get(&self, row: usize, col: usize) -> (p: Option<Piece>)
        requires
            self.wf(),
            on_board(row as int, col as int),
        ensures
            p == self.cell(row as int, col as int),
    {
        self.cells[row * BOARD_SIZE + col]
    }

    /// Empties square `(row, col)` and returns what was on it.
    pub fn take(&mut self, row: usize, col: usize) -> (p: Option<Piece>)
        requires
            old(self).wf(),
            on_board(row as int, col as int),
        ensures
            p == old(self).cell(row as int, col as int),
            final(self)@ == old(self)@.update(square(row as int, col as int), None),
    {
        let k = row * BOARD_SIZE + col;
        let p = self.cells[k];
        self.cells.set(k, None);
        p
    }

    /// Puts `piece` on square `(row, col)`, replacing whatever was there.
    pub fn set(&mut self, row: usize, col: usize, piece: Piece)
        requires
            old(self).wf(),
            on_board(row as int, col as int),
        ensures
            final(self)@ == old(self)@.update(square(row as int, col as int), Some(piece)),
    {
        let k = row * BOARD_SIZE + col;
        self.cells.set(k, Some(piece));
    }
}

/// Diagram letter of a square's occupant, a space for an empty square.
pub open spec fn occupant_symbol(occupant: Option<Piece>) -> char {
    match occupant {
        Some(p) => piece_symbol(p.piece_type, p.color),
        None => ' ',
    }
}

/// The diagram letters of the 64 squares of `board` in row-major order.
pub fn board_symbols(board: &Board) -> (symbols: Vec<char>)
    requires
        board.wf(),
    ensures
        symbols@.len() == 64,
        forall|k: int| 0 <= k < 64 ==> #[trigger] symbols@[k] == occupant_symbol(board@[k]),
{
    let mut symbols: Vec<char> = Vec::new();
    let mut k: usize = 0;
    while k < board.cells.len()
        invariant
            board.wf(),
            k <= 64,
            symbols@.len() == k,
            forall|j: int| 0 <= j < k ==> #[trigger] symbols@[j] == occupant_symbol(board@[j]),
        decreases 64 - k,
    {
        let c = match board.cells[k] {
            Some(p) => p.symbol(),
            None => ' ',
        };
        symbols.push(c);
        k += 1;
    }
    symbols
}

/// Kind on column `col` of a back rank.
fn back_rank_piece_type(col: usize) -> (t: PieceType)
    ensures
        t == back_rank_kind(col as int),
{
    if col == 0 || col == 7 {
        PieceType::Rook
    } else if col == 1 || col == 6 {
        PieceType::Knight
    } else if col == 2 || col == 5 {
        PieceType::Bishop
    } else if col == 3 {
        PieceType::Queen
    } else {
        PieceType::King
    }
}

/// Occupant of `(row, col)` in the starting position.
fn standard_piece(row: usize, col: usize) -> (p: Option<Piece>)
    ensures
        p == standard_occupant(row as int, col as int),
{
    let (piece_type, color) = if row == 0 {
        (back_rank_piece_type(col), PieceColor::Black)
    } else if row == 1 {
        (PieceType::Pawn, PieceColor::Black)
    } else if row == 6 {
        (PieceType::Pawn, PieceColor::White)
    } else if row == 7 {
        (back_rank_piece_type(col), PieceColor::White)
    } else {
        return None;
    };
    Some(Piece { piece_type, color, index: get_piece_index(piece_type, color) })
}

/// The board in the standard chess starting position.
pub fn new_standard_board() -> (b: Board)
    ensures
        b.wf(),
        forall|row: int, col: int|
            on_board(row, col) ==> #[trigger] b.cell(row, col) == standard_occupant(row, col),
{
    let mut cells: Vec<Option<Piece>> = Vec::new();
    let mut row: usize = 0;
    while row < BOARD_SIZE
        invariant
            row <= 8,
            cells@.len() == 8 * row,
            forall|r: int, c: int|
                0 <= r < row && 0 <= c < 8 ==> #[trigger] cells@[square(r, c)]
                    == standard_occupant(r, c),
        decreases 8 - row,
    {
        let mut col: usize = 0;
        while col < BOARD_SIZE
            invariant
                row < 8,
                col <= 8,
                cells@.len() == 8 * row + col,
                forall|r: int, c: int|
                    0 <= c < 8 && (0 <= r < row || (r == row && c < col)) ==> #[trigger] cells@[square(r, c)]
                        == standard_occupant(r, c),
            decreases 8 - col,
        {
            cells.push(standard_piece(row, col));
            col += 1;
        }
        row += 1;
    }
    Board { cells }
}

/// Replacing the occupant of one square changes the number of occupied
/// squares by what was there and what comes in.
pub proof fn lemma_count_update(cells: Seq<Option<Piece>>, i: int, occupant: Option<Piece>)
    requires
        0 <= i < cells.len(),
    ensures
        count_occupied(cells.update(i, occupant)) + (if cells[i] is Some { 1int } else { 0int })
            == count_occupied(cells) + (if occupant is Some { 1int } else { 0int }),
    decreases cells.len(),
{
    let u = cells.update(i, occupant);
    if i == cells.len() - 1 {
        assert(u.drop_last() =~= cells.drop_last());
    } else {
        lemma_count_update(cells.drop_last(), i, occupant);
        assert(u.drop_last() =~= cells.drop_last().update(i, occupant));
    }
}

/// Counts over the first `n` squares of the starting position: the first 16
/// are Black, the next 32 empty, the last 16 White.
proof fn lemma_standard_prefix_counts(n: int)
    requires
        0 <= n <= 64,
    ensures
        count_side(standard_squares().take(n), PieceColor::Black) == if n < 16 { n } else { 16 },
        count_side(standard_squares().take(n), PieceColor::White) == if n < 48 { 0 } else { n - 48 },
        count_occupied(standard_squares().take(n))
            == count_side(standard_squares().take(n), PieceColor::Black)
            + count_side(standard_squares().take(n), PieceColor::White),
    decreases n,
{
    let s = standard_squares().take(n);
    if n > 0 {
        lemma_standard_prefix_counts(n - 1);
        assert(s.drop_last() =~= standard_squares().take(n - 1));
        assert(s.last() == standard_occupant((n - 1) / 8, (n - 1) % 8));
    }
}

/// The starting position holds 32 pieces, 16 of each side, on 32 of the 64
/// squares; the other 32 squares are empty.
pub proof fn lemma_standard_counts(b: Board)
    requires
        b.wf(),
        forall|row: int, col: int|
            on_board(row, col) ==> #[trigger] b.cell(row, col) == standard_occupant(row, col),
    ensures
        count_occupied(b@) == 32,
        count_side(b@, PieceColor::White) == 16,
        count_side(b@, PieceColor::Black) == 16,
{
    assert forall|k: int| 0 <= k < 64 implies b@[k] == standard_squares()[k] by {
        assert(square(k / 8, k % 8) == k);
        assert(b.cell(k / 8, k % 8) == standard_occupant(k / 8, k % 8));
    }
    assert(b@ =~= standard_squares().take(64));
    lemma_standard_prefix_counts(64);
}

impl Default for Board {
    /// The board in the standard chess starting position.
    fn default() -> (b: Board)
        ensures
            b.wf(),
            forall|row: int, col: int|
                on_board(row, col) ==> #[trigger] b.cell(row, col) == standard_occupant(row, col),
    {
        new_standard_board()
    }
}

} // verus!
