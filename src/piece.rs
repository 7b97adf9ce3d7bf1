use vstd::prelude::*;

use crate::SPRITE_SHEET_W;

verus! {

/// The six kinds of chess men.
#[derive(Clone, Copy, Debug, PartialEq, Eq, Structural, Hash)]
pub enum PieceType {
    King,
    Queen,
    Rook,
    Bishop,
    Knight,
    Pawn,
}

/// The two sides.
#[derive(Clone, Copy, Debug, PartialEq, Eq, Structural, Hash)]
pub enum PieceColor {
    White,
    Black,
}

/// An occupant of a square: its kind, its side and the atlas cell it is drawn with.
#[derive(Clone, Copy, Debug, PartialEq, Eq, Structural)]
pub struct Piece {
    pub piece_type: PieceType,
    pub color: PieceColor,
    pub index: usize,
}

/// Column of a kind's glyph within one side's row of the sprite atlas.
pub open spec fn kind_column(piece_type: PieceType) -> nat {
    match piece_type {
        PieceType::King => 0,
        PieceType::Queen => 1,
        PieceType::Rook => 2,
        PieceType::Bishop => 3,
        PieceType::Knight => 4,
        PieceType::Pawn => 5,
    }
}

/// Atlas index of a kind on a side: Black glyphs fill the first atlas row,
/// White glyphs the same columns of the next row.
pub open spec fn glyph_index(piece_type: PieceType, color: PieceColor) -> nat {
    match color {
        PieceColor::Black => kind_column(piece_type),
        PieceColor::White => (kind_column(piece_type) + SPRITE_SHEET_W) as nat,
    }
}

/// Letter of a kind in algebraic notation.
pub open spec fn kind_letter(piece_type: PieceType) -> char {
    match piece_type {
        PieceType::King => 'K',
        PieceType::Queen => 'Q',
        PieceType::Rook => 'R',
        PieceType::Bishop => 'B',
        PieceType::Knight => 'N',
        PieceType::Pawn => 'P',
    }
}

/// Board diagram letter: upper case for White, lower case for Black.
pub open spec fn piece_symbol(piece_type: PieceType, color: PieceColor) -> char {
    match color {
        PieceColor::White => kind_letter(piece_type),
        PieceColor::Black => match piece_type {
            PieceType::King => 'k',
            PieceType::Queen => 'q',
            PieceType::Rook => 'r',
            PieceType::Bishop => 'b',
            PieceType::Knight => 'n',
            PieceType::Pawn => 'p',
        },
    }
}

/// Atlas index of the glyph for `piece_type` on side `color`.
pub fn get_piece_index(piece_type: PieceType, color: PieceColor) -> (index: usize)
    ensures
        index == glyph_index(piece_type, color),
        index < 2 * SPRITE_SHEET_W,
{
    let mut index: usize = match piece_type {
        PieceType::King => 0,
        PieceType::Queen => 1,
        PieceType::Rook => 2,
        PieceType::Bishop => 3,
        PieceType::Knight => 4,
        PieceType::Pawn => 5,
    };
    if color == PieceColor::White {
        index += SPRITE_SHEET_W;
    }
    index
}

/// The glyph index depends on kind and side alone, the two sides' glyphs never
/// coincide, and a White glyph sits exactly one atlas row after the Black
/// glyph of the same kind.
pub proof fn lemma_glyph_sides(t1: PieceType, t2: PieceType)
    ensures
        glyph_index(t1, PieceColor::White) == glyph_index(t1, PieceColor::Black) + SPRITE_SHEET_W,
        glyph_index(t1, PieceColor::Black) != glyph_index(t2, PieceColor::White),
        glyph_index(t1, PieceColor::Black) < SPRITE_SHEET_W,
        SPRITE_SHEET_W <= glyph_index(t2, PieceColor::White) < 2 * SPRITE_SHEET_W,
        (glyph_index(t1, PieceColor::Black) == glyph_index(t2, PieceColor::Black)) == (t1 == t2),
{
}

impl PieceType {
    /// Letter of this kind in algebraic notation.
    pub fn letter(&self) -> (c: char)
        ensures
            c == kind_letter(*self),
    {
        match self {
            PieceType::King => 'K',
            PieceType::Queen => 'Q',
            PieceType::Rook => 'R',
            PieceType::Bishop => 'B',
            PieceType::Knight => 'N',
            PieceType::Pawn => 'P',
        }
    }
}

impl Piece {
    /// A piece of the given kind and side, with the atlas index that belongs to them.
    pub fn new(piece_type: PieceType, color: PieceColor) -> (p: Piece)
        ensures
            p.piece_type == piece_type,
            p.color == color,
            p.index == glyph_index(piece_type, color),
    {
        Piece { piece_type, color, index: get_piece_index(piece_type, color) }
    }

    /// The letter that stands for this piece in a board diagram.
    pub fn symbol(&self) -> (c: char)
        ensures
            c == piece_symbol(self.piece_type, self.color),
    {
        match self.color {
            PieceColor::White => self.piece_type.letter(),
            PieceColor::Black => match self.piece_type {
                PieceType::King => 'k',
                PieceType::Queen => 'q',
                PieceType::Rook => 'r',
                PieceType::Bishop => 'b',
                PieceType::Knight => 'n',
                PieceType::Pawn => 'p',
            },
        }
    }
}

} // verus!
