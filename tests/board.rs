use chess_board::board::{board_symbols, new_standard_board, Board};
use chess_board::layout::{compute_layout, BoardConfiguration, ScreenPos, UNITS_PER_PIXEL};
use chess_board::piece::{get_piece_index, Piece, PieceColor, PieceType};
use chess_board::render::{piece_visuals, tile_visuals, DARK_TILE_INDEX, LIGHT_TILE_INDEX, PIECE_DEPTH, TILE_DEPTH};
use chess_board::SPRITE_SHEET_W;

const KINDS: [PieceType; 6] = [
    PieceType::King,
    PieceType::Queen,
    PieceType::Rook,
    PieceType::Bishop,
    PieceType::Knight,
    PieceType::Pawn,
];

const BACK_RANK: [PieceType; 8] = [
    PieceType::Rook,
    PieceType::Knight,
    PieceType::Bishop,
    PieceType::Queen,
    PieceType::King,
    PieceType::Bishop,
    PieceType::Knight,
    PieceType::Rook,
];

#[test]
fn standard_board_places_every_piece() {
    let board = new_standard_board();
    let mut occupied = 0;
    let mut white = 0;
    let mut black = 0;
    for row in 0..8 {
        for col in 0..8 {
            let expected = match row {
                0 => Some((BACK_RANK[col], PieceColor::Black)),
                1 => Some((PieceType::Pawn, PieceColor::Black)),
                6 => Some((PieceType::Pawn, PieceColor::White)),
                7 => Some((BACK_RANK[col], PieceColor::White)),
                _ => None,
            };
            let got = board.get(row, col);
            match expected {
                Some((kind, color)) => {
                    let p = got.expect("occupied square");
                    assert_eq!(p.piece_type, kind);
                    assert_eq!(p.color, color);
                    assert_eq!(p.index, get_piece_index(kind, color));
                    occupied += 1;
                    if color == PieceColor::White {
                        white += 1;
                    } else {
                        black += 1;
                    }
                }
                None => assert!(got.is_none()),
            }
        }
    }
    assert_eq!(occupied, 32);
    assert_eq!(white, 16);
    assert_eq!(black, 16);
}

#[test]
fn default_board_is_the_standard_board() {
    let a = Board::default();
    let b = new_standard_board();
    for row in 0..8 {
        for col in 0..8 {
            assert_eq!(a.get(row, col), b.get(row, col));
        }
    }
}

#[test]
fn piece_indices_follow_the_atlas() {
    assert_eq!(get_piece_index(PieceType::King, PieceColor::Black), 0);
    assert_eq!(get_piece_index(PieceType::Queen, PieceColor::Black), 1);
    assert_eq!(get_piece_index(PieceType::Rook, PieceColor::Black), 2);
    assert_eq!(get_piece_index(PieceType::Bishop, PieceColor::Black), 3);
    assert_eq!(get_piece_index(PieceType::Knight, PieceColor::Black), 4);
    assert_eq!(get_piece_index(PieceType::Pawn, PieceColor::Black), 5);
    assert_eq!(get_piece_index(PieceType::King, PieceColor::White), 6);
    assert_eq!(get_piece_index(PieceType::Pawn, PieceColor::White), 11);
}

#[test]
fn piece_index_sides_are_disjoint_and_offset() {
    for &a in KINDS.iter() {
        let black = get_piece_index(a, PieceColor::Black);
        let white = get_piece_index(a, PieceColor::White);
        assert_eq!(white, black + SPRITE_SHEET_W);
        assert_eq!(get_piece_index(a, PieceColor::White), white);
        for &b in KINDS.iter() {
            assert_ne!(get_piece_index(b, PieceColor::Black), white);
        }
    }
}

#[test]
fn take_and_set_move_pieces() {
    let mut board = new_standard_board();
    let rook = board.take(0, 0);
    assert_eq!(rook, Some(Piece::new(PieceType::Rook, PieceColor::Black)));
    assert_eq!(board.get(0, 0), None);
    assert_eq!(board.take(0, 0), None);
    board.set(4, 4, rook.unwrap());
    assert_eq!(board.get(4, 4), rook);
    // Overwriting a square replaces its occupant, whatever side it is.
    board.set(7, 4, rook.unwrap());
    assert_eq!(board.get(7, 4), rook);
}

#[test]
fn symbols_follow_side_and_kind() {
    assert_eq!(Piece::new(PieceType::Knight, PieceColor::White).symbol(), 'N');
    assert_eq!(Piece::new(PieceType::Knight, PieceColor::Black).symbol(), 'n');
    assert_eq!(PieceType::King.letter(), 'K');
    let symbols = board_symbols(&new_standard_board());
    let text: String = symbols.iter().collect();
    assert_eq!(
        text,
        "rnbqkbnrpppppppp                                PPPPPPPPRNBQKBNR"
    );
}

#[test]
fn layout_of_a_square_window() {
    let c = compute_layout(800, 800);
    assert_eq!(c.cell_size, 100 * UNITS_PER_PIXEL);
    assert_eq!(c.half_cell_size, 50 * UNITS_PER_PIXEL);
    assert_eq!(c.board_origin, ScreenPos { x: -400 * UNITS_PER_PIXEL, y: 400 * UNITS_PER_PIXEL });
    assert_eq!(compute_layout(800, 800), c);
}

#[test]
fn layout_uses_the_shorter_side() {
    let c = compute_layout(1024, 768);
    assert_eq!(c.cell_size, 96 * UNITS_PER_PIXEL);
    assert_eq!(c.board_origin, ScreenPos { x: -512 * UNITS_PER_PIXEL, y: 384 * UNITS_PER_PIXEL });
    let odd = compute_layout(801, 999);
    // 801 / 8 = 100.125 pixels, exact in screen units.
    assert_eq!(odd.cell_size * 8, 801 * UNITS_PER_PIXEL);
    assert_eq!(odd.board_origin.x * 2, -801 * UNITS_PER_PIXEL);
    assert_eq!(odd.half_cell_size * 2, odd.cell_size);
    assert_eq!(compute_layout(801, 999), odd);
}

#[test]
fn default_layout_is_empty() {
    let c = BoardConfiguration::default();
    assert_eq!(c.cell_size, 0);
    assert_eq!(c.half_cell_size, 0);
    assert_eq!(c.board_origin, ScreenPos { x: 0, y: 0 });
}

#[test]
fn centers_map_back_to_their_squares() {
    for &(w, h) in [(800u32, 800u32), (1024, 768), (801, 999), (1, 1), (8, 3)].iter() {
        let c = compute_layout(w, h);
        for row in 0..8 {
            for col in 0..8 {
                let p = c.cell_position(row, col);
                assert_eq!(c.board_cell(p), (row, col));
            }
        }
    }
}

#[test]
fn cell_position_exact_values() {
    let c = compute_layout(800, 800);
    assert_eq!(c.cell_position(0, 0), ScreenPos { x: -350 * UNITS_PER_PIXEL, y: 350 * UNITS_PER_PIXEL });
    assert_eq!(c.cell_position(7, 3), ScreenPos { x: -50 * UNITS_PER_PIXEL, y: -350 * UNITS_PER_PIXEL });
}

#[test]
fn points_off_the_board_are_clamped() {
    let c = compute_layout(800, 600);
    let u = UNITS_PER_PIXEL;
    // The board is 600 pixels wide, starting at x = -400.
    assert_eq!(c.board_cell(ScreenPos { x: -10_000 * u, y: 10_000 * u }), (0, 0));
    assert_eq!(c.board_cell(ScreenPos { x: 399 * u, y: -299 * u }), (7, 7));
    assert_eq!(c.board_cell(ScreenPos { x: 190 * u, y: 0 }), (4, 7));
    assert_eq!(c.board_cell(ScreenPos { x: i64::MAX, y: i64::MIN }), (7, 7));
    assert_eq!(c.board_cell(ScreenPos { x: i64::MIN, y: i64::MAX }), (0, 0));
}

#[test]
fn empty_layout_maps_to_the_corners() {
    let c = compute_layout(0, 500);
    assert_eq!(c.cell_size, 0);
    assert_eq!(c.board_cell(ScreenPos { x: 5, y: -5 }), (7, 7));
    assert_eq!(c.board_cell(ScreenPos { x: 0, y: 4000 }), (0, 0));
}

#[test]
fn tiles_form_a_checkerboard() {
    let c = compute_layout(800, 800);
    let tiles = tile_visuals(&c);
    assert_eq!(tiles.len(), 64);
    for row in 0..8 {
        for col in 0..8 {
            let t = tiles[row * 8 + col];
            assert_eq!(t.position, c.cell_position(row, col));
            assert_eq!(t.depth, TILE_DEPTH);
            let expected = if (row + col) % 2 == 0 { LIGHT_TILE_INDEX } else { DARK_TILE_INDEX };
            assert_eq!(t.index, expected);
        }
    }
    assert_eq!(tiles[0].index, 12);
    assert_eq!(tiles[1].index, 13);
}

#[test]
fn piece_drawables_follow_the_board() {
    let c = compute_layout(640, 480);
    let board = new_standard_board();
    let pieces = piece_visuals(&board, &c);
    assert_eq!(pieces.len(), 64);
    assert_eq!(pieces.iter().filter(|p| p.is_some()).count(), 32);
    for row in 0..8 {
        for col in 0..8 {
            match (board.get(row, col), pieces[row * 8 + col]) {
                (Some(p), Some(v)) => {
                    assert_eq!(v.index, p.index);
                    assert_eq!(v.depth, PIECE_DEPTH);
                    assert_eq!(v.position, c.cell_position(row, col));
                }
                (None, None) => {}
                other => panic!("drawable out of step with the board: {:?}", other),
            }
        }
    }
}
