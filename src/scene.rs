use vstd::prelude::*;

use crate::board::{
    count_occupied, lemma_count_update, new_standard_board, on_board, square, standard_occupant,
    Board,
};
use crate::layout::{compute_layout, is_layout_for, is_near, near, BoardConfiguration, ScreenPos};
use crate::piece::Piece;
use crate::render::{
    piece_visuals, rendered_pieces, rendered_tiles, tile_visuals, Visual, DRAG_DEPTH, PIECE_DEPTH,
};

verus! {

/// The drag in progress: which piece drawable follows the pointer, and the
/// square the drag began on.
#[derive(Clone, Copy, Debug, PartialEq, Eq, Structural)]
pub struct Dragging {
    pub piece: usize,
    pub origin_row: usize,
    pub origin_col: usize,
}

/// Where the pointer is on screen, if it is over the window.
#[derive(Clone, Copy, Debug, PartialEq, Eq, Structural)]
pub struct CursorPosition {
    pub position: Option<ScreenPos>,
}

/// The pointer as seen in one frame: its position, whether the primary
/// button is held, and whether it was released during the frame.
#[derive(Clone, Copy, Debug, PartialEq, Eq, Structural)]
pub struct PointerInput {
    pub cursor: CursorPosition,
    pub held: bool,
    pub just_released: bool,
}

/// Which of the three transitions fired during one frame.
#[derive(Clone, Copy, Debug, PartialEq, Eq, Structural)]
pub struct DragStep {
    pub started: bool,
    pub moved: bool,
    pub dropped: bool,
}

/// The scene as a value: the board, its layout, the squares' drawables, one
/// slot per piece drawable (empty once the piece was captured), and the drag
/// in progress.
pub struct SceneView {
    pub board: Seq<Option<Piece>>,
    pub config: BoardConfiguration,
    pub tiles: Seq<Visual>,
    pub pieces: Seq<Option<Visual>>,
    pub dragging: Option<Dragging>,
}

impl SceneView {
    /// 64 squares, 64 tiles and 64 piece slots, a well-formed layout, and a
    /// drag, if any, that holds a piece drawable and began on the board.
    pub open spec fn wf(&self) -> bool {
        &&& self.board.len() == 64
        &&& self.config.wf()
        &&& self.tiles.len() == 64
        &&& self.pieces.len() == 64
        &&& match self.dragging {
            Some(d) => {
                &&& d.piece < 64
                &&& self.pieces[d.piece as int] is Some
                &&& on_board(d.origin_row as int, d.origin_col as int)
            },
            None => true,
        }
    }
}

/// Whether the piece drawable in slot `i` stands strictly within `half` of
/// the point `p` on both axes.
pub open spec fn hits(pieces: Seq<Option<Visual>>, i: int, p: ScreenPos, half: int) -> bool {
    match pieces[i] {
        Some(v) => near(v.position, p, half),
        None => false,
    }
}

/// The first slot from `i` on whose drawable `hits` the point `p`, or the
/// number of slots if there is none.
pub open spec fn first_hit_from(pieces: Seq<Option<Visual>>, p: ScreenPos, half: int, i: int) -> int
    decreases pieces.len() - i,
{
    if i < 0 || i >= pieces.len() {
        pieces.len() as int
    } else if hits(pieces, i, p, half) {
        i
    } else {
        first_hit_from(pieces, p, half, i + 1)
    }
}

/// The search from slot `k` stops at a slot that `hits` the point, or at the
/// end, and passes over only slots that do not.
pub proof fn lemma_first_hit(pieces: Seq<Option<Visual>>, p: ScreenPos, half: int, k: int)
    requires
        0 <= k <= pieces.len(),
    ensures
        k <= first_hit_from(pieces, p, half, k) <= pieces.len(),
        first_hit_from(pieces, p, half, k) < pieces.len() ==> hits(
            pieces,
            first_hit_from(pieces, p, half, k),
            p,
            half,
        ),
        forall|j: int| k <= j < first_hit_from(pieces, p, half, k) ==> !#[trigger] hits(pieces, j, p, half),
    decreases pieces.len() - k,
{
    if k < pieces.len() && !hits(pieces, k, p, half) {
        lemma_first_hit(pieces, p, half, k + 1);
    }
}

/// Board after a drop from square `from` to square `to` (positions in the
/// row-major list): the destination is cleared, and the piece that stood on
/// `from`, if any, leaves it for `to`. A drop on its own square changes
/// nothing.
pub open spec fn board_after_drop(cells: Seq<Option<Piece>>, from: int, to: int) -> Seq<Option<Piece>> {
    let cleared = cells.update(from, None).update(to, None);
    match cells[from] {
        Some(p) => cleared.update(to, Some(p)),
        None => cleared,
    }
}

/// Piece slots after the drag of slot `dragged` ends at `target`, the centre
/// of the square dropped on: the dragged drawable rests at `target`, and every
/// other drawable within half a square of `target` is captured. Testing
/// against the square's centre rather than the pointer removes the drawable
/// resting on the square that the board clears, also when the pointer is
/// released on the square's edge or off the board.
pub open spec fn pieces_after_drop(
    pieces: Seq<Option<Visual>>,
    dragged: int,
    target: ScreenPos,
    half: int,
) -> Seq<Option<Visual>> {
    Seq::new(
        pieces.len(),
        |i: int|
            if i == dragged {
                match pieces[i] {
                    Some(v) => Some(Visual { position: target, depth: PIECE_DEPTH, index: v.index }),
                    None => None,
                }
            } else if hits(pieces, i, target, half) {
                None
            } else {
                pieces[i]
            },
    )
}

/// Whether a drag starts: the button is held, no drag is in progress, and
/// some piece drawable stands within half a square of the pointer.
pub open spec fn start_fires(s: SceneView, cursor: Option<ScreenPos>, held: bool) -> bool {
    match cursor {
        Some(p) => held && s.dragging is None && first_hit_from(
            s.pieces,
            p,
            s.config.half_cell_size as int,
            0,
        ) < s.pieces.len(),
        None => false,
    }
}

/// The scene after a press check: where a drag starts, it takes the first
/// piece drawable under the pointer and records the square under the
/// pointer as its origin.
pub open spec fn after_start_drag(s: SceneView, cursor: Option<ScreenPos>, held: bool) -> SceneView {
    if start_fires(s, cursor, held) {
        let p = cursor->Some_0;
        SceneView {
            dragging: Some(
                Dragging {
                    piece: first_hit_from(s.pieces, p, s.config.half_cell_size as int, 0) as usize,
                    origin_row: s.config.row_at(p) as usize,
                    origin_col: s.config.col_at(p) as usize,
                },
            ),
            ..s
        }
    } else {
        s
    }
}

/// Whether the dragged drawable follows the pointer: a drag is in progress
/// and the pointer is over the window.
pub open spec fn follow_fires(s: SceneView, cursor: Option<ScreenPos>) -> bool {
    s.dragging is Some && cursor is Some
}

/// The scene after the dragged drawable, if any, was put at the pointer,
/// above every other drawable.
pub open spec fn after_follow(s: SceneView, cursor: Option<ScreenPos>) -> SceneView {
    if follow_fires(s, cursor) {
        let d = s.dragging->Some_0;
        let v = s.pieces[d.piece as int]->Some_0;
        SceneView {
            pieces: s.pieces.update(
                d.piece as int,
                Some(Visual { position: cursor->Some_0, depth: DRAG_DEPTH, index: v.index }),
            ),
            ..s
        }
    } else {
        s
    }
}

/// Whether a drop happens: the button was released during a drag and the
/// pointer is over the window.
pub open spec fn drop_fires(s: SceneView, cursor: Option<ScreenPos>, just_released: bool) -> bool {
    just_released && s.dragging is Some && cursor is Some
}

/// The scene after a release check: where a drop happens, the piece moves on
/// the board from the drag's origin to the square under the pointer, the
/// dragged drawable rests on that square, the drawable of a piece it
/// captures is removed, and the drag ends.
pub open spec fn after_drop(s: SceneView, cursor: Option<ScreenPos>, just_released: bool) -> SceneView {
    if drop_fires(s, cursor, just_released) {
        let d = s.dragging->Some_0;
        let p = cursor->Some_0;
        let row = s.config.row_at(p);
        let col = s.config.col_at(p);
        SceneView {
            board: board_after_drop(
                s.board,
                square(d.origin_row as int, d.origin_col as int),
                square(row, col),
            ),
            pieces: pieces_after_drop(
                s.pieces,
                d.piece as int,
                s.config.center(row, col),
                s.config.half_cell_size as int,
            ),
            dragging: None,
            ..s
        }
    } else {
        s
    }
}

/// The scene after one frame: the press check, then the pointer follow,
/// then the release check. A drag started in this frame is not dropped in
/// the same frame.
pub open spec fn after_tick(s: SceneView, input: PointerInput) -> SceneView {
    let cursor = input.cursor.position;
    let s2 = after_follow(after_start_drag(s, cursor, input.held), cursor);
    if s.dragging is Some {
        after_drop(s2, cursor, input.just_released)
    } else {
        s2
    }
}

/// The board, its layout and drawables, and the pointer-driven drag of pieces.
pub struct BoardScene {
    board: Board,
    config: BoardConfiguration,
    tiles: Vec<Visual>,
    pieces: Vec<Option<Visual>>,
    dragging: Option<Dragging>,
}

impl View for BoardScene {
    type V = SceneView;

    closed spec fn view(&self) -> SceneView {
        SceneView {
            board: self.board@,
            config: self.config,
            tiles: self.tiles@,
            pieces: self.pieces@,
            dragging: self.dragging,
        }
    }
}

impl BoardScene {
    /// The scene's parts fit together.
    pub open spec fn wf(&self) -> bool {
        self@.wf()
    }

    /// The starting position laid out on a window of `width` by `height`
    /// pixels, with no drag in progress.
    pub fn new(width: u32, height: u32) -> (s: BoardScene)
        ensures
            s.wf(),
            forall|row: int, col: int|
                on_board(row, col) ==> #[trigger] s@.board[square(row, col)] == standard_occupant(row, col),
            is_layout_for(s@.config, width as int, height as int),
            s@.tiles == rendered_tiles(s@.config),
            s@.pieces == rendered_pieces(s@.config, s@.board),
            s@.dragging is None,
    {
        let board = new_standard_board();
        let config = compute_layout(width, height);
        let tiles = tile_visuals(&config);
        let pieces = piece_visuals(&board, &config);
        assert forall|row: int, col: int| on_board(row, col) implies #[trigger] board@[square(row, col)]
            == standard_occupant(row, col) by {
            assert(board.cell(row, col) == standard_occupant(row, col));
        }
        BoardScene { board, config, tiles, pieces, dragging: None }
    }

    /// Lays the board out anew on a window of `width` by `height` pixels and
    /// redraws every square and piece from the board. A drag in progress is
    /// dropped without moving anything: its drawable is redrawn on its square.
    pub fn resize(&mut self, width: u32, height: u32)
        requires
            old(self).wf(),
        ensures
            final(self).wf(),
            final(self)@.board == old(self)@.board,
            is_layout_for(final(self)@.config, width as int, height as int),
            final(self)@.tiles == rendered_tiles(final(self)@.config),
            final(self)@.pieces == rendered_pieces(final(self)@.config, final(self)@.board),
            final(self)@.dragging is None,
    {
        self.config = compute_layout(width, height);
        self.tiles = tile_visuals(&self.config);
        self.pieces = piece_visuals(&self.board, &self.config);
        self.dragging = None;
    }

    /// The first piece slot whose drawable stands within half a square of `p`,
    /// or the number of slots if there is none.
    fn first_hit(&self, p: ScreenPos) -> (i: usize)
        requires
            self.wf(),
        ensures
            i == first_hit_from(self@.pieces, p, self@.config.half_cell_size as int, 0),
    {
        let half = self.config.half_cell_size;
        let ghost pieces = self@.pieces;
        let mut i: usize = 0;
        while i < self.pieces.len()
            invariant
                self.wf(),
                pieces == self@.pieces,
                half == self@.config.half_cell_size,
                0 <= i <= pieces.len(),
                first_hit_from(pieces, p, half as int, 0) == first_hit_from(pieces, p, half as int, i as int),
            decreases pieces.len() - i,
        {
            if let Some(v) = self.pieces[i] {
                if is_near(v.position, p, half) {
                    return i;
                }
            }
            i += 1;
        }
        i
    }

    /// Starts a drag when the button is held, no drag is in progress, and a
    /// piece drawable stands within half a square of the pointer; returns
    /// whether one started.
    pub fn start_drag(&mut self, cursor: &CursorPosition, held: bool) -> (started: bool)
        requires
            old(self).wf(),
        ensures
            final(self).wf(),
            started == start_fires(old(self)@, cursor.position, held),
            final(self)@ == after_start_drag(old(self)@, cursor.position, held),
    {
        if !held || self.dragging.is_some() {
            return false;
        }
        match cursor.position {
            Some(p) => {
                let i = self.first_hit(p);
                if i >= self.pieces.len() {
                    return false;
                }
                proof {
                    lemma_first_hit(self@.pieces, p, self@.config.half_cell_size as int, 0);
                }
                let (row, col) = self.config.board_cell(p);
                self.dragging = Some(Dragging { piece: i, origin_row: row, origin_col: col });
                proof {
                    assert(self@ == after_start_drag(old(self)@, cursor.position, held));
                }
                true
            },
            None => false,
        }
    }

    /// While a drag is in progress, puts the dragged drawable at the pointer,
    /// above every other drawable; returns whether it moved.
    pub fn follow_pointer(&mut self, cursor: &CursorPosition) -> (moved: bool)
        requires
            old(self).wf(),
        ensures
            final(self).wf(),
            moved == follow_fires(old(self)@, cursor.position),
            final(self)@ == after_follow(old(self)@, cursor.position),
    {
        match (self.dragging, cursor.position) {
            (Some(d), Some(p)) => {
                if let Some(v) = self.pieces[d.piece] {
                    self.pieces.set(d.piece, Some(Visual { position: p, depth: DRAG_DEPTH, index: v.index }));
                }
                proof {
                    assert(self@ == after_follow(old(self)@, cursor.position));
                }
                true
            },
            _ => false,
        }
    }

    /// When the button is released during a drag: moves the piece on the board
    /// from the drag's origin to the square under the pointer, clearing that
    /// square first; rests the dragged drawable on that square; removes every
    /// other piece drawable standing within half a square of the square's
    /// centre; and ends the drag. Returns whether a drop happened.
    pub fn drop_piece(&mut self, cursor: &CursorPosition, just_released: bool) -> (dropped: bool)
        requires
            old(self).wf(),
        ensures
            final(self).wf(),
            dropped == drop_fires(old(self)@, cursor.position, just_released),
            final(self)@ == after_drop(old(self)@, cursor.position, just_released),
    {
        if !just_released {
            return false;
        }
        let d = match self.dragging {
            Some(d) => d,
            None => return false,
        };
        let p = match cursor.position {
            Some(p) => p,
            None => return false,
        };
        let ghost s = self@;
        let (row, col) = self.config.board_cell(p);
        let target = self.config.cell_position(row, col);
        let half = self.config.half_cell_size;

        let moving = self.board.take(d.origin_row, d.origin_col);
        self.board.take(row, col);
        if let Some(piece) = moving {
            self.board.set(row, col, piece);
        }
        assert(self.board@ =~= board_after_drop(
            s.board,
            square(d.origin_row as int, d.origin_col as int),
            square(row as int, col as int),
        ));

        let ghost board = self.board@;
        let mut i: usize = 0;
        while i < self.pieces.len()
            invariant
                self.board@ == board,
                self.tiles@ == s.tiles,
                self.dragging == s.dragging,
                self.config == s.config,
                half == s.config.half_cell_size,
                self.pieces@.len() == s.pieces.len(),
                0 <= i <= s.pieces.len(),
                d.piece < s.pieces.len(),
                forall|j: int|
                    0 <= j < i ==> #[trigger] self.pieces@[j] == (if j != d.piece && hits(
                        s.pieces,
                        j,
                        target,
                        half as int,
                    ) {
                        None
                    } else {
                        s.pieces[j]
                    }),
                forall|j: int| i <= j < s.pieces.len() ==> #[trigger] self.pieces@[j] == s.pieces[j],
            decreases s.pieces.len() - i,
        {
            if i != d.piece {
                if let Some(v) = self.pieces[i] {
                    if is_near(v.position, target, half) {
                        self.pieces.set(i, None);
                    }
                }
            }
            i += 1;
        }
        if let Some(v) = self.pieces[d.piece] {
            self.pieces.set(d.piece, Some(Visual { position: target, depth: PIECE_DEPTH, index: v.index }));
        }
        self.dragging = None;
        assert(self.pieces@ =~= pieces_after_drop(s.pieces, d.piece as int, target, half as int));
        true
    }

    /// One frame of pointer input: the press check, then the pointer follow,
    /// then, for a drag that was in progress before this frame, the release
    /// check. Returns which of them fired.
    pub fn tick(&mut self, input: &PointerInput) -> (step: DragStep)
        requires
            old(self).wf(),
        ensures
            final(self).wf(),
            final(self)@ == after_tick(old(self)@, *input),
            step.started == start_fires(old(self)@, input.cursor.position, input.held),
            step.moved == follow_fires(
                after_start_drag(old(self)@, input.cursor.position, input.held),
                input.cursor.position,
            ),
            step.dropped == (old(self)@.dragging is Some && drop_fires(
                after_follow(
                    after_start_drag(old(self)@, input.cursor.position, input.held),
                    input.cursor.position,
                ),
                input.cursor.position,
                input.just_released,
            )),
    {
        let was_dragging = self.dragging.is_some();
        let started = self.start_drag(&input.cursor, input.held);
        let moved = self.follow_pointer(&input.cursor);
        let dropped = if was_dragging {
            self.drop_piece(&input.cursor, input.just_released)
        } else {
            false
        };
        DragStep { started, moved, dropped }
    }

    /// The board.
    pub fn board(&self) -> (b: &Board)
        ensures
            b@ == self@.board,
    {
        &self.board
    }

    /// The layout of the board on screen.
    pub fn config(&self) -> (c: BoardConfiguration)
        ensures
            c == self@.config,
    {
        self.config
    }

    /// The squares' drawables, in row-major order.
    pub fn tiles(&self) -> (t: &Vec<Visual>)
        ensures
            t@ == self@.tiles,
    {
        &self.tiles
    }

    /// The piece slots: one per square of the board when it was last drawn,
    /// empty where the square was empty or its piece was captured since.
    pub fn pieces(&self) -> (p: &Vec<Option<Visual>>)
        ensures
            p@ == self@.pieces,
    {
        &self.pieces
    }

    /// The drag in progress, if any.
    pub fn dragging(&self) -> (d: Option<Dragging>)
        ensures
            d == self@.dragging,
    {
        self.dragging
    }
}

/// The input of a frame in which the button is held with the pointer at `p`.
pub open spec fn press_at(p: ScreenPos) -> PointerInput {
    PointerInput { cursor: CursorPosition { position: Some(p) }, held: true, just_released: false }
}

/// The input of a frame in which the button is released with the pointer at
/// `p`.
pub open spec fn release_at(p: ScreenPos) -> PointerInput {
    PointerInput { cursor: CursorPosition { position: Some(p) }, held: false, just_released: true }
}

/// A press on a piece drawable starts a drag that begins on the square under
/// the pointer; a release over another square in a later frame moves the
/// piece standing on the first square to the second and empties the first,
/// leaves every other square as it was, and ends the drag.
pub proof fn lemma_drag_round_trip(s: SceneView, press: ScreenPos, release: ScreenPos, i: int)
    requires
        s.wf(),
        s.dragging is None,
        0 <= i < s.pieces.len(),
        hits(s.pieces, i, press, s.config.half_cell_size as int),
        square(s.config.row_at(press), s.config.col_at(press)) != square(
            s.config.row_at(release),
            s.config.col_at(release),
        ),
    ensures
        ({
            let from = square(s.config.row_at(press), s.config.col_at(press));
            let to = square(s.config.row_at(release), s.config.col_at(release));
            let s1 = after_tick(s, press_at(press));
            let s2 = after_tick(s1, release_at(release));
            &&& s1.dragging is Some
            &&& s1.board == s.board
            &&& s2.dragging is None
            &&& s2.board[from] is None
            &&& s2.board[to] == s.board[from]
            &&& forall|k: int| 0 <= k < 64 && k != from && k != to ==> #[trigger] s2.board[k] == s.board[k]
        }),
{
    lemma_first_hit(s.pieces, press, s.config.half_cell_size as int, 0);
}

/// A drop onto a square that holds a piece captures it: the square then holds
/// the dragged piece, the square the drag began on is empty, no other square
/// changes, one piece fewer stands on the board, and the captured piece's
/// drawable, at rest on that square, is removed.
pub proof fn lemma_drop_captures(s: SceneView, release: ScreenPos, j: int)
    requires
        s.wf(),
        s.dragging is Some,
        s.config.cell_size > 0,
        s.board[square(
            s.dragging->Some_0.origin_row as int,
            s.dragging->Some_0.origin_col as int,
        )] is Some,
        s.board[square(s.config.row_at(release), s.config.col_at(release))] is Some,
        square(s.dragging->Some_0.origin_row as int, s.dragging->Some_0.origin_col as int) != square(
            s.config.row_at(release),
            s.config.col_at(release),
        ),
        0 <= j < s.pieces.len(),
        j != s.dragging->Some_0.piece,
        s.pieces[j] is Some,
        s.pieces[j]->Some_0.position == s.config.center(s.config.row_at(release), s.config.col_at(release)),
    ensures
        ({
            let d = s.dragging->Some_0;
            let from = square(d.origin_row as int, d.origin_col as int);
            let to = square(s.config.row_at(release), s.config.col_at(release));
            let s2 = after_drop(s, Some(release), true);
            &&& s2.board[to] == s.board[from]
            &&& s2.board[from] is None
            &&& forall|k: int| 0 <= k < 64 && k != from && k != to ==> #[trigger] s2.board[k] == s.board[k]
            &&& count_occupied(s2.board) + 1 == count_occupied(s.board)
            &&& s2.pieces[j] is None
            &&& s2.dragging is None
        }),
{
    let d = s.dragging->Some_0;
    let from = square(d.origin_row as int, d.origin_col as int);
    let to = square(s.config.row_at(release), s.config.col_at(release));
    let c1 = s.board.update(from, None);
    let c2 = c1.update(to, None);
    lemma_count_update(s.board, from, None);
    lemma_count_update(c1, to, None);
    lemma_count_update(c2, to, s.board[from]);
}

/// While a drag is in progress no second drag starts: the press check leaves
/// the scene as it is, and a frame without a release leaves the board and
/// the drag as they are.
pub proof fn lemma_no_second_drag(s: SceneView, input: PointerInput)
    requires
        s.wf(),
        s.dragging is Some,
    ensures
        !start_fires(s, input.cursor.position, input.held),
        after_start_drag(s, input.cursor.position, input.held) == s,
        !input.just_released ==> after_tick(s, input).board == s.board,
        !input.just_released ==> after_tick(s, input).dragging == s.dragging,
{
}

} // verus!
