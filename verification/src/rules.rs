//! The rules of chess as predicates on a grid.
//!
//! Squares are pairs of mathematical integers, file first. Nothing here is
//! executable: these definitions are what the contracts of the executable
//! functions speak of.

use vstd::prelude::*;
use crate::types::{CastlingTracker, Cell, Color, GameState, Piece};

verus! {

/// The sixty-four cells of a board, rank by rank from White's side.
pub type Grid = Seq<Cell>;

/// Everything that decides which moves are legal.
pub ghost struct PositionModel {
    /// What stands where.
    pub grid: Grid,
    /// The side to move.
    pub turn: Color,
    /// Which kings and rooks have left their first squares.
    pub moved: CastlingTracker,
    /// The square a pawn has just stepped over, by file and rank.
    pub en_passant: Option<(int, int)>,
}

/// Whether a file and rank lie on the board.
pub open spec fn on_board(f: int, r: int) -> bool {
    0 <= f < 8 && 0 <= r < 8
}

/// What stands on a file and rank.
pub open spec fn at(g: Grid, f: int, r: int) -> Cell {
    g[r * 8 + f]
}

/// The grid with one cell replaced.
pub open spec fn put(g: Grid, f: int, r: int, c: Cell) -> Grid {
    g.update(r * 8 + f, c)
}

/// Whether a piece of the given colour stands on a file and rank.
pub open spec fn occupied_by(g: Grid, f: int, r: int, c: Color) -> bool {
    match at(g, f, r) {
        Some((_, k)) => k == c,
        None => false,
    }
}

/// The size of a number without its sign.
pub open spec fn abs(x: int) -> int {
    if x < 0 {
        -x
    } else {
        x
    }
}

/// The sign of a number: -1, 0 or 1.
pub open spec fn sign(x: int) -> int {
    if x > 0 {
        1
    } else if x < 0 {
        -1
    } else {
        0
    }
}

/// `k` steps in the direction of a sign.
pub open spec fn scaled(k: int, s: int) -> int {
    if s > 0 {
        k
    } else if s < 0 {
        -k
    } else {
        0
    }
}

/// The number of king steps that cover a displacement.
pub open spec fn span(df: int, dr: int) -> int {
    if abs(df) >= abs(dr) {
        abs(df)
    } else {
        abs(dr)
    }
}

/// A displacement along a file or along a rank.
pub open spec fn straight(df: int, dr: int) -> bool {
    (df == 0 && dr != 0) || (df != 0 && dr == 0)
}

/// A displacement along a diagonal.
pub open spec fn diagonal(df: int, dr: int) -> bool {
    df != 0 && abs(df) == abs(dr)
}

/// The displacement of a knight's jump.
pub open spec fn knight_jump(df: int, dr: int) -> bool {
    (abs(df) == 1 && abs(dr) == 2) || (abs(df) == 2 && abs(dr) == 1)
}

/// What stands `k` steps from a square along the line towards another.
pub open spec fn on_line(g: Grid, f: int, r: int, tf: int, tr: int, k: int) -> Cell {
    at(g, f + scaled(k, sign(tf - f)), r + scaled(k, sign(tr - r)))
}

/// Whether every square strictly between two squares of one line is empty.
pub open spec fn between_clear(g: Grid, f: int, r: int, tf: int, tr: int) -> bool {
    forall|k: int| 1 <= k < span(tf - f, tr - r) ==> (#[trigger] on_line(g, f, r, tf, tr, k)) is None
}

/// Whether a piece of kind `p` and colour `c` on `(f, r)` could capture on
/// `(tf, tr)`: the shape of its move, and for a sliding piece a clear path.
/// A pawn reaches its two forward diagonals only.
pub open spec fn reaches(g: Grid, p: Piece, c: Color, f: int, r: int, tf: int, tr: int) -> bool {
    let df = tf - f;
    let dr = tr - r;
    match p {
        Piece::King => span(df, dr) == 1,
        Piece::Knight => knight_jump(df, dr),
        Piece::Pawn => abs(df) == 1 && dr == c.forward(),
        Piece::Rook => straight(df, dr) && between_clear(g, f, r, tf, tr),
        Piece::Bishop => diagonal(df, dr) && between_clear(g, f, r, tf, tr),
        Piece::Queen => (straight(df, dr) || diagonal(df, dr)) && between_clear(g, f, r, tf, tr),
    }
}

/// Whether a piece of colour `by` stands on `(f, r)` and could capture on `(tf, tr)`.
pub open spec fn attacks(g: Grid, f: int, r: int, tf: int, tr: int, by: Color) -> bool {
    on_board(f, r) && match at(g, f, r) {
        Some((p, c)) => c == by && reaches(g, p, c, f, r, tf, tr),
        None => false,
    }
}

/// Whether some piece of colour `by` could capture on `(tf, tr)`.
pub open spec fn attacked(g: Grid, tf: int, tr: int, by: Color) -> bool {
    exists|f: int, r: int| #[trigger] attacks(g, f, r, tf, tr, by)
}

/// Whether a king of colour `c` stands on `(f, r)` and is attacked there.
pub open spec fn king_attacked_on(g: Grid, f: int, r: int, c: Color) -> bool {
    on_board(f, r) && at(g, f, r) == Some((Piece::King, c)) && attacked(g, f, r, c.other())
}

/// Whether a king of colour `c` is attacked.
pub open spec fn in_check(g: Grid, c: Color) -> bool {
    exists|f: int, r: int| #[trigger] king_attacked_on(g, f, r, c)
}

/// One step of a pawn straight ahead onto an empty square.
pub open spec fn pawn_push(g: Grid, c: Color, f: int, r: int, tf: int, tr: int) -> bool {
    tf == f && tr == r + c.forward() && at(g, tf, tr) is None
}

/// Two steps of a pawn from its first rank over an empty square onto an empty square.
pub open spec fn pawn_double(g: Grid, c: Color, f: int, r: int, tf: int, tr: int) -> bool {
    tf == f && r == c.pawn_rank() && tr == r + 2 * c.forward() && at(g, f, r + c.forward()) is None
        && at(g, tf, tr) is None
}

/// A pawn's capture of an enemy piece on a forward diagonal.
pub open spec fn pawn_capture(g: Grid, c: Color, f: int, r: int, tf: int, tr: int) -> bool {
    abs(tf - f) == 1 && tr == r + c.forward() && occupied_by(g, tf, tr, c.other())
}

/// A pawn's capture in passing: onto the empty square that an enemy pawn
/// beside it has just stepped over.
pub open spec fn pawn_in_passing(
    pos: PositionModel,
    c: Color,
    f: int,
    r: int,
    tf: int,
    tr: int,
) -> bool {
    abs(tf - f) == 1 && tr == r + c.forward() && pos.en_passant == Some((tf, tr)) && at(
        pos.grid,
        tf,
        tr,
    ) is None && at(pos.grid, tf, r) == Some((Piece::Pawn, c.other()))
}

/// The file a king of either side castles to.
pub open spec fn castle_file(king_side: bool) -> int {
    if king_side {
        6
    } else {
        2
    }
}

/// The file the king passes over when it castles.
pub open spec fn transit_file(king_side: bool) -> int {
    if king_side {
        5
    } else {
        3
    }
}

/// The file of the rook that takes part.
pub open spec fn rook_file(king_side: bool) -> int {
    if king_side {
        7
    } else {
        0
    }
}

/// Whether the squares between king and rook are empty.
pub open spec fn castle_path_empty(g: Grid, c: Color, king_side: bool) -> bool {
    let h = c.home_rank();
    at(g, transit_file(king_side), h) is None && at(g, castle_file(king_side), h) is None && (
    king_side || at(g, 1, h) is None)
}

/// Whether the king's first square, the square it passes and the square it
/// lands on are all free of attack.
pub open spec fn castle_path_safe(g: Grid, c: Color, king_side: bool) -> bool {
    let h = c.home_rank();
    !attacked(g, 4, h, c.other()) && !attacked(g, transit_file(king_side), h, c.other())
        && !attacked(g, castle_file(king_side), h, c.other())
}

/// Whether the king of colour `c` may castle on one side: neither king nor
/// rook has moved, both stand on their first squares, the squares between
/// them are empty, and the king neither stands on, passes nor reaches an
/// attacked square.
pub open spec fn castle_ready(pos: PositionModel, c: Color, king_side: bool) -> bool {
    let h = c.home_rank();
    !pos.moved.king(c) && !pos.moved.rook(c, king_side) && at(pos.grid, 4, h) == Some(
        (Piece::King, c),
    ) && at(pos.grid, rook_file(king_side), h) == Some((Piece::Rook, c)) && castle_path_empty(
        pos.grid,
        c,
        king_side,
    ) && castle_path_safe(pos.grid, c, king_side)
}

/// Castling of the king of colour `c` from `(f, r)` to `(tf, tr)` on one
/// side: the king goes from its first square two files towards the rook.
pub open spec fn castles(
    pos: PositionModel,
    c: Color,
    f: int,
    r: int,
    tf: int,
    tr: int,
    king_side: bool,
) -> bool {
    f == 4 && r == c.home_rank() && tr == r && tf == castle_file(king_side) && castle_ready(
        pos,
        c,
        king_side,
    )
}

/// Whether the piece on `(f, r)` may move to `(tf, tr)` by the shape of its
/// move, the pieces in its way and the rights to castle and to capture in
/// passing. Whether its own king is left attacked is not asked here.
pub open spec fn pseudo_legal(pos: PositionModel, f: int, r: int, tf: int, tr: int) -> bool {
    on_board(f, r) && on_board(tf, tr) && match at(pos.grid, f, r) {
        None => false,
        Some((p, c)) => match p {
            Piece::Pawn => pawn_push(pos.grid, c, f, r, tf, tr) || pawn_double(
                pos.grid,
                c,
                f,
                r,
                tf,
                tr,
            ) || pawn_capture(pos.grid, c, f, r, tf, tr) || pawn_in_passing(pos, c, f, r, tf, tr),
            Piece::King => (reaches(pos.grid, p, c, f, r, tf, tr) && !occupied_by(
                pos.grid,
                tf,
                tr,
                c,
            )) || castles(pos, c, f, r, tf, tr, true) || castles(pos, c, f, r, tf, tr, false),
            _ => reaches(pos.grid, p, c, f, r, tf, tr) && !occupied_by(pos.grid, tf, tr, c),
        },
    }
}

/// The kind of piece that arrives: the chosen kind for a pawn on its last
/// rank, else the kind that left.
pub open spec fn arriving(p: Piece, c: Color, tr: int, promotion: Piece) -> Piece {
    if p == Piece::Pawn && tr == c.last_rank() {
        promotion
    } else {
        p
    }
}

/// The grid after the piece on `(f, r)` has moved to `(tf, tr)`: the piece
/// leaves its square and replaces what stood on the destination; a pawn that
/// moved to another file and rank onto an empty square removes what stood
/// beside it on the file it arrives on; a king that moved two files from
/// the king's file brings the rook of that side over.
pub open spec fn grid_after(g: Grid, promotion: Piece, f: int, r: int, tf: int, tr: int) -> Grid {
    match at(g, f, r) {
        None => g,
        Some((p, c)) => {
            let g1 = put(put(g, f, r, None), tf, tr, Some((arriving(p, c, tr, promotion), c)));
            if p == Piece::Pawn && tf != f && tr != r && at(g, tf, tr) is None {
                put(g1, tf, r, None)
            } else if p == Piece::King && f == 4 && tf == 6 {
                put(put(g1, 7, r, None), 5, r, Some((Piece::Rook, c)))
            } else if p == Piece::King && f == 4 && tf == 2 {
                put(put(g1, 0, r, None), 3, r, Some((Piece::Rook, c)))
            } else {
                g1
            }
        },
    }
}

/// Whether what stands on a square differs between two grids.
pub open spec fn changed(before: Grid, after: Grid, f: int, r: int) -> bool {
    at(before, f, r) != at(after, f, r)
}

/// The record of moved kings and rooks after the grid has changed: a flag
/// is raised when what stands on the first square of that king or rook is
/// no longer what stood there, and no flag is ever lowered.
pub open spec fn moved_after(m: CastlingTracker, before: Grid, after: Grid) -> CastlingTracker {
    CastlingTracker {
        white_king: m.white_king || changed(before, after, 4, 0),
        white_rook_a: m.white_rook_a || changed(before, after, 0, 0),
        white_rook_h: m.white_rook_h || changed(before, after, 7, 0),
        black_king: m.black_king || changed(before, after, 4, 7),
        black_rook_a: m.black_rook_a || changed(before, after, 0, 7),
        black_rook_h: m.black_rook_h || changed(before, after, 7, 7),
    }
}

/// The square that may be captured on in passing after a move: the square
/// between the two ends of the move of a pawn that moved two ranks, else none.
pub open spec fn en_passant_after(g: Grid, f: int, r: int, tf: int, tr: int) -> Option<(int, int)> {
    match at(g, f, r) {
        Some((Piece::Pawn, _)) => if abs(tr - r) == 2 {
            Some((f, (r + tr) / 2))
        } else {
            None
        },
        _ => None,
    }
}

/// The position after a move of the piece on `(f, r)` to `(tf, tr)`.
pub open spec fn position_after(
    pos: PositionModel,
    promotion: Piece,
    f: int,
    r: int,
    tf: int,
    tr: int,
) -> PositionModel {
    PositionModel {
        grid: grid_after(pos.grid, promotion, f, r, tf, tr),
        turn: pos.turn.other(),
        moved: moved_after(
            pos.moved,
            pos.grid,
            grid_after(pos.grid, promotion, f, r, tf, tr),
        ),
        en_passant: en_passant_after(pos.grid, f, r, tf, tr),
    }
}

/// Whether the piece on `(f, r)` may move to `(tf, tr)`: the move is
/// pseudo-legal and, once made, does not leave the mover's own king
/// attacked. The move is tried with a queen for a promoted pawn; the kind
/// of piece makes no difference to the answer.
pub open spec fn legal(pos: PositionModel, f: int, r: int, tf: int, tr: int) -> bool {
    pseudo_legal(pos, f, r, tf, tr) && match at(pos.grid, f, r) {
        Some((_, c)) => !in_check(grid_after(pos.grid, Piece::Queen, f, r, tf, tr), c),
        None => false,
    }
}

/// Whether a piece of the side to move stands on `(f, r)` and may move to `(tf, tr)`.
pub open spec fn playable(pos: PositionModel, f: int, r: int, tf: int, tr: int) -> bool {
    on_board(f, r) && occupied_by(pos.grid, f, r, pos.turn) && legal(pos, f, r, tf, tr)
}

/// Whether the side to move has any legal move.
pub open spec fn can_move(pos: PositionModel) -> bool {
    exists|f: int, r: int, tf: int, tr: int| #[trigger] playable(pos, f, r, tf, tr)
}

/// What the side to move faces: check or not, with or without a legal move.
pub open spec fn status(pos: PositionModel) -> GameState {
    if in_check(pos.grid, pos.turn) {
        if can_move(pos) {
            GameState::Check
        } else {
            GameState::Checkmate
        }
    } else {
        if can_move(pos) {
            GameState::InProgress
        } else {
            GameState::Stalemate
        }
    }
}

/// Whether a king of colour `c` stands on `(kf, kr)` and nowhere else.
pub open spec fn sole_king_on(g: Grid, kf: int, kr: int, c: Color) -> bool {
    on_board(kf, kr) && at(g, kf, kr) == Some((Piece::King, c)) && forall|a: int, b: int|
        on_board(a, b) && #[trigger] at(g, a, b) == Some((Piece::King, c)) ==> a == kf && b == kr
}

/// Whether exactly one king of colour `c` stands on the grid.
pub open spec fn one_king(g: Grid, c: Color) -> bool {
    exists|kf: int, kr: int| #[trigger] sole_king_on(g, kf, kr, c)
}

/// Whether the square to capture on in passing, if there is one, is the
/// empty square behind a pawn of the side that has just moved, on the
/// third rank of that side.
pub open spec fn en_passant_sound(pos: PositionModel) -> bool {
    match pos.en_passant {
        None => true,
        Some((f, r)) => {
            let mover = pos.turn.other();
            on_board(f, r) && r == mover.pawn_rank() + mover.forward() && at(pos.grid, f, r) is None
                && at(pos.grid, f, r + mover.forward()) == Some((Piece::Pawn, mover))
        },
    }
}

/// Whether a position can occur in a game: each side has exactly one
/// king, the side that has just moved has not left its king attacked, and
/// the square to capture on in passing fits the board.
pub open spec fn sound(pos: PositionModel) -> bool {
    pos.grid.len() == 64 && one_king(pos.grid, Color::White) && one_king(pos.grid, Color::Black)
        && !in_check(pos.grid, pos.turn.other()) && en_passant_sound(pos)
}

/// The cell of the opening position on a file and rank.
pub open spec fn opening_cell(f: int, r: int) -> Cell {
    let c = if r <= 1 {
        Color::White
    } else {
        Color::Black
    };
    if r == 1 || r == 6 {
        Some((Piece::Pawn, c))
    } else if r == 0 || r == 7 {
        if f == 0 || f == 7 {
            Some((Piece::Rook, c))
        } else if f == 1 || f == 6 {
            Some((Piece::Knight, c))
        } else if f == 2 || f == 5 {
            Some((Piece::Bishop, c))
        } else if f == 3 {
            Some((Piece::Queen, c))
        } else {
            Some((Piece::King, c))
        }
    } else {
        None
    }
}

/// The opening position: each side's pieces on its first rank in the order
/// rook, knight, bishop, queen, king, bishop, knight, rook, a rank of pawns
/// before them, White to move, nothing moved, nothing to capture in passing.
pub open spec fn opening() -> PositionModel {
    PositionModel {
        grid: Seq::new(64, |i: int| opening_cell(i % 8, i / 8)),
        turn: Color::White,
        moved: CastlingTracker {
            white_king: false,
            white_rook_a: false,
            white_rook_h: false,
            black_king: false,
            black_rook_a: false,
            black_rook_h: false,
        },
        en_passant: None,
    }
}

} // verus!
