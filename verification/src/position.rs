//! A position and the moves it allows: pseudo-legal moves by the shape of
//! each piece's move, legal moves by trying each on a copy of the board.

use vstd::prelude::*;
use crate::types::{CastlingTracker, Color, GameState, Piece, Square};
use crate::rules::{
    PositionModel, at, can_move, castle_ready, castles, changed, en_passant_sound, grid_after,
    legal, on_board, one_king, pawn_capture, pawn_double, pawn_in_passing, pawn_push, playable,
    position_after, pseudo_legal, sole_king_on, sound, status,
};
use crate::squares::select;
use crate::board::Board;
use crate::attack::{is_attacked, is_in_check, piece_reaches};

verus! {

/// The board together with everything else that decides which moves are
/// legal: the side to move, which kings and rooks have moved, and the
/// square, if any, on which a pawn may be captured in passing.
#[derive(Copy, Clone, Debug)]
pub struct Position {
    pub board: Board,
    pub turn: Color,
    pub moved: CastlingTracker,
    pub en_passant: Option<Square>,
}

impl View for Position {
    type V = PositionModel;

    open spec fn view(&self) -> PositionModel {
        PositionModel {
            grid: self.board@,
            turn: self.turn,
            moved: self.moved,
            en_passant: match self.en_passant {
                Some(s) => Some((s.f(), s.r())),
                None => None,
            },
        }
    }
}

/// The square on a file and rank of the board.
fn square(file: u8, rank: u8) -> (s: Square)
    requires
        file < 8,
        rank < 8,
    ensures
        s.wf(),
        s.f() == file,
        s.r() == rank,
{
    Square { file, rank }
}

/// The rank on which a side's king and rooks start.
fn home_rank_of(c: Color) -> (r: u8)
    ensures
        r == c.home_rank(),
{
    match c {
        Color::White => 0,
        Color::Black => 7,
    }
}

impl Position {
    /// Whether the square to capture on in passing, if there is one, is
    /// the empty square behind a pawn of the side that has just moved.
    fn en_passant_fits(&self) -> (b: bool)
        ensures
            b == en_passant_sound(self@),
    {
        match self.en_passant {
            None => true,
            Some(s) => {
                let (over, landed): (u8, u8) = match self.turn {
                    Color::White => (5, 4),
                    Color::Black => (2, 3),
                };
                if s.file < 8 && s.rank == over {
                    let pawn_there: bool = match self.board.piece_at(square(s.file, landed)) {
                        Some((Piece::Pawn, k)) => k == self.turn.opponent(),
                        _ => false,
                    };
                    self.board.is_empty(s) && pawn_there
                } else {
                    false
                }
            },
        }
    }

    /// Whether the position can occur in a game: each side has exactly one
    /// king, the side that has just moved has not left its king attacked,
    /// and the square to capture on in passing, if there is one, is the
    /// empty square behind a pawn that may have just made a double step.
    pub fn is_sound(&self) -> (b: bool)
        ensures
            b == sound(self@),
    {
        proof {
            self.board.lemma_len();
        }
        has_one_king(&self.board, Color::White) && has_one_king(&self.board, Color::Black)
            && !is_in_check(&self.board, self.turn.opponent()) && self.en_passant_fits()
    }

    /// Whether a pawn of colour `c` on `from` may move to `to`: one step
    /// ahead, two steps from its first rank, a capture on a forward
    /// diagonal, or a capture in passing.
    fn pawn_may_move(&self, c: Color, from: Square, to: Square) -> (b: bool)
        requires
            from.wf(),
            to.wf(),
        ensures
            b == (pawn_push(self@.grid, c, from.f(), from.r(), to.f(), to.r()) || pawn_double(
                self@.grid,
                c,
                from.f(),
                from.r(),
                to.f(),
                to.r(),
            ) || pawn_capture(self@.grid, c, from.f(), from.r(), to.f(), to.r())
                || pawn_in_passing(self@, c, from.f(), from.r(), to.f(), to.r())),
    {
        let fw: i8 = match c {
            Color::White => 1,
            Color::Black => -1,
        };
        let first: u8 = match c {
            Color::White => 1,
            Color::Black => 6,
        };
        let fr: i8 = from.rank as i8;
        let tr: i8 = to.rank as i8;
        let beside: bool = (from.file + 1 == to.file) || (to.file + 1 == from.file);
        if from.file == to.file {
            if tr == fr + fw {
                self.board.is_empty(to)
            } else if from.rank == first && tr == fr + 2 * fw {
                let over = square(from.file, (fr + fw) as u8);
                self.board.is_empty(over) && self.board.is_empty(to)
            } else {
                false
            }
        } else if beside && tr == fr + fw {
            if self.board.is_occupied_by(to, c.opponent()) {
                true
            } else {
                let target_here: bool = match self.en_passant {
                    Some(s) => s.file == to.file && s.rank == to.rank,
                    None => false,
                };
                let passed: bool = match self.board.piece_at(square(to.file, from.rank)) {
                    Some((Piece::Pawn, k)) => k == c.opponent(),
                    _ => false,
                };
                target_here && self.board.is_empty(to) && passed
            }
        } else {
            false
        }
    }

    /// Whether the king of colour `c` may castle on one side.
    pub fn may_castle(&self, c: Color, king_side: bool) -> (b: bool)
        ensures
            b == castle_ready(self@, c, king_side),
    {
        let h = home_rank_of(c);
        let enemy = c.opponent();
        let (rook_f, transit_f, castle_f): (u8, u8, u8) = if king_side {
            (7, 5, 6)
        } else {
            (0, 3, 2)
        };
        if !self.moved.can_castle(c, king_side) {
            return false;
        }
        let king_home: bool = match self.board.piece_at(square(4, h)) {
            Some((Piece::King, k)) => k == c,
            _ => false,
        };
        let rook_home: bool = match self.board.piece_at(square(rook_f, h)) {
            Some((Piece::Rook, k)) => k == c,
            _ => false,
        };
        if !king_home || !rook_home {
            return false;
        }
        let path_empty: bool = self.board.is_empty(square(transit_f, h)) && self.board.is_empty(
            square(castle_f, h),
        ) && (king_side || self.board.is_empty(square(1, h)));
        if !path_empty {
            return false;
        }
        !is_attacked(&self.board, square(4, h), enemy) && !is_attacked(
            &self.board,
            square(transit_f, h),
            enemy,
        ) && !is_attacked(&self.board, square(castle_f, h), enemy)
    }

    /// Whether the king of colour `c` on `from` castles by moving to `to`.
    fn king_castles(&self, c: Color, from: Square, to: Square, king_side: bool) -> (b: bool)
        requires
            from.wf(),
            to.wf(),
        ensures
            b == castles(self@, c, from.f(), from.r(), to.f(), to.r(), king_side),
    {
        let h = home_rank_of(c);
        let castle_f: u8 = if king_side {
            6
        } else {
            2
        };
        from.file == 4 && from.rank == h && to.rank == h && to.file == castle_f
            && self.may_castle(c, king_side)
    }

    /// Whether the piece on `from` may move to `to` by the shape of its
    /// move, the pieces in its way and the rights to castle and to capture
    /// in passing, whether or not its own king is left attacked.
    pub fn is_pseudo_legal(&self, from: Square, to: Square) -> (b: bool)
        requires
            from.wf(),
            to.wf(),
        ensures
            b == pseudo_legal(self@, from.f(), from.r(), to.f(), to.r()),
    {
        match self.board.piece_at(from) {
            None => false,
            Some((p, c)) => match p {
                Piece::Pawn => self.pawn_may_move(c, from, to),
                Piece::King => (piece_reaches(&self.board, p, c, from, to)
                    && !self.board.is_occupied_by(to, c)) || self.king_castles(c, from, to, true)
                    || self.king_castles(c, from, to, false),
                _ => piece_reaches(&self.board, p, c, from, to) && !self.board.is_occupied_by(
                    to,
                    c,
                ),
            },
        }
    }

    /// The destinations of the pseudo-legal moves of the piece on `from`,
    /// in the order of the board read rank by rank; none where the square
    /// is empty.
    pub fn pseudo_legal_moves(&self, from: Square) -> (v: Vec<Square>)
        requires
            from.wf(),
        ensures
            v@ == select(|f: int, r: int| pseudo_legal(self@, from.f(), from.r(), f, r), 64),
    {
        let mut v: Vec<Square> = Vec::new();
        let mut i: usize = 0;
        while i < 64
            invariant
                from.wf(),
                i <= 64,
                v@ == select(
                    |f: int, r: int| pseudo_legal(self@, from.f(), from.r(), f, r),
                    i as int,
                ),
            decreases 64 - i,
        {
            let to = Square::from_index(i);
            if self.is_pseudo_legal(from, to) {
                v.push(to);
            }
            i = i + 1;
        }
        v
    }

    /// The board after the piece on `from` has moved to `to`: the piece
    /// replaces what stood there, a pawn on its last rank becomes
    /// `promotion`, a pawn that captured in passing removes the pawn beside
    /// it, and a king that castled brings its rook over. An empty `from`
    /// leaves the board as it is.
    pub fn board_after(&self, promotion: Piece, from: Square, to: Square) -> (b: Board)
        requires
            from.wf(),
            to.wf(),
        ensures
            b@ == grid_after(self@.grid, promotion, from.f(), from.r(), to.f(), to.r()),
    {
        let mut b = self.board;
        match self.board.piece_at(from) {
            None => {},
            Some((p, c)) => {
                let last: u8 = match c {
                    Color::White => 7,
                    Color::Black => 0,
                };
                let placed: Piece = match p {
                    Piece::Pawn => if to.rank == last {
                        promotion
                    } else {
                        p
                    },
                    _ => p,
                };
                let target_empty = self.board.is_empty(to);
                b.set(from, None);
                b.set(to, Some((placed, c)));
                match p {
                    Piece::Pawn => {
                        if to.file != from.file && to.rank != from.rank && target_empty {
                            b.set(square(to.file, from.rank), None);
                        }
                    },
                    Piece::King => {
                        if from.file == 4 && to.file == 6 {
                            b.set(square(7, from.rank), None);
                            b.set(square(5, from.rank), Some((Piece::Rook, c)));
                        } else if from.file == 4 && to.file == 2 {
                            b.set(square(0, from.rank), None);
                            b.set(square(3, from.rank), Some((Piece::Rook, c)));
                        }
                    },
                    _ => {},
                }
            },
        }
        b
    }

    /// Whether the piece on `from` may move to `to`: the move is
    /// pseudo-legal and, tried on a copy of the board, does not leave the
    /// mover's own king attacked.
    pub fn is_legal(&self, from: Square, to: Square) -> (b: bool)
        requires
            from.wf(),
            to.wf(),
        ensures
            b == legal(self@, from.f(), from.r(), to.f(), to.r()),
    {
        match self.board.piece_at(from) {
            None => false,
            Some((_, c)) => {
                if !self.is_pseudo_legal(from, to) {
                    false
                } else {
                    let scratch = self.board_after(Piece::Queen, from, to);
                    !is_in_check(&scratch, c)
                }
            },
        }
    }

    /// The destinations of the legal moves of the piece on `from`, in the
    /// order of the board read rank by rank; none where the square is empty.
    pub fn legal_moves(&self, from: Square) -> (v: Vec<Square>)
        requires
            from.wf(),
        ensures
            v@ == select(|f: int, r: int| legal(self@, from.f(), from.r(), f, r), 64),
    {
        let mut v: Vec<Square> = Vec::new();
        let mut i: usize = 0;
        while i < 64
            invariant
                from.wf(),
                i <= 64,
                v@ == select(|f: int, r: int| legal(self@, from.f(), from.r(), f, r), i as int),
            decreases 64 - i,
        {
            let to = Square::from_index(i);
            if self.is_legal(from, to) {
                v.push(to);
            }
            i = i + 1;
        }
        v
    }

    /// Whether the piece on `from` has a legal move.
    fn piece_can_move(&self, from: Square) -> (b: bool)
        requires
            from.wf(),
        ensures
            b == exists|tf: int, tr: int| #[trigger]
                legal(self@, from.f(), from.r(), tf, tr),
    {
        let mut i: usize = 0;
        while i < 64
            invariant
                from.wf(),
                i <= 64,
                forall|tf: int, tr: int|
                    on_board(tf, tr) && tr * 8 + tf < i ==> !#[trigger] legal(
                        self@,
                        from.f(),
                        from.r(),
                        tf,
                        tr,
                    ),
            decreases 64 - i,
        {
            let to = Square::from_index(i);
            if self.is_legal(from, to) {
                return true;
            }
            i = i + 1;
        }
        false
    }

    /// Whether the side to move has any legal move.
    pub fn has_legal_move(&self) -> (b: bool)
        ensures
            b == can_move(self@),
    {
        let mut i: usize = 0;
        while i < 64
            invariant
                i <= 64,
                forall|f: int, r: int, tf: int, tr: int|
                    on_board(f, r) && r * 8 + f < i ==> !#[trigger] playable(self@, f, r, tf, tr),
            decreases 64 - i,
        {
            let from = Square::from_index(i);
            if self.board.is_occupied_by(from, self.turn) && self.piece_can_move(from) {
                let ghost w = choose|tf: int, tr: int| #[trigger]
                    legal(self@, from.f(), from.r(), tf, tr);
                assert(playable(self@, from.f(), from.r(), w.0, w.1));
                return true;
            }
            i = i + 1;
        }
        false
    }

    /// What the side to move faces.
    pub fn status(&self) -> (s: GameState)
        ensures
            s == status(self@),
    {
        let checked = is_in_check(&self.board, self.turn);
        let mobile = self.has_legal_move();
        if checked {
            if mobile {
                GameState::Check
            } else {
                GameState::Checkmate
            }
        } else {
            if mobile {
                GameState::InProgress
            } else {
                GameState::Stalemate
            }
        }
    }

    /// The position after the piece on `from` has moved to `to`: the board
    /// changes as in [`Position::board_after`], the turn passes to the other
    /// side, the record of moved kings and rooks is brought up to date, and
    /// the square to capture on in passing is set after a pawn's double
    /// step and cleared after any other move.
    pub fn after_move(&self, promotion: Piece, from: Square, to: Square) -> (next: Position)
        requires
            from.wf(),
            to.wf(),
        ensures
            next@ == position_after(self@, promotion, from.f(), from.r(), to.f(), to.r()),
    {
        let board = self.board_after(promotion, from, to);
        let m = self.moved;
        let moved = CastlingTracker {
            white_king: m.white_king || differs(&self.board, &board, 4, 0),
            white_rook_a: m.white_rook_a || differs(&self.board, &board, 0, 0),
            white_rook_h: m.white_rook_h || differs(&self.board, &board, 7, 0),
            black_king: m.black_king || differs(&self.board, &board, 4, 7),
            black_rook_a: m.black_rook_a || differs(&self.board, &board, 0, 7),
            black_rook_h: m.black_rook_h || differs(&self.board, &board, 7, 7),
        };
        let en_passant: Option<Square> = match self.board.piece_at(from) {
            Some((Piece::Pawn, _)) => {
                if from.rank + 2 == to.rank {
                    Some(square(from.file, from.rank + 1))
                } else if to.rank + 2 == from.rank {
                    Some(square(from.file, to.rank + 1))
                } else {
                    None
                }
            },
            _ => None,
        };
        Position { board, turn: self.turn.opponent(), moved, en_passant }
    }
}

/// Whether exactly one king of the given colour stands on the board.
pub fn has_one_king(board: &Board, color: Color) -> (b: bool)
    ensures
        b == one_king(board@, color),
{
    let mut found: Option<Square> = None;
    let mut i: usize = 0;
    while i < 64
        invariant
            i <= 64,
            match found {
                None => forall|a: int, b: int|
                    on_board(a, b) && b * 8 + a < i ==> #[trigger] at(board@, a, b) != Some(
                        (Piece::King, color),
                    ),
                Some(k) => k.wf() && k.index() < i && at(board@, k.f(), k.r()) == Some(
                    (Piece::King, color),
                ) && forall|a: int, b: int|
                    on_board(a, b) && b * 8 + a < i && #[trigger] at(board@, a, b) == Some(
                        (Piece::King, color),
                    ) ==> a == k.f() && b == k.r(),
            },
        decreases 64 - i,
    {
        let sq = Square::from_index(i);
        let king_here: bool = match board.piece_at(sq) {
            Some((Piece::King, c)) => c == color,
            _ => false,
        };
        if king_here {
            match found {
                Some(k) => {
                    assert forall|kf: int, kr: int| !#[trigger] sole_king_on(
                        board@,
                        kf,
                        kr,
                        color,
                    ) by {
                        if sole_king_on(board@, kf, kr, color) {
                            assert(at(board@, k.f(), k.r()) == Some((Piece::King, color)));
                            assert(at(board@, sq.f(), sq.r()) == Some((Piece::King, color)));
                        }
                    }
                    return false;
                },
                None => {
                    found = Some(sq);
                },
            }
        }
        i = i + 1;
    }
    match found {
        Some(k) => {
            assert(sole_king_on(board@, k.f(), k.r(), color));
            true
        },
        None => false,
    }
}

/// Whether what stands on the square of a file and rank differs between two boards.
fn differs(before: &Board, after: &Board, file: u8, rank: u8) -> (b: bool)
    requires
        file < 8,
        rank < 8,
    ensures
        b == changed(before@, after@, file as int, rank as int),
{
    let sq = square(file, rank);
    match (before.piece_at(sq), after.piece_at(sq)) {
        (None, None) => false,
        (Some((p, c)), Some((q, d))) => p != q || c != d,
        _ => true,
    }
}

} // verus!
