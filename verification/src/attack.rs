//! Attack detection: which squares the pieces of one side could capture on.

use vstd::prelude::*;
use crate::types::{Color, Piece, Square};
use crate::rules::{
    abs, attacked, attacks, between_clear, diagonal, in_check, king_attacked_on, on_board,
    on_line, reaches, scaled, sign, span, straight,
};
use crate::squares::select;
use crate::board::Board;

verus! {

/// The distance between two coordinates.
fn gap(a: u8, b: u8) -> (d: u8)
    requires
        a < 8,
        b < 8,
    ensures
        d == abs(b - a),
{
    if a <= b {
        b - a
    } else {
        a - b
    }
}

/// The direction from one coordinate to another.
fn direction(a: u8, b: u8) -> (s: i8)
    requires
        a < 8,
        b < 8,
    ensures
        s == sign(b - a),
{
    if a < b {
        1
    } else if a > b {
        -1
    } else {
        0
    }
}

/// Whether every square strictly between two squares of one file, rank or
/// diagonal is empty.
fn path_clear(board: &Board, from: Square, to: Square) -> (b: bool)
    requires
        from.wf(),
        to.wf(),
        straight(to.f() - from.f(), to.r() - from.r()) || diagonal(
            to.f() - from.f(),
            to.r() - from.r(),
        ),
    ensures
        b == between_clear(board@, from.f(), from.r(), to.f(), to.r()),
{
    let sf = direction(from.file, to.file);
    let sr = direction(from.rank, to.rank);
    let df = gap(from.file, to.file);
    let dr = gap(from.rank, to.rank);
    let n = if df >= dr {
        df
    } else {
        dr
    };
    let mut k: u8 = 1;
    let mut cf: i8 = from.file as i8 + sf;
    let mut cr: i8 = from.rank as i8 + sr;
    while k < n
        invariant
            from.wf(),
            to.wf(),
            straight(to.f() - from.f(), to.r() - from.r()) || diagonal(
                to.f() - from.f(),
                to.r() - from.r(),
            ),
            sf == sign(to.f() - from.f()),
            sr == sign(to.r() - from.r()),
            n == span(to.f() - from.f(), to.r() - from.r()),
            1 <= k <= n,
            cf == from.f() + scaled(k as int, sf as int),
            cr == from.r() + scaled(k as int, sr as int),
            forall|j: int|
                1 <= j < k ==> (#[trigger] on_line(
                    board@,
                    from.f(),
                    from.r(),
                    to.f(),
                    to.r(),
                    j,
                )) is None,
        decreases n - k,
    {
        let sq = Square { file: cf as u8, rank: cr as u8 };
        if !board.is_empty(sq) {
            assert(!(on_line(board@, from.f(), from.r(), to.f(), to.r(), k as int) is None));
            return false;
        }
        k = k + 1;
        cf = cf + sf;
        cr = cr + sr;
    }
    true
}

/// Whether a piece of the given kind and colour on `from` could capture on `to`.
pub fn piece_reaches(board: &Board, piece: Piece, color: Color, from: Square, to: Square) -> (b:
    bool)
    requires
        from.wf(),
        to.wf(),
    ensures
        b == reaches(board@, piece, color, from.f(), from.r(), to.f(), to.r()),
{
    let df = gap(from.file, to.file);
    let dr = gap(from.rank, to.rank);
    let is_straight = (df == 0 && dr != 0) || (df != 0 && dr == 0);
    let is_diagonal = df != 0 && df == dr;
    match piece {
        Piece::King => (df == 1 && dr <= 1) || (dr == 1 && df <= 1),
        Piece::Knight => (df == 1 && dr == 2) || (df == 2 && dr == 1),
        Piece::Pawn => df == 1 && match color {
            Color::White => to.rank == from.rank + 1,
            Color::Black => to.rank + 1 == from.rank,
        },
        Piece::Rook => is_straight && path_clear(board, from, to),
        Piece::Bishop => is_diagonal && path_clear(board, from, to),
        Piece::Queen => (is_straight || is_diagonal) && path_clear(board, from, to),
    }
}

/// Whether a piece of colour `by` stands on `from` and could capture on `to`.
pub fn attacks_from(board: &Board, from: Square, to: Square, by: Color) -> (b: bool)
    requires
        from.wf(),
        to.wf(),
    ensures
        b == attacks(board@, from.f(), from.r(), to.f(), to.r(), by),
{
    match board.piece_at(from) {
        Some((p, c)) => c == by && piece_reaches(board, p, c, from, to),
        None => false,
    }
}

/// Whether some piece of colour `by` could capture on `target`.
pub fn is_attacked(board: &Board, target: Square, by: Color) -> (b: bool)
    requires
        target.wf(),
    ensures
        b == attacked(board@, target.f(), target.r(), by),
{
    let mut i: usize = 0;
    while i < 64
        invariant
            target.wf(),
            i <= 64,
            forall|f: int, r: int|
                on_board(f, r) && r * 8 + f < i ==> !#[trigger] attacks(
                    board@,
                    f,
                    r,
                    target.f(),
                    target.r(),
                    by,
                ),
        decreases 64 - i,
    {
        let from = Square::from_index(i);
        if attacks_from(board, from, target, by) {
            return true;
        }
        i = i + 1;
    }
    false
}

/// The squares that the pieces of colour `by` could capture on, in the
/// order of the board read rank by rank. A sliding piece attacks up to and
/// including the first occupied square of each ray; a pawn attacks its two
/// forward diagonals and not the square ahead.
pub fn attacked_squares(board: &Board, by: Color) -> (v: Vec<Square>)
    ensures
        v@ == select(|f: int, r: int| attacked(board@, f, r, by), 64),
{
    let mut v: Vec<Square> = Vec::new();
    let mut i: usize = 0;
    while i < 64
        invariant
            i <= 64,
            v@ == select(|f: int, r: int| attacked(board@, f, r, by), i as int),
        decreases 64 - i,
    {
        let sq = Square::from_index(i);
        if is_attacked(board, sq, by) {
            v.push(sq);
        }
        i = i + 1;
    }
    v
}

/// Whether a king of the given colour is attacked.
pub fn is_in_check(board: &Board, color: Color) -> (b: bool)
    ensures
        b == in_check(board@, color),
{
    let enemy = color.opponent();
    let mut i: usize = 0;
    while i < 64
        invariant
            i <= 64,
            enemy == color.other(),
            forall|f: int, r: int|
                on_board(f, r) && r * 8 + f < i ==> !#[trigger] king_attacked_on(
                    board@,
                    f,
                    r,
                    color,
                ),
        decreases 64 - i,
    {
        let sq = Square::from_index(i);
        match board.piece_at(sq) {
            Some((Piece::King, c)) => {
                if c == color && is_attacked(board, sq, enemy) {
                    assert(king_attacked_on(board@, sq.f(), sq.r(), color));
                    return true;
                }
            },
            _ => {},
        }
        i = i + 1;
    }
    false
}

} // verus!
