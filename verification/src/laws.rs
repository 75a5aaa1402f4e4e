//! What follows from the rules, proved once for every position.

use vstd::prelude::*;
use crate::types::{Color, GameState, MoveError, Piece, lemma_names};
use crate::rules::{
    Grid, PositionModel, abs, at, attacks, between_clear, can_move, castle_file,
    castle_path_empty, castle_path_safe, castle_ready, castles, diagonal, grid_after, in_check,
    king_attacked_on, legal, occupied_by, on_board, on_line, one_king, pawn_in_passing, playable,
    position_after, pseudo_legal, rook_file, scaled, sign, sole_king_on, sound, span, status,
    straight,
};
use crate::squares::{lemma_select_same, select};
use crate::game::{GameModel, move_outcome, promotion_named};
use crate::soundness::{lemma_check_ignores_promotion, lemma_line_inside, lemma_sound_preserved};

verus! {

/// Whether a grid holds one piece and nothing else.
pub open spec fn lone_piece(g: Grid, f: int, r: int, p: Piece, c: Color) -> bool {
    g.len() == 64 && on_board(f, r) && forall|a: int, b: int|
        on_board(a, b) ==> #[trigger] at(g, a, b) == if a == f && b == r {
            Some((p, c))
        } else {
            None
        }
}

/// A rook alone on the board may move to exactly the other squares of its
/// file and of its rank.
pub proof fn lemma_lone_rook(pos: PositionModel, c: Color, f: int, r: int, tf: int, tr: int)
    requires
        lone_piece(pos.grid, f, r, Piece::Rook, c),
        on_board(tf, tr),
    ensures
        legal(pos, f, r, tf, tr) <==> (tf == f && tr != r) || (tf != f && tr == r),
{
    let g = pos.grid;
    if straight(tf - f, tr - r) {
        assert forall|k: int| 1 <= k < span(tf - f, tr - r) implies (#[trigger] on_line(
            g,
            f,
            r,
            tf,
            tr,
            k,
        )) is None by {
            lemma_line_inside(f, r, tf, tr, k);
        }
        let g2 = grid_after(g, Piece::Queen, f, r, tf, tr);
        assert forall|a: int, b: int| !#[trigger] king_attacked_on(g2, a, b, c) by {
            if on_board(a, b) {
                assert(at(g, a, b) == if a == f && b == r {
                    Some((Piece::Rook, c))
                } else {
                    None
                });
            }
        }
    }
}

/// The legal moves of a rook alone on the board, listed, are the other
/// squares of its file and of its rank.
pub proof fn lemma_lone_rook_moves(pos: PositionModel, c: Color, f: int, r: int)
    requires
        lone_piece(pos.grid, f, r, Piece::Rook, c),
    ensures
        select(|tf: int, tr: int| legal(pos, f, r, tf, tr), 64) == select(
            |tf: int, tr: int| (tf == f && tr != r) || (tf != f && tr == r),
            64,
        ),
{
    let p = |tf: int, tr: int| legal(pos, f, r, tf, tr);
    let q = |tf: int, tr: int| (tf == f && tr != r) || (tf != f && tr == r);
    assert forall|tf: int, tr: int| 0 <= tf < 8 && 0 <= tr < 8 implies #[trigger] p(tf, tr) == q(
        tf,
        tr,
    ) by {
        lemma_lone_rook(pos, c, f, r, tf, tr);
    }
    lemma_select_same(p, q, 64);
}

/// Whether a square shares its file or its rank with `(f, r)` and is
/// another square.
pub open spec fn on_cross(f: int, r: int) -> spec_fn(int, int) -> bool {
    |tf: int, tr: int| (tf == f && tr != r) || (tf != f && tr == r)
}

/// One more square of the board adds one to the selection where it
/// shares its file or rank with `(f, r)`, and nothing where it does not.
proof fn lemma_cross_step(f: int, r: int, b: int, j: int)
    requires
        on_board(f, r),
        0 <= b < 8,
        0 <= j < 8,
    ensures
        select(on_cross(f, r), 8 * b + j + 1).len() == select(on_cross(f, r), 8 * b + j).len()
            + if (j == f && b != r) || (j != f && b == r) {
            1int
        } else {
            0int
        },
{
    assert((8 * b + j) % 8 == j && (8 * b + j) / 8 == b);
}

/// Of the squares of one rank, seven share a file or rank with `(f, r)`
/// where the rank is `r`, and one where it is another.
proof fn lemma_cross_rank(f: int, r: int, b: int)
    requires
        on_board(f, r),
        0 <= b < 8,
    ensures
        select(on_cross(f, r), 8 * (b + 1)).len() == select(on_cross(f, r), 8 * b).len() + if b
            == r {
            7int
        } else {
            1int
        },
{
    lemma_cross_step(f, r, b, 0);
    lemma_cross_step(f, r, b, 1);
    lemma_cross_step(f, r, b, 2);
    lemma_cross_step(f, r, b, 3);
    lemma_cross_step(f, r, b, 4);
    lemma_cross_step(f, r, b, 5);
    lemma_cross_step(f, r, b, 6);
    lemma_cross_step(f, r, b, 7);
}

/// A rook alone on the board has fourteen legal moves.
pub proof fn lemma_lone_rook_count(pos: PositionModel, c: Color, f: int, r: int)
    requires
        lone_piece(pos.grid, f, r, Piece::Rook, c),
    ensures
        select(|tf: int, tr: int| legal(pos, f, r, tf, tr), 64).len() == 14,
{
    lemma_lone_rook_moves(pos, c, f, r);
    lemma_select_same(
        |tf: int, tr: int| (tf == f && tr != r) || (tf != f && tr == r),
        on_cross(f, r),
        64,
    );
    lemma_cross_rank(f, r, 0);
    lemma_cross_rank(f, r, 1);
    lemma_cross_rank(f, r, 2);
    lemma_cross_rank(f, r, 3);
    lemma_cross_rank(f, r, 4);
    lemma_cross_rank(f, r, 5);
    lemma_cross_rank(f, r, 6);
    lemma_cross_rank(f, r, 7);
}

/// A move that is accepted passes the turn to the other side, keeps the
/// choice of promotion, leaves the mover's king unattacked and both kings
/// on the board, and records what the other side now faces.
pub proof fn lemma_move_accepted(g: GameModel, from: Option<(int, int)>, to: Option<(int, int)>)
    requires
        sound(g.position),
        g.promotion.promotable(),
        move_outcome(g, from, to) is Ok,
    ensures
        ({
            let next = move_outcome(g, from, to).unwrap();
            &&& next.position.turn == g.position.turn.other()
            &&& next.promotion == g.promotion
            &&& next.state == status(next.position)
            &&& sound(next.position)
            &&& !in_check(next.position.grid, g.position.turn)
        }),
{
    let (f, r) = from.unwrap();
    let (tf, tr) = to.unwrap();
    lemma_sound_preserved(g.position, g.promotion, f, r, tf, tr);
}

/// A side that has no legal move is stalemated when its king is not
/// attacked and checkmated when it is; a side that has a legal move is in
/// check when its king is attacked and simply to move when it is not.
pub proof fn lemma_status_cases(pos: PositionModel)
    ensures
        status(pos) == GameState::Stalemate <==> !in_check(pos.grid, pos.turn) && !can_move(pos),
        status(pos) == GameState::Checkmate <==> in_check(pos.grid, pos.turn) && !can_move(pos),
        status(pos) == GameState::Check <==> in_check(pos.grid, pos.turn) && can_move(pos),
        status(pos) == GameState::InProgress <==> !in_check(pos.grid, pos.turn) && can_move(pos),
{
}

/// In a position that is checkmate or stalemate no piece of the side to
/// move has a legal move.
pub proof fn lemma_over_means_stuck(pos: PositionModel, f: int, r: int, tf: int, tr: int)
    requires
        status(pos).over(),
        on_board(f, r),
        occupied_by(pos.grid, f, r, pos.turn),
    ensures
        !legal(pos, f, r, tf, tr),
{
    if legal(pos, f, r, tf, tr) {
        assert(playable(pos, f, r, tf, tr));
    }
}

/// Once a game is over every request to move is turned down for that
/// reason, whatever the squares.
pub proof fn lemma_no_move_after_end(g: GameModel, from: Option<(int, int)>, to: Option<(int, int)>)
    requires
        g.state.over(),
    ensures
        move_outcome(g, from, to) == Err::<GameModel, MoveError>(MoveError::GameAlreadyOver),
{
}

/// A king may not castle on a side once it or the rook of that side has
/// moved, while a square between them is occupied, or while the square it
/// stands on, passes or lands on is attacked.
pub proof fn lemma_castling_denied(pos: PositionModel, c: Color, king_side: bool)
    requires
        pos.grid.len() == 64,
        at(pos.grid, 4, c.home_rank()) == Some((Piece::King, c)),
        pos.moved.king(c) || pos.moved.rook(c, king_side) || !castle_path_empty(
            pos.grid,
            c,
            king_side,
        ) || !castle_path_safe(pos.grid, c, king_side),
    ensures
        !castle_ready(pos, c, king_side),
        !pseudo_legal(pos, 4, c.home_rank(), castle_file(king_side), c.home_rank()),
        !legal(pos, 4, c.home_rank(), castle_file(king_side), c.home_rank()),
{
}

/// A clear path to the square a king castles to stays clear when the
/// castling is undone: it runs through neither the king's nor the rook's
/// first square.
proof fn lemma_castle_path_was_clear(
    pos: PositionModel,
    c: Color,
    king_side: bool,
    a: int,
    b: int,
)
    requires
        pos.grid.len() == 64,
        castle_ready(pos, c, king_side),
        on_board(a, b),
        !(a == castle_file(king_side) && b == c.home_rank()),
        straight(castle_file(king_side) - a, c.home_rank() - b) || diagonal(
            castle_file(king_side) - a,
            c.home_rank() - b,
        ),
        between_clear(
            grid_after(
                pos.grid,
                Piece::Queen,
                4,
                c.home_rank(),
                castle_file(king_side),
                c.home_rank(),
            ),
            a,
            b,
            castle_file(king_side),
            c.home_rank(),
        ),
    ensures
        between_clear(pos.grid, a, b, castle_file(king_side), c.home_rank()),
{
    let h = c.home_rank();
    let cf = castle_file(king_side);
    let g = pos.grid;
    let g2 = grid_after(g, Piece::Queen, 4, h, cf, h);
    assert forall|k: int| 1 <= k < span(cf - a, h - b) implies (#[trigger] on_line(
        g,
        a,
        b,
        cf,
        h,
        k,
    )) is None by {
        lemma_line_inside(a, b, cf, h, k);
        let x = a + scaled(k, sign(cf - a));
        let y = b + scaled(k, sign(h - b));
        assert(on_line(g2, a, b, cf, h, k) is None);
        if y == h && (x == 4 || x == rook_file(king_side)) {
            let j = span(cf - a, h - b) - 1;
            lemma_line_inside(a, b, cf, h, j);
            assert(on_line(g2, a, b, cf, h, j) is None);
        }
    }
}

/// A king that is ready to castle may castle: the move is legal, whichever
/// side is to move.
pub proof fn lemma_castling_allowed(pos: PositionModel, c: Color, king_side: bool)
    requires
        pos.grid.len() == 64,
        one_king(pos.grid, c),
        castle_ready(pos, c, king_side),
    ensures
        legal(pos, 4, c.home_rank(), castle_file(king_side), c.home_rank()),
{
    let h = c.home_rank();
    let cf = castle_file(king_side);
    let g = pos.grid;
    let g2 = grid_after(g, Piece::Queen, 4, h, cf, h);
    let (kf, kr) = choose|kf: int, kr: int| #[trigger] sole_king_on(g, kf, kr, c);
    assert(kf == 4 && kr == h);
    assert forall|x: int, y: int| !#[trigger] king_attacked_on(g2, x, y, c) by {
        if king_attacked_on(g2, x, y, c) {
            assert(at(g, x, y) == Some((Piece::King, c)) || (x == cf && y == h));
            assert(x == cf && y == h);
            let (a, b) = choose|a: int, b: int| #[trigger] attacks(g2, a, b, cf, h, c.other());
            assert(at(g, a, b) == at(g2, a, b));
            if straight(cf - a, h - b) || diagonal(cf - a, h - b) {
                if between_clear(g2, a, b, cf, h) {
                    lemma_castle_path_was_clear(pos, c, king_side, a, b);
                }
            }
            assert(attacks(g, a, b, cf, h, c.other()));
        }
    }
}

/// A king on its first square may castle exactly when it is ready to:
/// neither it nor the rook has moved, the squares between them are empty,
/// and the squares it stands on, passes and lands on are not attacked.
pub proof fn lemma_castling_offered(pos: PositionModel, c: Color, king_side: bool)
    requires
        pos.grid.len() == 64,
        one_king(pos.grid, c),
        at(pos.grid, 4, c.home_rank()) == Some((Piece::King, c)),
    ensures
        legal(pos, 4, c.home_rank(), castle_file(king_side), c.home_rank()) <==> castle_ready(
            pos,
            c,
            king_side,
        ),
{
    if castle_ready(pos, c, king_side) {
        lemma_castling_allowed(pos, c, king_side);
    }
}

/// The record of moved kings and rooks forgets nothing: a side that could
/// not castle before a move, for that reason, cannot castle after it.
pub proof fn lemma_moved_is_kept(
    pos: PositionModel,
    promotion: Piece,
    f: int,
    r: int,
    tf: int,
    tr: int,
    c: Color,
    king_side: bool,
)
    ensures
        ({
            let next = position_after(pos, promotion, f, r, tf, tr);
            &&& pos.moved.king(c) ==> next.moved.king(c) && !castle_ready(next, c, king_side)
            &&& pos.moved.rook(c, king_side) ==> next.moved.rook(c, king_side) && !castle_ready(
                next,
                c,
                king_side,
            )
        }),
{
}

/// A pseudo-legal move from or to the first square of a king is recorded
/// as a move of that king, one from or to the first square of a rook as a
/// move of that rook, and castling as a move of both.
pub proof fn lemma_moved_is_recorded(
    pos: PositionModel,
    promotion: Piece,
    f: int,
    r: int,
    tf: int,
    tr: int,
    c: Color,
    king_side: bool,
)
    requires
        pos.grid.len() == 64,
        pseudo_legal(pos, f, r, tf, tr),
    ensures
        ({
            let next = position_after(pos, promotion, f, r, tf, tr);
            let h = c.home_rank();
            &&& (f == 4 && r == h) || (tf == 4 && tr == h) ==> next.moved.king(c)
            &&& (f == rook_file(king_side) && r == h) || (tf == rook_file(king_side) && tr == h)
                ==> next.moved.rook(c, king_side)
            &&& castles(pos, c, f, r, tf, tr, king_side) ==> next.moved.king(c)
                && next.moved.rook(c, king_side)
        }),
{
}

/// A capture in passing is possible only on the move that follows a
/// pawn's double step: the captured pawn is the one that has just moved,
/// the capturing pawn is an enemy pawn that stands beside it, and it lands
/// on the square that was stepped over. After any other move no capture
/// in passing exists.
pub proof fn lemma_in_passing_only_at_once(
    pos: PositionModel,
    promotion: Piece,
    f: int,
    r: int,
    tf: int,
    tr: int,
    c: Color,
    a: int,
    b: int,
    ta: int,
    tb: int,
)
    requires
        pos.grid.len() == 64,
        pseudo_legal(pos, f, r, tf, tr),
        pawn_in_passing(position_after(pos, promotion, f, r, tf, tr), c, a, b, ta, tb),
    ensures
        at(pos.grid, f, r) == Some((Piece::Pawn, c.other())),
        tf == f,
        abs(tr - r) == 2,
        ta == f,
        tb == r + c.other().forward(),
        b == tr,
        abs(a - tf) == 1,
{
}

/// The rejected names of kinds to promote to, and the accepted ones.
pub proof fn lemma_promotion_names()
    ensures
        promotion_named(Piece::King.label()) is None,
        promotion_named(Piece::Pawn.label()) is None,
        promotion_named(Piece::Queen.label()) == Some(Piece::Queen),
        promotion_named(Piece::Rook.label()) == Some(Piece::Rook),
        promotion_named(Piece::Bishop.label()) == Some(Piece::Bishop),
        promotion_named(Piece::Knight.label()) == Some(Piece::Knight),
{
    lemma_names(Piece::King, Piece::King.label());
    lemma_names(Piece::Pawn, Piece::Pawn.label());
    lemma_names(Piece::Queen, Piece::Queen.label());
    lemma_names(Piece::Rook, Piece::Rook.label());
    lemma_names(Piece::Bishop, Piece::Bishop.label());
    lemma_names(Piece::Knight, Piece::Knight.label());
}

/// A pawn that arrives on its last rank is replaced by a piece of the
/// chosen kind; any other piece arrives as it left.
pub proof fn lemma_arrival(g: Grid, promotion: Piece, f: int, r: int, tf: int, tr: int)
    requires
        g.len() == 64,
        on_board(f, r),
        on_board(tf, tr),
        !(f == tf && r == tr),
        at(g, f, r) is Some,
    ensures
        ({
            let (p, c) = at(g, f, r).unwrap();
            let after = grid_after(g, promotion, f, r, tf, tr);
            &&& at(after, f, r) is None
            &&& p == Piece::Pawn && tr == c.last_rank() ==> at(after, tf, tr) == Some(
                (promotion, c),
            )
            &&& !(p == Piece::Pawn && tr == c.last_rank()) ==> at(after, tf, tr) == Some((p, c))
        }),
{
}

/// A move that leaves the mover's own king attacked is never legal and is
/// always turned down, whatever it captures.
pub proof fn lemma_exposed_king_rejected(g: GameModel, f: int, r: int, tf: int, tr: int)
    requires
        g.position.grid.len() == 64,
        g.promotion.promotable(),
        on_board(f, r),
        on_board(tf, tr),
        at(g.position.grid, f, r) is Some,
        in_check(
            grid_after(g.position.grid, g.promotion, f, r, tf, tr),
            at(g.position.grid, f, r).unwrap().1,
        ),
    ensures
        !legal(g.position, f, r, tf, tr),
        move_outcome(g, Some((f, r)), Some((tf, tr))) is Err,
{
    lemma_check_ignores_promotion(g.position.grid, g.promotion, Piece::Queen, f, r, tf, tr);
}

} // verus!
