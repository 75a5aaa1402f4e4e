//! Positions that can occur in a game stay such under every legal move.

use vstd::prelude::*;
use crate::types::{Color, GameState, Piece};
use crate::rules::{
    Grid, PositionModel, at, attacked, attacks, between_clear, diagonal, en_passant_sound,
    grid_after, in_check, king_attacked_on, legal, occupied_by, on_board, on_line, one_king,
    opening, opening_cell, pawn_push, playable, position_after, pseudo_legal, scaled, sign,
    sole_king_on, sound, span, status, straight,
};

verus! {

/// The squares strictly between two squares of one file, rank or diagonal
/// lie on the board and are neither of the two.
pub proof fn lemma_line_inside(f: int, r: int, tf: int, tr: int, k: int)
    requires
        on_board(f, r),
        on_board(tf, tr),
        straight(tf - f, tr - r) || diagonal(tf - f, tr - r),
        1 <= k < span(tf - f, tr - r),
    ensures
        on_board(f + scaled(k, sign(tf - f)), r + scaled(k, sign(tr - r))),
        !(f + scaled(k, sign(tf - f)) == f && r + scaled(k, sign(tr - r)) == r),
        !(f + scaled(k, sign(tf - f)) == tf && r + scaled(k, sign(tr - r)) == tr),
{
}

/// Whether two grids look alike to the pieces that attack the king of
/// colour `c`: the same squares are empty, the pieces of the other colour
/// are the same, and the kings of colour `c` stand on the same squares.
pub open spec fn alike_for(g1: Grid, g2: Grid, c: Color) -> bool {
    g1.len() == 64 && g2.len() == 64 && forall|a: int, b: int|
        on_board(a, b) ==> {
            &&& (#[trigger] at(g1, a, b)) is None <==> (#[trigger] at(g2, a, b)) is None
            &&& occupied_by(g1, a, b, c.other()) || occupied_by(g2, a, b, c.other()) ==> at(
                g1,
                a,
                b,
            ) == at(g2, a, b)
            &&& at(g1, a, b) == Some((Piece::King, c)) <==> at(g2, a, b) == Some((Piece::King, c))
        }
}

/// A path that is clear on one grid is clear on any grid with the same
/// empty squares.
proof fn lemma_between_alike(g1: Grid, g2: Grid, c: Color, f: int, r: int, tf: int, tr: int)
    requires
        alike_for(g1, g2, c),
        on_board(f, r),
        on_board(tf, tr),
        straight(tf - f, tr - r) || diagonal(tf - f, tr - r),
        between_clear(g1, f, r, tf, tr),
    ensures
        between_clear(g2, f, r, tf, tr),
{
    assert forall|k: int| 1 <= k < span(tf - f, tr - r) implies (#[trigger] on_line(
        g2,
        f,
        r,
        tf,
        tr,
        k,
    )) is None by {
        lemma_line_inside(f, r, tf, tr, k);
        assert(on_line(g1, f, r, tf, tr, k) is None);
    }
}

/// What attacks a square on one grid attacks it on any grid that looks
/// alike to the attackers.
proof fn lemma_attacks_alike(
    g1: Grid,
    g2: Grid,
    c: Color,
    f: int,
    r: int,
    tf: int,
    tr: int,
)
    requires
        alike_for(g1, g2, c),
        on_board(tf, tr),
        attacks(g1, f, r, tf, tr, c.other()),
    ensures
        attacks(g2, f, r, tf, tr, c.other()),
{
    if straight(tf - f, tr - r) || diagonal(tf - f, tr - r) {
        if between_clear(g1, f, r, tf, tr) {
            lemma_between_alike(g1, g2, c, f, r, tf, tr);
        }
    }
}

/// Whether the king of colour `c` is attacked is the same on two grids
/// that look alike to its attackers.
pub proof fn lemma_check_alike(g1: Grid, g2: Grid, c: Color)
    requires
        alike_for(g1, g2, c),
    ensures
        in_check(g1, c) ==> in_check(g2, c),
{
    if in_check(g1, c) {
        let (kf, kr) = choose|kf: int, kr: int| #[trigger] king_attacked_on(g1, kf, kr, c);
        let (f, r) = choose|f: int, r: int| #[trigger] attacks(g1, f, r, kf, kr, c.other());
        lemma_attacks_alike(g1, g2, c, f, r, kf, kr);
        assert(king_attacked_on(g2, kf, kr, c));
    }
}

/// Whether a move leaves the mover's own king attacked does not depend on
/// the kind of piece that a pawn is promoted to.
pub proof fn lemma_check_ignores_promotion(
    g: Grid,
    first: Piece,
    second: Piece,
    f: int,
    r: int,
    tf: int,
    tr: int,
)
    requires
        g.len() == 64,
        on_board(f, r),
        on_board(tf, tr),
        first.promotable(),
        second.promotable(),
        at(g, f, r) is Some,
    ensures
        ({
            let c = at(g, f, r).unwrap().1;
            in_check(grid_after(g, first, f, r, tf, tr), c) == in_check(
                grid_after(g, second, f, r, tf, tr),
                c,
            )
        }),
{
    let c = at(g, f, r).unwrap().1;
    let g1 = grid_after(g, first, f, r, tf, tr);
    let g2 = grid_after(g, second, f, r, tf, tr);
    lemma_after_alike(g, first, second, f, r, tf, tr);
    lemma_after_alike(g, second, first, f, r, tf, tr);
    lemma_check_alike(g1, g2, c);
    lemma_check_alike(g2, g1, c);
}

/// The grids after one move with two kinds of promoted piece look alike
/// to the attackers of the mover's king.
proof fn lemma_after_alike(g: Grid, first: Piece, second: Piece, f: int, r: int, tf: int, tr: int)
    requires
        g.len() == 64,
        on_board(f, r),
        on_board(tf, tr),
        first.promotable(),
        second.promotable(),
        at(g, f, r) is Some,
    ensures
        alike_for(
            grid_after(g, first, f, r, tf, tr),
            grid_after(g, second, f, r, tf, tr),
            at(g, f, r).unwrap().1,
        ),
{
    let c = at(g, f, r).unwrap().1;
    let g1 = grid_after(g, first, f, r, tf, tr);
    let g2 = grid_after(g, second, f, r, tf, tr);
    assert forall|a: int, b: int| on_board(a, b) implies {
        &&& (#[trigger] at(g1, a, b)) is None <==> (#[trigger] at(g2, a, b)) is None
        &&& occupied_by(g1, a, b, c.other()) || occupied_by(g2, a, b, c.other()) ==> at(g1, a, b)
            == at(g2, a, b)
        &&& at(g1, a, b) == Some((Piece::King, c)) <==> at(g2, a, b) == Some((Piece::King, c))
    } by {}
}

/// A piece that may move onto an enemy piece attacks the square it stands on.
pub proof fn lemma_capture_is_attack(pos: PositionModel, f: int, r: int, tf: int, tr: int)
    requires
        pos.grid.len() == 64,
        pseudo_legal(pos, f, r, tf, tr),
        at(pos.grid, tf, tr) is Some,
        at(pos.grid, f, r) is Some,
    ensures
        attacks(pos.grid, f, r, tf, tr, at(pos.grid, f, r).unwrap().1),
{
}

/// No pseudo-legal move of the side to move captures a king while the
/// side that has just moved has not left its king attacked.
pub proof fn lemma_king_is_safe(pos: PositionModel, f: int, r: int, tf: int, tr: int)
    requires
        pos.grid.len() == 64,
        !in_check(pos.grid, pos.turn.other()),
        occupied_by(pos.grid, f, r, pos.turn),
        pseudo_legal(pos, f, r, tf, tr),
    ensures
        at(pos.grid, tf, tr) != Some((Piece::King, pos.turn.other())),
{
    let e = pos.turn.other();
    if at(pos.grid, tf, tr) == Some((Piece::King, e)) {
        lemma_capture_is_attack(pos, f, r, tf, tr);
        assert(king_attacked_on(pos.grid, tf, tr, e));
    }
}

/// The king of the side that did not move stands where it stood.
proof fn lemma_other_king_stays(
    pos: PositionModel,
    promotion: Piece,
    f: int,
    r: int,
    tf: int,
    tr: int,
)
    requires
        sound(pos),
        promotion.promotable(),
        playable(pos, f, r, tf, tr),
    ensures
        one_king(grid_after(pos.grid, promotion, f, r, tf, tr), pos.turn.other()),
{
    let g = pos.grid;
    let e = pos.turn.other();
    let g2 = grid_after(g, promotion, f, r, tf, tr);
    lemma_king_is_safe(pos, f, r, tf, tr);
    let (kf, kr) = choose|kf: int, kr: int| #[trigger] sole_king_on(g, kf, kr, e);
    assert forall|a: int, b: int| on_board(a, b) && #[trigger] at(g2, a, b) == Some(
        (Piece::King, e),
    ) implies a == kf && b == kr by {
        assert(at(g, a, b) == Some((Piece::King, e)));
    }
    assert(sole_king_on(g2, kf, kr, e));
}

/// The king of the side that moved is still the only one of its colour.
proof fn lemma_own_king_stays(
    pos: PositionModel,
    promotion: Piece,
    f: int,
    r: int,
    tf: int,
    tr: int,
)
    requires
        sound(pos),
        promotion.promotable(),
        playable(pos, f, r, tf, tr),
    ensures
        one_king(grid_after(pos.grid, promotion, f, r, tf, tr), pos.turn),
{
    let g = pos.grid;
    let c = pos.turn;
    let g2 = grid_after(g, promotion, f, r, tf, tr);
    let (kf, kr) = choose|kf: int, kr: int| #[trigger] sole_king_on(g, kf, kr, c);
    if kf == f && kr == r {
        assert forall|a: int, b: int| on_board(a, b) && #[trigger] at(g2, a, b) == Some(
            (Piece::King, c),
        ) implies a == tf && b == tr by {
            if !(a == tf && b == tr) {
                assert(at(g, a, b) == Some((Piece::King, c)) || (a == f && b == r));
            }
        }
        assert(sole_king_on(g2, tf, tr, c));
    } else {
        assert forall|a: int, b: int| on_board(a, b) && #[trigger] at(g2, a, b) == Some(
            (Piece::King, c),
        ) implies a == kf && b == kr by {
            assert(at(g, a, b) == Some((Piece::King, c)));
        }
        assert(sole_king_on(g2, kf, kr, c));
    }
}

/// A legal move of the side to move leads from a position that can occur
/// in a game to another such position: both kings remain, the mover's king
/// is not attacked, and the square to capture on in passing lies behind the
/// pawn that has just made a double step.
pub proof fn lemma_sound_preserved(
    pos: PositionModel,
    promotion: Piece,
    f: int,
    r: int,
    tf: int,
    tr: int,
)
    requires
        sound(pos),
        promotion.promotable(),
        playable(pos, f, r, tf, tr),
    ensures
        sound(position_after(pos, promotion, f, r, tf, tr)),
{
    lemma_check_ignores_promotion(pos.grid, promotion, Piece::Queen, f, r, tf, tr);
    lemma_other_king_stays(pos, promotion, f, r, tf, tr);
    lemma_own_king_stays(pos, promotion, f, r, tf, tr);
}

/// What stands on a square of the opening position.
pub proof fn lemma_opening_at(f: int, r: int)
    requires
        on_board(f, r),
    ensures
        at(opening().grid, f, r) == opening_cell(f, r),
{
}

/// In the opening position, and after any change to the four ranks
/// between the two sides that leaves no piece there able to give check,
/// the pieces of one side on their first two ranks do not attack the king
/// of the other on its first square.
proof fn lemma_far_king_safe(g: Grid, c: Color)
    requires
        g.len() == 64,
        forall|a: int, b: int|
            on_board(a, b) && (b == c.other().home_rank() || b == c.other().pawn_rank())
                ==> #[trigger] at(g, a, b) == opening_cell(a, b),
        forall|a: int, b: int|
            on_board(a, b) && !(b == c.other().home_rank() || b == c.other().pawn_rank())
                ==> !occupied_by(g, a, b, c.other()),
    ensures
        !attacked(g, 4, c.home_rank(), c.other()),
{
    assert forall|a: int, b: int| !#[trigger] attacks(g, a, b, 4, c.home_rank(), c.other()) by {}
}

/// The opening position can occur in a game.
pub proof fn lemma_opening_sound()
    ensures
        sound(opening()),
{
    let g = opening().grid;
    assert forall|a: int, b: int| on_board(a, b) implies #[trigger] at(g, a, b) == opening_cell(
        a,
        b,
    ) by {
        lemma_opening_at(a, b);
    }
    assert(sole_king_on(g, 4, 0, Color::White));
    assert(sole_king_on(g, 4, 7, Color::Black));
    lemma_far_king_safe(g, Color::Black);
}

/// In the opening position White is not in check and has a move.
pub proof fn lemma_opening_in_progress()
    ensures
        status(opening()) == GameState::InProgress,
{
    let pos = opening();
    let g = pos.grid;
    assert forall|a: int, b: int| on_board(a, b) implies #[trigger] at(g, a, b) == opening_cell(
        a,
        b,
    ) by {
        lemma_opening_at(a, b);
    }
    lemma_far_king_safe(g, Color::White);
    let g2 = grid_after(g, Piece::Queen, 0, 1, 0, 2);
    assert forall|a: int, b: int| on_board(a, b) implies #[trigger] at(g2, a, b) == (if a == 0
        && b == 1 {
        None
    } else if a == 0 && b == 2 {
        Some((Piece::Pawn, Color::White))
    } else {
        opening_cell(a, b)
    }) by {}
    lemma_far_king_safe(g2, Color::White);
    assert(playable(pos, 0, 1, 0, 2));
}

} // verus!
