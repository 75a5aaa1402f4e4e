//! The board: sixty-four cells and nothing of the rules.

use vstd::prelude::*;
use crate::types::{Cell, Color, Piece, Square};
use crate::rules::{Grid, at, occupied_by, put};
use crate::squares::select;

verus! {

/// An 8 by 8 board with at most one piece on each square.
#[derive(Copy, Clone, Debug)]
pub struct Board {
    cells: [Cell; 64],
}

impl View for Board {
    type V = Grid;

    closed spec fn view(&self) -> Grid {
        self.cells@
    }
}

impl Board {
    /// Every board has sixty-four cells.
    pub broadcast proof fn lemma_len(self)
        ensures
            #[trigger] self@.len() == 64,
    {
    }

    /// A board with no piece on it.
    pub fn empty() -> (b: Board)
        ensures
            b@ == Seq::new(64, |i: int| None::<(Piece, Color)>),
    {
        let cells: [Cell; 64] = [None; 64];
        let b = Board { cells };
        assert(b@ =~= Seq::new(64, |i: int| None::<(Piece, Color)>));
        b
    }

    /// What stands on a square.
    pub fn piece_at(&self, sq: Square) -> (c: Cell)
        requires
            sq.wf(),
        ensures
            c == at(self@, sq.f(), sq.r()),
    {
        self.cells[sq.to_index()]
    }

    /// Replaces what stands on a square.
    pub fn set(&mut self, sq: Square, c: Cell)
        requires
            sq.wf(),
        ensures
            final(self)@ == put(old(self)@, sq.f(), sq.r(), c),
    {
        let i = sq.to_index();
        self.cells[i] = c;
    }

    /// Moves what stands on one square to another: the destination is
    /// overwritten and the source is left empty.
    pub fn move_piece(&mut self, from: Square, to: Square)
        requires
            from.wf(),
            to.wf(),
        ensures
            final(self)@ == put(
                put(old(self)@, from.f(), from.r(), None),
                to.f(),
                to.r(),
                at(old(self)@, from.f(), from.r()),
            ),
    {
        let c = self.piece_at(from);
        self.set(from, None);
        self.set(to, c);
    }

    /// Whether a piece of the given colour stands on a square.
    pub fn is_occupied_by(&self, sq: Square, color: Color) -> (b: bool)
        requires
            sq.wf(),
        ensures
            b == occupied_by(self@, sq.f(), sq.r(), color),
    {
        match self.piece_at(sq) {
            Some((_, k)) => k == color,
            None => false,
        }
    }

    /// The occupied squares, in the order of the board read rank by rank.
    pub fn occupied(&self) -> (v: Vec<Square>)
        ensures
            v@ == select(|f: int, r: int| at(self@, f, r) is Some, 64),
    {
        let mut v: Vec<Square> = Vec::new();
        let mut i: usize = 0;
        while i < 64
            invariant
                i <= 64,
                v@ == select(|f: int, r: int| at(self@, f, r) is Some, i as int),
            decreases 64 - i,
        {
            let sq = Square::from_index(i);
            if self.piece_at(sq).is_some() {
                v.push(sq);
            }
            i = i + 1;
        }
        v
    }

    /// Whether a square is empty.
    pub fn is_empty(&self, sq: Square) -> (b: bool)
        requires
            sq.wf(),
        ensures
            b == (at(self@, sq.f(), sq.r()) is None),
    {
        self.piece_at(sq).is_none()
    }
}

} // verus!
