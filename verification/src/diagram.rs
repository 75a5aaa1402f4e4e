//! A diagram of the board as text, rank by rank from the first rank down
//! to the eighth.

use vstd::prelude::*;
use vstd::string::*;
use crate::types::{Cell, Piece, Square};
use crate::rules::{Grid, at};
use crate::board::Board;

verus! {

/// The three characters that show a cell: the letters of the piece, or a
/// star for an empty square, filled up with blanks.
pub open spec fn cell_text(c: Cell) -> Seq<char> {
    match c {
        None => "*"@ + "  "@,
        Some((p, _)) => if p == Piece::Knight {
            p.symbol() + " "@
        } else {
            p.symbol() + "  "@
        },
    }
}

/// The start of a line of the diagram and the first `n` cells of a rank.
pub open spec fn rank_text(g: Grid, r: int, n: int) -> Seq<char>
    decreases n,
{
    if n <= 0 {
        "|  "@
    } else {
        rank_text(g, r, n - 1) + cell_text(at(g, n - 1, r))
    }
}

/// The top border and the first `n` lines of the diagram: one line for
/// each rank, the first rank on the first line.
pub open spec fn lines_text(g: Grid, n: int) -> Seq<char>
    decreases n,
{
    if n <= 0 {
        "\n|:------------------------:|\n"@
    } else {
        lines_text(g, n - 1) + rank_text(g, n - 1, 8) + "|\n"@
    }
}

/// The diagram of a grid: a border, eight lines of eight cells from the
/// first rank to the eighth, a border. Colours are not shown.
pub open spec fn diagram(g: Grid) -> Seq<char> {
    lines_text(g, 8) + "|:------------------------:|"@
}

/// Draws the board, the first rank on the first line.
pub fn render(board: &Board) -> (s: String)
    ensures
        s@ == diagram(board@),
{
    let mut s = String::from_str("\n|:------------------------:|\n");
    let mut n: u8 = 0;
    while n < 8
        invariant
            n <= 8,
            s@ == lines_text(board@, n as int),
        decreases 8 - n,
    {
        let rank: u8 = n;
        let mut line = String::from_str("|  ");
        let mut file: u8 = 0;
        while file < 8
            invariant
                file <= 8,
                rank < 8,
                line@ == rank_text(board@, rank as int, file as int),
            decreases 8 - file,
        {
            match board.piece_at(Square { file, rank }) {
                Some((piece, _)) => {
                    let ghost before = line@;
                    line.append(piece.represent());
                    match piece {
                        Piece::Knight => {
                            line.append(" ");
                        },
                        _ => {
                            line.append("  ");
                        },
                    }
                    assert(line@ =~= before + cell_text(at(board@, file as int, rank as int)));
                },
                None => {
                    let ghost before = line@;
                    line.append("*");
                    line.append("  ");
                    assert(line@ =~= before + cell_text(at(board@, file as int, rank as int)));
                },
            }
            file = file + 1;
        }
        line.append("|\n");
        let ghost before = s@;
        s.append(line.as_str());
        assert(s@ =~= before + rank_text(board@, rank as int, 8) + "|\n"@);
        n = n + 1;
    }
    s.append("|:------------------------:|");
    s
}

} // verus!
