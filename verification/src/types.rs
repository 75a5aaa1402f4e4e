//! The plain values of the game: colours, piece kinds, squares, outcomes
//! and the reasons for which a request is turned down.

use vstd::prelude::*;
use vstd::string::*;

verus! {

/// The two sides. White moves first and towards higher ranks.
#[derive(Copy, Clone, Debug, PartialEq, Eq, Structural)]
pub enum Color {
    White,
    Black,
}

/// The six kinds of piece.
#[derive(Copy, Clone, Debug, PartialEq, Eq, Structural)]
pub enum Piece {
    King,
    Queen,
    Bishop,
    Knight,
    Rook,
    Pawn,
}

/// What the side to move faces.
#[derive(Copy, Clone, Debug, PartialEq, Eq, Structural)]
pub enum GameState {
    /// The side to move is not attacked and has a legal move.
    InProgress,
    /// The side to move is attacked and has a legal move.
    Check,
    /// The side to move is attacked and has no legal move.
    Checkmate,
    /// The side to move is not attacked and has no legal move.
    Stalemate,
}

/// Why a move was turned down.
#[derive(Copy, Clone, Debug, PartialEq, Eq, Structural)]
pub enum MoveError {
    /// A coordinate is not a file letter `a`-`h` followed by a rank digit `1`-`8`.
    InvalidCoordinate,
    /// No piece stands on the square to move from.
    EmptySquare,
    /// The piece on the square to move from belongs to the side that is not to move.
    WrongTurn,
    /// The destination is not among the legal moves of the piece.
    IllegalMove,
    /// The game has ended in checkmate or stalemate.
    GameAlreadyOver,
}

/// Why a setting was turned down.
#[derive(Copy, Clone, Debug, PartialEq, Eq, Structural)]
pub enum ConfigError {
    /// A pawn may become a queen, a rook, a bishop or a knight, nothing else.
    InvalidPromotionChoice,
}

/// Which kings and rooks have left their first squares, or had them taken.
/// A flag once raised stays raised.
#[derive(Copy, Clone, Debug, PartialEq, Eq, Structural)]
pub struct CastlingTracker {
    pub white_king: bool,
    pub white_rook_a: bool,
    pub white_rook_h: bool,
    pub black_king: bool,
    pub black_rook_a: bool,
    pub black_rook_h: bool,
}

/// What stands on a square: nothing, or a piece of some kind and colour.
pub type Cell = Option<(Piece, Color)>;

/// A square of the board by zero-based file (`a` is 0) and rank (`1` is 0).
#[derive(Copy, Clone, Debug, PartialEq, Eq, Structural)]
pub struct Square {
    pub file: u8,
    pub rank: u8,
}

impl Color {
    /// The other side.
    pub open spec fn other(self) -> Color {
        match self {
            Color::White => Color::Black,
            Color::Black => Color::White,
        }
    }

    /// The other side.
    pub fn opponent(self) -> (c: Color)
        ensures
            c == self.other(),
    {
        match self {
            Color::White => Color::Black,
            Color::Black => Color::White,
        }
    }

    /// The rank on which this side's king and rooks start.
    pub open spec fn home_rank(self) -> int {
        match self {
            Color::White => 0,
            Color::Black => 7,
        }
    }

    /// The rank on which this side's pawns start.
    pub open spec fn pawn_rank(self) -> int {
        match self {
            Color::White => 1,
            Color::Black => 6,
        }
    }

    /// The rank on which this side's pawns are promoted.
    pub open spec fn last_rank(self) -> int {
        match self {
            Color::White => 7,
            Color::Black => 0,
        }
    }

    /// The change of rank of one pawn step of this side.
    pub open spec fn forward(self) -> int {
        match self {
            Color::White => 1,
            Color::Black => -1,
        }
    }
}

impl Piece {
    /// Whether a pawn may become this kind of piece.
    pub open spec fn promotable(self) -> bool {
        self == Piece::Queen || self == Piece::Rook || self == Piece::Bishop || self
            == Piece::Knight
    }

    /// Whether a pawn may become this kind of piece.
    pub fn is_promotable(self) -> (b: bool)
        ensures
            b == self.promotable(),
    {
        match self {
            Piece::Queen | Piece::Rook | Piece::Bishop | Piece::Knight => true,
            Piece::King | Piece::Pawn => false,
        }
    }

    /// The name of this kind.
    pub open spec fn label(self) -> Seq<char> {
        match self {
            Piece::King => "King"@,
            Piece::Queen => "Queen"@,
            Piece::Bishop => "Bishop"@,
            Piece::Knight => "Knight"@,
            Piece::Rook => "Rook"@,
            Piece::Pawn => "Pawn"@,
        }
    }

    /// The name of this kind.
    pub fn name(&self) -> (s: &'static str)
        ensures
            s@ == self.label(),
    {
        match self {
            Piece::King => "King",
            Piece::Queen => "Queen",
            Piece::Bishop => "Bishop",
            Piece::Knight => "Knight",
            Piece::Rook => "Rook",
            Piece::Pawn => "Pawn",
        }
    }

    /// The letters that stand for this kind in a diagram.
    pub open spec fn symbol(self) -> Seq<char> {
        match self {
            Piece::King => seq!['K'],
            Piece::Queen => seq!['Q'],
            Piece::Bishop => seq!['B'],
            Piece::Knight => seq!['K', 'n'],
            Piece::Rook => seq!['R'],
            Piece::Pawn => seq!['P'],
        }
    }

    /// The letters that stand for this kind in a diagram.
    pub fn represent(&self) -> (s: &'static str)
        ensures
            s@ == self.symbol(),
    {
        proof {
            reveal_strlit("K");
            reveal_strlit("Q");
            reveal_strlit("B");
            reveal_strlit("Kn");
            reveal_strlit("R");
            reveal_strlit("P");
        }
        let s = match self {
            Piece::King => "K",
            Piece::Queen => "Q",
            Piece::Bishop => "B",
            Piece::Knight => "Kn",
            Piece::Rook => "R",
            Piece::Pawn => "P",
        };
        s
    }
}

impl GameState {
    /// Whether the game has ended: checkmate or stalemate.
    pub open spec fn over(self) -> bool {
        self == GameState::Checkmate || self == GameState::Stalemate
    }

    /// Whether the game has ended: checkmate or stalemate.
    pub fn is_over(&self) -> (b: bool)
        ensures
            b == self.over(),
    {
        match self {
            GameState::Checkmate | GameState::Stalemate => true,
            GameState::InProgress | GameState::Check => false,
        }
    }
}

/// The kind of piece that a name stands for: the kind whose name it is.
pub open spec fn piece_named(s: Seq<char>) -> Option<Piece> {
    if s == Piece::King.label() {
        Some(Piece::King)
    } else if s == Piece::Queen.label() {
        Some(Piece::Queen)
    } else if s == Piece::Bishop.label() {
        Some(Piece::Bishop)
    } else if s == Piece::Knight.label() {
        Some(Piece::Knight)
    } else if s == Piece::Rook.label() {
        Some(Piece::Rook)
    } else if s == Piece::Pawn.label() {
        Some(Piece::Pawn)
    } else {
        None
    }
}

/// Every kind of piece is the kind that its name stands for, and a text
/// stands for a kind only if it is the name of that kind.
pub proof fn lemma_names(p: Piece, s: Seq<char>)
    ensures
        piece_named(p.label()) == Some(p),
        piece_named(s) == Some(p) <==> s == p.label(),
{
    reveal_strlit("King");
    reveal_strlit("Queen");
    reveal_strlit("Bishop");
    reveal_strlit("Knight");
    reveal_strlit("Rook");
    reveal_strlit("Pawn");
    assert("King"@.len() == 4 && "King"@[0] == 'K');
    assert("Queen"@.len() == 5 && "Queen"@[0] == 'Q');
    assert("Bishop"@.len() == 6 && "Bishop"@[0] == 'B');
    assert("Knight"@.len() == 6 && "Knight"@[0] == 'K');
    assert("Rook"@.len() == 4 && "Rook"@[0] == 'R');
    assert("Pawn"@.len() == 4 && "Pawn"@[0] == 'P');
}

/// The kind of piece that a name stands for.
pub fn piece_by_name(s: &str) -> (p: Option<Piece>)
    ensures
        p == piece_named(s@),
{
    let t = String::from_str(s);
    if t == String::from_str(Piece::King.name()) {
        Some(Piece::King)
    } else if t == String::from_str(Piece::Queen.name()) {
        Some(Piece::Queen)
    } else if t == String::from_str(Piece::Bishop.name()) {
        Some(Piece::Bishop)
    } else if t == String::from_str(Piece::Knight.name()) {
        Some(Piece::Knight)
    } else if t == String::from_str(Piece::Rook.name()) {
        Some(Piece::Rook)
    } else if t == String::from_str(Piece::Pawn.name()) {
        Some(Piece::Pawn)
    } else {
        None
    }
}

impl CastlingTracker {
    /// Whether the king of a side has moved.
    pub open spec fn king(self, c: Color) -> bool {
        match c {
            Color::White => self.white_king,
            Color::Black => self.black_king,
        }
    }

    /// Whether the rook of a side on the king's side or the queen's side has moved.
    pub open spec fn rook(self, c: Color, king_side: bool) -> bool {
        match c {
            Color::White => if king_side {
                self.white_rook_h
            } else {
                self.white_rook_a
            },
            Color::Black => if king_side {
                self.black_rook_h
            } else {
                self.black_rook_a
            },
        }
    }

    /// A record in which nothing has moved.
    pub fn new() -> (t: CastlingTracker)
        ensures
            t == (CastlingTracker {
                white_king: false,
                white_rook_a: false,
                white_rook_h: false,
                black_king: false,
                black_rook_a: false,
                black_rook_h: false,
            }),
    {
        CastlingTracker {
            white_king: false,
            white_rook_a: false,
            white_rook_h: false,
            black_king: false,
            black_rook_a: false,
            black_rook_h: false,
        }
    }

    /// Whether the king of a side has moved.
    pub fn king_moved(&self, c: Color) -> (b: bool)
        ensures
            b == self.king(c),
    {
        match c {
            Color::White => self.white_king,
            Color::Black => self.black_king,
        }
    }

    /// Whether the rook of a side on the king's side or the queen's side has moved.
    pub fn rook_moved(&self, c: Color, king_side: bool) -> (b: bool)
        ensures
            b == self.rook(c, king_side),
    {
        match c {
            Color::White => if king_side {
                self.white_rook_h
            } else {
                self.white_rook_a
            },
            Color::Black => if king_side {
                self.black_rook_h
            } else {
                self.black_rook_a
            },
        }
    }

    /// Whether castling on a side is still open to a colour as far as this
    /// record goes: neither the king nor that rook has moved.
    pub fn can_castle(&self, c: Color, king_side: bool) -> (b: bool)
        ensures
            b == (!self.king(c) && !self.rook(c, king_side)),
    {
        !self.king_moved(c) && !self.rook_moved(c, king_side)
    }
}

impl Square {
    /// The file as a mathematical integer.
    pub open spec fn f(self) -> int {
        self.file as int
    }

    /// The rank as a mathematical integer.
    pub open spec fn r(self) -> int {
        self.rank as int
    }

    /// Whether the square lies on the board.
    pub open spec fn wf(self) -> bool {
        self.file < 8 && self.rank < 8
    }

    /// The place of the square when the board is read rank by rank.
    pub open spec fn index(self) -> int {
        self.rank as int * 8 + self.file as int
    }

    /// The square at a place of the board read rank by rank.
    pub open spec fn at_index(i: int) -> Square {
        Square { file: (i % 8) as u8, rank: (i / 8) as u8 }
    }

    /// The square on a file and rank, or nothing where either is off the board.
    pub fn new(file: u8, rank: u8) -> (s: Option<Square>)
        ensures
            s == if file < 8 && rank < 8 {
                Some(Square { file, rank })
            } else {
                None
            },
    {
        if file < 8 && rank < 8 {
            Some(Square { file, rank })
        } else {
            None
        }
    }

    /// Whether the square lies on the board.
    pub fn is_valid(&self) -> (b: bool)
        ensures
            b == self.wf(),
    {
        self.file < 8 && self.rank < 8
    }

    /// The place of the square when the board is read rank by rank.
    pub fn to_index(&self) -> (i: usize)
        requires
            self.wf(),
        ensures
            i == self.index(),
            i < 64,
    {
        self.rank as usize * 8 + self.file as usize
    }

    /// The square at a place of the board read rank by rank.
    pub fn from_index(i: usize) -> (s: Square)
        requires
            i < 64,
        ensures
            s == Square::at_index(i as int),
            s.wf(),
            s.index() == i,
    {
        Square { file: (i % 8) as u8, rank: (i / 8) as u8 }
    }
}

} // verus!
