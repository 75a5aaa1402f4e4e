//! The game: a position, the kind of piece that pawns are promoted to, and
//! what the side to move faces. It changes through moves only.

use vstd::prelude::*;
use vstd::string::*;
use crate::types::{
    CastlingTracker, Cell, Color, ConfigError, GameState, MoveError, Piece, Square, piece_by_name,
    piece_named,
};
use crate::rules::{
    PositionModel, at, legal, occupied_by, on_board, opening, opening_cell, playable,
    position_after, sound, status,
};
use crate::squares::{lemma_select_sound, select};
use crate::board::Board;
use crate::position::Position;
use crate::notation::{decode, notation, parse_square, square_name};
use crate::diagram::{diagram, render};
use crate::soundness::{lemma_opening_in_progress, lemma_opening_sound, lemma_sound_preserved};

verus! {

/// A game of chess.
#[derive(Copy, Clone, Debug)]
pub struct Game {
    position: Position,
    promotion: Piece,
    state: GameState,
}

/// What a game is, mathematically.
pub ghost struct GameModel {
    /// The position on the board.
    pub position: PositionModel,
    /// The kind of piece the next promoted pawn becomes.
    pub promotion: Piece,
    /// What the side to move faces.
    pub state: GameState,
}

impl View for Game {
    type V = GameModel;

    closed spec fn view(&self) -> GameModel {
        GameModel { position: self.position@, promotion: self.promotion, state: self.state }
    }
}

/// What a request to move the piece on `from` to `to` leads to, each
/// square given as a file and rank or as nothing where the coordinate was
/// malformed. Either the game after the move, or the reason for which the
/// move is turned down: the first that applies of a game that is over, a
/// malformed coordinate, an empty square, a piece of the side that is not
/// to move, and a destination that is not a legal move of the piece.
pub open spec fn move_outcome(
    g: GameModel,
    from: Option<(int, int)>,
    to: Option<(int, int)>,
) -> Result<GameModel, MoveError> {
    if g.state.over() {
        Err(MoveError::GameAlreadyOver)
    } else if from is None || to is None {
        Err(MoveError::InvalidCoordinate)
    } else {
        let (f, r) = from.unwrap();
        let (tf, tr) = to.unwrap();
        if !on_board(f, r) || !on_board(tf, tr) {
            Err(MoveError::InvalidCoordinate)
        } else {
            match at(g.position.grid, f, r) {
                None => Err(MoveError::EmptySquare),
                Some((_, c)) => if c != g.position.turn {
                    Err(MoveError::WrongTurn)
                } else if !legal(g.position, f, r, tf, tr) {
                    Err(MoveError::IllegalMove)
                } else {
                    let next = position_after(g.position, g.promotion, f, r, tf, tr);
                    Ok(GameModel { position: next, promotion: g.promotion, state: status(next) })
                },
            }
        }
    }
}

/// The kind of piece to promote to that a request names, if it names one:
/// a queen, a rook, a bishop or a knight.
pub open spec fn promotion_named(s: Seq<char>) -> Option<Piece> {
    match piece_named(s) {
        Some(p) => if p.promotable() {
            Some(p)
        } else {
            None
        },
        None => None,
    }
}

/// The file and rank of a square, or nothing where it lies off the board.
pub open spec fn placed(sq: Square) -> Option<(int, int)> {
    if sq.wf() {
        Some((sq.f(), sq.r()))
    } else {
        None
    }
}

/// The legal destinations of the piece of the side to move on `(f, r)`, in
/// the order of the board read rank by rank, or nothing where no such
/// piece stands there.
pub open spec fn moves_from(pos: PositionModel, from: Option<(int, int)>) -> Option<Seq<Square>> {
    match from {
        None => None,
        Some((f, r)) => if on_board(f, r) && occupied_by(pos.grid, f, r, pos.turn) {
            Some(select(|tf: int, tr: int| legal(pos, f, r, tf, tr), 64))
        } else {
            None
        },
    }
}

/// Whether a list of texts names a list of squares, one by one.
pub open spec fn names(texts: Seq<String>, squares: Seq<Square>) -> bool {
    texts.len() == squares.len() && forall|i: int|
        0 <= i < texts.len() ==> (#[trigger] texts[i])@ == notation(squares[i].f(), squares[i].r())
}

/// The cell of the opening position on a file and rank.
fn opening_cell_of(file: u8, rank: u8) -> (c: Cell)
    requires
        file < 8,
        rank < 8,
    ensures
        c == opening_cell(file as int, rank as int),
{
    let color = if rank <= 1 {
        Color::White
    } else {
        Color::Black
    };
    if rank == 1 || rank == 6 {
        Some((Piece::Pawn, color))
    } else if rank == 0 || rank == 7 {
        match file {
            0 | 7 => Some((Piece::Rook, color)),
            1 | 6 => Some((Piece::Knight, color)),
            2 | 5 => Some((Piece::Bishop, color)),
            3 => Some((Piece::Queen, color)),
            _ => Some((Piece::King, color)),
        }
    } else {
        None
    }
}

/// The board of the opening position.
fn opening_board() -> (b: Board)
    ensures
        b@ == opening().grid,
{
    let mut b = Board::empty();
    let mut i: usize = 0;
    while i < 64
        invariant
            i <= 64,
            b@.len() == 64,
            forall|j: int| 0 <= j < i ==> b@[j] == opening_cell(j % 8, j / 8),
        decreases 64 - i,
    {
        let sq = Square::from_index(i);
        b.set(sq, opening_cell_of(sq.file, sq.rank));
        i = i + 1;
    }
    b
}

impl Game {
    /// What every game satisfies: its position can occur in a game (each
    /// side has exactly one king, and the side that has just moved has not
    /// left its king attacked), pawns are promoted to a queen, rook, bishop
    /// or knight, and the recorded state is what the side to move faces.
    pub closed spec fn wf(&self) -> bool {
        sound(self.position@) && self.promotion.promotable() && self.state
            == status(self.position@)
    }

    /// What a game satisfies, over its model.
    pub proof fn lemma_wf(&self)
        requires
            self.wf(),
        ensures
            sound(self@.position),
            self@.promotion.promotable(),
            self@.state == status(self@.position),
    {
    }

    /// A game in the opening position: White to move, pawns promoted to queens.
    pub fn new() -> (g: Game)
        ensures
            g.wf(),
            g@.position == opening(),
            g@.promotion == Piece::Queen,
            g@.state == GameState::InProgress,
    {
        proof {
            lemma_opening_sound();
            lemma_opening_in_progress();
        }
        let position = Position {
            board: opening_board(),
            turn: Color::White,
            moved: CastlingTracker::new(),
            en_passant: None,
        };
        Game { position, promotion: Piece::Queen, state: GameState::InProgress }
    }

    /// A game that goes on from a given position, where that position can
    /// occur in a game and pawns may be promoted to the given kind; nothing
    /// otherwise.
    pub fn from_position(position: Position, promotion: Piece) -> (g: Option<Game>)
        ensures
            match g {
                Some(g) => sound(position@) && promotion.promotable() && g.wf() && g@ == (
                GameModel { position: position@, promotion, state: status(position@) }),
                None => !(sound(position@) && promotion.promotable()),
            },
    {
        if position.is_sound() && promotion.is_promotable() {
            let state = position.status();
            Some(Game { position, promotion, state })
        } else {
            None
        }
    }

    /// What the side to move faces. Nothing changes.
    pub fn get_game_state(&self) -> (s: GameState)
        ensures
            s == self@.state,
    {
        self.state
    }

    /// The side to move.
    pub fn turn(&self) -> (c: Color)
        ensures
            c == self@.position.turn,
    {
        self.position.turn
    }

    /// The kind of piece the next promoted pawn becomes.
    pub fn promotion(&self) -> (p: Piece)
        ensures
            p == self@.promotion,
    {
        self.promotion
    }

    /// The position.
    pub fn position(&self) -> (p: Position)
        ensures
            p@ == self@.position,
    {
        self.position
    }

    /// What stands on a square.
    pub fn get_piece(&self, sq: Square) -> (c: Cell)
        requires
            sq.wf(),
        ensures
            c == at(self@.position.grid, sq.f(), sq.r()),
    {
        self.position.board.piece_at(sq)
    }

    /// The board.
    pub fn board(&self) -> (b: Board)
        ensures
            b@ == self@.position.grid,
    {
        self.position.board
    }

    /// The diagram of the board as text.
    pub fn render(&self) -> (s: String)
        ensures
            s@ == diagram(self@.position.grid),
    {
        render(&self.position.board)
    }

    /// Reads a coordinate as a file and a rank, both counted from 0.
    pub fn get_position_as_tuple(&self, position: &String) -> (res: Option<(usize, usize)>)
        ensures
            match decode(position@) {
                Some((f, r)) => res == Some((f as usize, r as usize)) && on_board(f, r),
                None => res is None,
            },
    {
        match parse_square(position.as_str()) {
            Some(sq) => Some((sq.file as usize, sq.rank as usize)),
            None => None,
        }
    }

    /// Writes a file and a rank, both counted from 0, as a coordinate;
    /// nothing where either is off the board.
    pub fn get_position_as_string(&self, place: (usize, usize)) -> (res: Option<String>)
        ensures
            match res {
                Some(s) => on_board(place.0 as int, place.1 as int) && s@ == notation(
                    place.0 as int,
                    place.1 as int,
                ),
                None => !on_board(place.0 as int, place.1 as int),
            },
    {
        if place.0 < 8 && place.1 < 8 {
            Some(square_name(Square { file: place.0 as u8, rank: place.1 as u8 }))
        } else {
            None
        }
    }

    /// Moves the piece on `from` to `to` if the game goes on, the squares
    /// lie on the board, a piece of the side to move stands on `from`, and
    /// `to` is one of its legal moves. The game then holds the position
    /// after the move and what the other side now faces, which is returned.
    /// A move that is turned down changes nothing.
    pub fn move_piece(&mut self, from: Square, to: Square) -> (res: Result<GameState, MoveError>)
        requires
            old(self).wf(),
        ensures
            final(self).wf(),
            match move_outcome(old(self)@, placed(from), placed(to)) {
                Ok(next) => final(self)@ == next && res == Ok::<GameState, MoveError>(next.state),
                Err(e) => final(self)@ == old(self)@ && res == Err::<GameState, MoveError>(e),
            },
    {
        match self.state {
            GameState::Checkmate | GameState::Stalemate => {
                return Err(MoveError::GameAlreadyOver);
            },
            _ => {},
        }
        if !from.is_valid() || !to.is_valid() {
            return Err(MoveError::InvalidCoordinate);
        }
        match self.position.board.piece_at(from) {
            None => Err(MoveError::EmptySquare),
            Some((_, c)) => {
                if c != self.position.turn {
                    Err(MoveError::WrongTurn)
                } else if !self.position.is_legal(from, to) {
                    Err(MoveError::IllegalMove)
                } else {
                    proof {
                        lemma_sound_preserved(
                            self.position@,
                            self.promotion,
                            from.f(),
                            from.r(),
                            to.f(),
                            to.r(),
                        );
                    }
                    let next = self.position.after_move(self.promotion, from, to);
                    let state = next.status();
                    self.position = next;
                    self.state = state;
                    Ok(state)
                }
            },
        }
    }

    /// Moves the piece on the square named `from` to the square named `to`,
    /// as [`Game::move_piece`] does. A name that is not a file letter and a
    /// rank digit is a malformed coordinate.
    pub fn make_move(&mut self, from: String, to: String) -> (res: Result<GameState, MoveError>)
        requires
            old(self).wf(),
        ensures
            final(self).wf(),
            match move_outcome(old(self)@, decode(from@), decode(to@)) {
                Ok(next) => final(self)@ == next && res == Ok::<GameState, MoveError>(next.state),
                Err(e) => final(self)@ == old(self)@ && res == Err::<GameState, MoveError>(e),
            },
    {
        match self.state {
            GameState::Checkmate | GameState::Stalemate => {
                return Err(MoveError::GameAlreadyOver);
            },
            _ => {},
        }
        match (parse_square(from.as_str()), parse_square(to.as_str())) {
            (Some(a), Some(b)) => self.move_piece(a, b),
            _ => Err(MoveError::InvalidCoordinate),
        }
    }

    /// Chooses the kind of piece that pawns are promoted to from now on. A
    /// kind other than queen, rook, bishop and knight is turned down and
    /// changes nothing.
    pub fn set_promotion_piece(&mut self, piece: Piece) -> (res: Result<(), ConfigError>)
        requires
            old(self).wf(),
        ensures
            final(self).wf(),
            final(self)@.position == old(self)@.position,
            final(self)@.state == old(self)@.state,
            piece.promotable() ==> res is Ok && final(self)@.promotion == piece,
            !piece.promotable() ==> res == Err::<(), ConfigError>(
                ConfigError::InvalidPromotionChoice,
            ) && final(self)@.promotion == old(self)@.promotion,
    {
        if piece.is_promotable() {
            self.promotion = piece;
            Ok(())
        } else {
            Err(ConfigError::InvalidPromotionChoice)
        }
    }

    /// Chooses the kind of piece that pawns are promoted to from now on, by
    /// its name: `Queen`, `Rook`, `Bishop` or `Knight`. Any other text is
    /// turned down and changes nothing.
    pub fn set_promotion(&mut self, piece: String) -> (res: Result<(), ConfigError>)
        requires
            old(self).wf(),
        ensures
            final(self).wf(),
            final(self)@.position == old(self)@.position,
            final(self)@.state == old(self)@.state,
            match promotion_named(piece@) {
                Some(p) => res is Ok && final(self)@.promotion == p,
                None => res == Err::<(), ConfigError>(ConfigError::InvalidPromotionChoice)
                    && final(self)@.promotion == old(self)@.promotion,
            },
    {
        match piece_by_name(piece.as_str()) {
            Some(p) => self.set_promotion_piece(p),
            None => Err(ConfigError::InvalidPromotionChoice),
        }
    }

    /// The legal destinations of the piece on `from`, in the order of the
    /// board read rank by rank; nothing where `from` lies off the board or
    /// no piece of the side to move stands on it.
    pub fn possible_moves(&self, from: Square) -> (res: Option<Vec<Square>>)
        ensures
            match moves_from(self@.position, placed(from)) {
                Some(squares) => res is Some && res.unwrap()@ == squares,
                None => res is None,
            },
    {
        if !from.is_valid() {
            return None;
        }
        if self.position.board.is_occupied_by(from, self.position.turn) {
            Some(self.position.legal_moves(from))
        } else {
            None
        }
    }

    /// The names of the legal destinations of the piece on the square named
    /// `position`, in the order of the board read rank by rank; nothing
    /// where the name is malformed or no piece of the side to move stands
    /// on the square.
    pub fn get_possible_moves(&self, position: String) -> (res: Option<Vec<String>>)
        ensures
            match moves_from(self@.position, decode(position@)) {
                Some(squares) => res is Some && names(res.unwrap()@, squares),
                None => res is None,
            },
    {
        match self.get_position_as_tuple(&position) {
            None => None,
            Some(place) => match self.position.board.piece_at(
                Square { file: place.0 as u8, rank: place.1 as u8 },
            ) {
                None => None,
                Some((piece, color)) => {
                    // Return nothing if it is not that piece's turn.
                    if color != self.position.turn {
                        None
                    } else {
                        piece.get_moves(self, place, color)
                    }
                },
            },
        }
    }
}

impl Piece {
    /// The names of the legal destinations of this piece of the given
    /// colour on a file and rank of a game, in the order of the board read
    /// rank by rank, whichever side is to move; nothing where the square is
    /// off the board or another piece or none stands there.
    pub fn get_moves(&self, game: &Game, place: (usize, usize), color: Color) -> (res: Option<
        Vec<String>,
    >)
        ensures
            match res {
                Some(texts) => on_board(place.0 as int, place.1 as int) && at(
                    game@.position.grid,
                    place.0 as int,
                    place.1 as int,
                ) == Some((*self, color)) && names(
                    texts@,
                    select(
                        |tf: int, tr: int|
                            legal(game@.position, place.0 as int, place.1 as int, tf, tr),
                        64,
                    ),
                ),
                None => !(on_board(place.0 as int, place.1 as int) && at(
                    game@.position.grid,
                    place.0 as int,
                    place.1 as int,
                ) == Some((*self, color))),
            },
    {
        if place.0 >= 8 || place.1 >= 8 {
            return None;
        }
        let from = Square { file: place.0 as u8, rank: place.1 as u8 };
        let stands_here: bool = match game.position.board.piece_at(from) {
            Some((p, c)) => p == *self && c == color,
            None => false,
        };
        if !stands_here {
            return None;
        }
        let squares = game.position.legal_moves(from);
        proof {
            lemma_select_sound(
                |tf: int, tr: int| legal(game@.position, from.f(), from.r(), tf, tr),
                64,
            );
        }
        Some(name_all(&squares))
    }
}

/// The names of a list of squares, one by one.
pub fn name_all(squares: &Vec<Square>) -> (texts: Vec<String>)
    requires
        forall|i: int| 0 <= i < squares@.len() ==> (#[trigger] squares@[i]).wf(),
    ensures
        names(texts@, squares@),
{
    let mut texts: Vec<String> = Vec::new();
    let mut i: usize = 0;
    while i < squares.len()
        invariant
            i <= squares@.len(),
            forall|j: int| 0 <= j < squares@.len() ==> (#[trigger] squares@[j]).wf(),
            texts@.len() == i,
            forall|j: int|
                0 <= j < i ==> (#[trigger] texts@[j])@ == notation(squares@[j].f(), squares@[j].r()),
        decreases squares@.len() - i,
    {
        texts.push(square_name(squares[i]));
        i = i + 1;
    }
    texts
}

} // verus!
