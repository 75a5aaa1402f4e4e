use chess_rules::attack::{attacked_squares, is_attacked, is_in_check};
use chess_rules::board::Board;
use chess_rules::game::Game;
use chess_rules::position::{has_one_king, Position};
use chess_rules::types::{
    CastlingTracker, Color, ConfigError, GameState, MoveError, Piece, Square,
};

fn sq(name: &str) -> Square {
    let bytes = name.as_bytes();
    Square { file: bytes[0] - b'a', rank: bytes[1] - b'1' }
}

fn board_of(pieces: &[(&str, Piece, Color)]) -> Board {
    let mut board = Board::empty();
    for (name, piece, color) in pieces {
        board.set(sq(name), Some((*piece, *color)));
    }
    board
}

fn all_moved() -> CastlingTracker {
    CastlingTracker {
        white_king: true,
        white_rook_a: true,
        white_rook_h: true,
        black_king: true,
        black_rook_a: true,
        black_rook_h: true,
    }
}

fn position_of(pieces: &[(&str, Piece, Color)], turn: Color) -> Position {
    Position { board: board_of(pieces), turn, moved: all_moved(), en_passant: None }
}

fn names(squares: &[Square]) -> Vec<String> {
    squares
        .iter()
        .map(|s| {
            let mut t = String::new();
            t.push((b'a' + s.file) as char);
            t.push((b'1' + s.rank) as char);
            t
        })
        .collect()
}

#[test]
fn lone_rook_moves_along_file_and_rank() {
    for file in 0..8u8 {
        for rank in 0..8u8 {
            for color in [Color::White, Color::Black] {
                let from = Square { file, rank };
                let mut board = Board::empty();
                board.set(from, Some((Piece::Rook, color)));
                let pos = Position {
                    board,
                    turn: color,
                    moved: CastlingTracker::new(),
                    en_passant: None,
                };
                let mut expected = Vec::new();
                for r in 0..8u8 {
                    for f in 0..8u8 {
                        if (f == file) != (r == rank) {
                            expected.push(Square { file: f, rank: r });
                        }
                    }
                }
                assert_eq!(expected.len(), 14);
                assert_eq!(pos.legal_moves(from), expected);
                assert_eq!(pos.pseudo_legal_moves(from), expected);
            }
        }
    }
}

#[test]
fn sliding_piece_stops_at_first_occupant() {
    let pos = position_of(
        &[
            ("a1", Piece::Rook, Color::White),
            ("a4", Piece::Pawn, Color::White),
            ("d1", Piece::Knight, Color::Black),
            ("e1", Piece::King, Color::White),
            ("e8", Piece::King, Color::Black),
        ],
        Color::White,
    );
    assert_eq!(names(&pos.pseudo_legal_moves(sq("a1"))), vec!["b1", "c1", "d1", "a2", "a3"]);
    assert!(is_attacked(&pos.board, sq("a4"), Color::White));
    assert!(is_attacked(&pos.board, sq("d1"), Color::White));
    assert!(!is_attacked(&pos.board, sq("a5"), Color::White));
}

#[test]
fn pawn_attacks_diagonals_only() {
    let board = board_of(&[("e4", Piece::Pawn, Color::White)]);
    assert_eq!(names(&attacked_squares(&board, Color::White)), vec!["d5", "f5"]);
    assert_eq!(attacked_squares(&board, Color::Black), vec![]);
    let board = board_of(&[("e4", Piece::Pawn, Color::Black)]);
    assert_eq!(names(&attacked_squares(&board, Color::Black)), vec!["d3", "f3"]);
    let board = board_of(&[("a2", Piece::Pawn, Color::White)]);
    assert_eq!(names(&attacked_squares(&board, Color::White)), vec!["b3"]);
}

#[test]
fn knight_and_king_attack_by_offsets() {
    let board = board_of(&[("b1", Piece::Knight, Color::White)]);
    assert_eq!(names(&attacked_squares(&board, Color::White)), vec!["d2", "a3", "c3"]);
    let board = board_of(&[("a1", Piece::King, Color::Black)]);
    assert_eq!(names(&attacked_squares(&board, Color::Black)), vec!["b1", "a2", "b2"]);
    let board = board_of(&[("d4", Piece::Knight, Color::White)]);
    assert_eq!(
        names(&attacked_squares(&board, Color::White)),
        vec!["c2", "e2", "b3", "f3", "b5", "f5", "c6", "e6"]
    );
}

#[test]
fn bishop_and_queen_attack_along_lines() {
    let board = board_of(&[("c1", Piece::Bishop, Color::White), ("e3", Piece::Pawn, Color::Black)]);
    assert_eq!(names(&attacked_squares(&board, Color::White)), vec!["b2", "d2", "a3", "e3"]);
    let board = board_of(&[
        ("a1", Piece::Queen, Color::White),
        ("a3", Piece::Pawn, Color::Black),
        ("c1", Piece::Pawn, Color::Black),
        ("c3", Piece::Pawn, Color::Black),
    ]);
    assert_eq!(
        names(&attacked_squares(&board, Color::White)),
        vec!["b1", "c1", "a2", "b2", "a3", "c3"]
    );
    assert_eq!(names(&attacked_squares(&board, Color::Black)), vec!["b2", "d2"]);
}

#[test]
fn pinned_piece_may_not_leave_the_line() {
    let pos = position_of(
        &[
            ("e1", Piece::King, Color::White),
            ("e2", Piece::Rook, Color::White),
            ("e8", Piece::Rook, Color::Black),
            ("a2", Piece::Bishop, Color::Black),
            ("h8", Piece::King, Color::Black),
        ],
        Color::White,
    );
    assert!(pos.is_pseudo_legal(sq("e2"), sq("a2")));
    assert!(!pos.is_legal(sq("e2"), sq("a2")));
    assert!(!pos.is_legal(sq("e2"), sq("d2")));
    assert!(pos.is_legal(sq("e2"), sq("e5")));
    assert!(pos.is_legal(sq("e2"), sq("e8")));
    assert_eq!(
        names(&pos.legal_moves(sq("e2"))),
        vec!["e3", "e4", "e5", "e6", "e7", "e8"]
    );
    let mut game = Game::from_position(pos, Piece::Queen).unwrap();
    let before = game.board();
    assert_eq!(
        game.make_move("e2".to_owned(), "a2".to_owned()),
        Err(MoveError::IllegalMove)
    );
    assert_eq!(game.board().occupied(), before.occupied());
    assert_eq!(game.turn(), Color::White);
    assert_eq!(game.get_game_state(), GameState::InProgress);
}

#[test]
fn stalemate_is_not_checkmate() {
    let pos = position_of(
        &[
            ("f7", Piece::King, Color::White),
            ("g5", Piece::Queen, Color::White),
            ("h8", Piece::King, Color::Black),
        ],
        Color::White,
    );
    let mut game = Game::from_position(pos, Piece::Queen).unwrap();
    assert_eq!(game.get_game_state(), GameState::InProgress);
    assert_eq!(
        game.make_move("g5".to_owned(), "g6".to_owned()),
        Ok(GameState::Stalemate)
    );
    assert_eq!(game.get_game_state(), GameState::Stalemate);
    assert!(!is_in_check(&game.board(), Color::Black));
    assert_eq!(game.possible_moves(sq("h8")), Some(vec![]));
    assert!(!game.position().has_legal_move());
    let before = game.render();
    assert_eq!(
        game.make_move("h8".to_owned(), "h7".to_owned()),
        Err(MoveError::GameAlreadyOver)
    );
    assert_eq!(game.move_piece(sq("h8"), sq("g8")), Err(MoveError::GameAlreadyOver));
    assert_eq!(game.get_game_state(), GameState::Stalemate);
    assert_eq!(game.render(), before);
    assert_eq!(game.turn(), Color::Black);
}

#[test]
fn status_tells_the_four_cases_apart() {
    let stalemate = position_of(
        &[
            ("f7", Piece::King, Color::White),
            ("g6", Piece::Queen, Color::White),
            ("h8", Piece::King, Color::Black),
        ],
        Color::Black,
    );
    assert_eq!(stalemate.status(), GameState::Stalemate);
    let checkmate = position_of(
        &[
            ("g6", Piece::King, Color::White),
            ("g7", Piece::Queen, Color::White),
            ("g8", Piece::King, Color::Black),
        ],
        Color::Black,
    );
    assert_eq!(checkmate.status(), GameState::Checkmate);
    let check = position_of(
        &[
            ("a1", Piece::King, Color::White),
            ("g1", Piece::Rook, Color::White),
            ("g8", Piece::King, Color::Black),
        ],
        Color::Black,
    );
    assert_eq!(check.status(), GameState::Check);
    let quiet = position_of(
        &[
            ("a1", Piece::King, Color::White),
            ("h1", Piece::Rook, Color::White),
            ("g8", Piece::King, Color::Black),
        ],
        Color::Black,
    );
    assert_eq!(quiet.status(), GameState::InProgress);
}

#[test]
fn unsound_positions_start_no_game() {
    let no_black_king = position_of(&[("e1", Piece::King, Color::White)], Color::White);
    assert!(!no_black_king.is_sound());
    assert!(Game::from_position(no_black_king, Piece::Queen).is_none());
    let two_kings = position_of(
        &[
            ("e1", Piece::King, Color::White),
            ("a1", Piece::King, Color::White),
            ("e8", Piece::King, Color::Black),
        ],
        Color::White,
    );
    assert!(!has_one_king(&two_kings.board, Color::White));
    assert!(has_one_king(&two_kings.board, Color::Black));
    assert!(Game::from_position(two_kings, Piece::Queen).is_none());
    let mover_left_in_check = position_of(
        &[
            ("e1", Piece::King, Color::White),
            ("e5", Piece::Rook, Color::White),
            ("e8", Piece::King, Color::Black),
        ],
        Color::White,
    );
    assert!(!mover_left_in_check.is_sound());
    assert!(Game::from_position(mover_left_in_check, Piece::Queen).is_none());
    let fine = position_of(
        &[("e1", Piece::King, Color::White), ("e8", Piece::King, Color::Black)],
        Color::White,
    );
    assert!(fine.is_sound());
    assert!(Game::from_position(fine, Piece::King).is_none());
    assert!(Game::from_position(fine, Piece::Pawn).is_none());
    assert!(Game::from_position(fine, Piece::Rook).is_some());
    let mut stray_target = fine;
    stray_target.en_passant = Some(sq("d6"));
    assert!(!stray_target.is_sound());
    assert!(Game::from_position(stray_target, Piece::Queen).is_none());
    let mut off_board_target = fine;
    off_board_target.en_passant = Some(Square { file: 9, rank: 5 });
    assert!(!off_board_target.is_sound());
}

#[test]
fn promotion_choice_is_applied() {
    let start = position_of(
        &[
            ("e1", Piece::King, Color::White),
            ("a7", Piece::Pawn, Color::White),
            ("b8", Piece::Rook, Color::Black),
            ("h5", Piece::King, Color::Black),
            ("h2", Piece::Pawn, Color::Black),
        ],
        Color::White,
    );
    let mut game = Game::from_position(start, Piece::Queen).unwrap();
    assert_eq!(game.promotion(), Piece::Queen);
    assert_eq!(
        game.set_promotion("King".to_owned()),
        Err(ConfigError::InvalidPromotionChoice)
    );
    assert_eq!(
        game.set_promotion("Pawn".to_owned()),
        Err(ConfigError::InvalidPromotionChoice)
    );
    assert_eq!(
        game.set_promotion("queen".to_owned()),
        Err(ConfigError::InvalidPromotionChoice)
    );
    assert_eq!(game.set_promotion("".to_owned()), Err(ConfigError::InvalidPromotionChoice));
    assert_eq!(
        game.set_promotion_piece(Piece::King),
        Err(ConfigError::InvalidPromotionChoice)
    );
    assert_eq!(
        game.set_promotion_piece(Piece::Pawn),
        Err(ConfigError::InvalidPromotionChoice)
    );
    assert_eq!(game.promotion(), Piece::Queen);
    assert_eq!(game.set_promotion("Knight".to_owned()), Ok(()));
    assert_eq!(game.promotion(), Piece::Knight);
    assert_eq!(
        game.make_move("a7".to_owned(), "b8".to_owned()),
        Ok(GameState::InProgress)
    );
    assert_eq!(game.get_piece(sq("b8")), Some((Piece::Knight, Color::White)));
    assert_eq!(game.get_piece(sq("a7")), None);
    assert_eq!(game.set_promotion("Rook".to_owned()), Ok(()));
    assert_eq!(
        game.make_move("h2".to_owned(), "h1".to_owned()),
        Ok(GameState::Check)
    );
    assert_eq!(game.get_piece(sq("h1")), Some((Piece::Rook, Color::Black)));
    assert_eq!(game.set_promotion("Bishop".to_owned()), Ok(()));
    assert_eq!(game.promotion(), Piece::Bishop);
    assert_eq!(game.set_promotion("Queen".to_owned()), Ok(()));
    assert_eq!(game.promotion(), Piece::Queen);
}

#[test]
fn promotion_defaults_to_queen() {
    let start = position_of(
        &[
            ("e1", Piece::King, Color::White),
            ("a7", Piece::Pawn, Color::White),
            ("h5", Piece::King, Color::Black),
        ],
        Color::White,
    );
    let mut game = Game::from_position(start, Piece::Queen).unwrap();
    assert_eq!(game.move_piece(sq("a7"), sq("a8")), Ok(GameState::InProgress));
    assert_eq!(game.get_piece(sq("a8")), Some((Piece::Queen, Color::White)));
}

#[test]
fn castling_needs_a_safe_and_empty_path() {
    let pieces = [
        ("e1", Piece::King, Color::White),
        ("a1", Piece::Rook, Color::White),
        ("h1", Piece::Rook, Color::White),
        ("e8", Piece::King, Color::Black),
    ];
    let fresh = Position {
        board: board_of(&pieces),
        turn: Color::White,
        moved: CastlingTracker::new(),
        en_passant: None,
    };
    assert!(fresh.may_castle(Color::White, true));
    assert!(fresh.may_castle(Color::White, false));
    assert!(!fresh.may_castle(Color::Black, true));
    assert!(fresh.is_legal(sq("e1"), sq("g1")));
    assert!(fresh.is_legal(sq("e1"), sq("c1")));
    assert_eq!(names(&fresh.legal_moves(sq("e1"))), vec!["c1", "d1", "f1", "g1", "d2", "e2", "f2"]);

    let mut king_moved = fresh;
    king_moved.moved.white_king = true;
    assert!(!king_moved.is_legal(sq("e1"), sq("g1")));
    assert!(!king_moved.is_legal(sq("e1"), sq("c1")));

    let mut rook_moved = fresh;
    rook_moved.moved.white_rook_h = true;
    assert!(!rook_moved.is_legal(sq("e1"), sq("g1")));
    assert!(rook_moved.is_legal(sq("e1"), sq("c1")));
    let mut rook_moved = fresh;
    rook_moved.moved.white_rook_a = true;
    assert!(rook_moved.is_legal(sq("e1"), sq("g1")));
    assert!(!rook_moved.is_legal(sq("e1"), sq("c1")));

    let mut blocked = fresh;
    blocked.board.set(sq("b1"), Some((Piece::Knight, Color::White)));
    assert!(blocked.is_legal(sq("e1"), sq("g1")));
    assert!(!blocked.is_legal(sq("e1"), sq("c1")));
    let mut blocked = fresh;
    blocked.board.set(sq("g1"), Some((Piece::Knight, Color::Black)));
    assert!(!blocked.is_legal(sq("e1"), sq("g1")));
    let mut blocked = fresh;
    blocked.board.set(sq("f1"), Some((Piece::Bishop, Color::White)));
    assert!(!blocked.is_legal(sq("e1"), sq("g1")));

    let mut in_check = fresh;
    in_check.board.set(sq("e5"), Some((Piece::Rook, Color::Black)));
    assert!(!in_check.is_legal(sq("e1"), sq("g1")));
    assert!(!in_check.is_legal(sq("e1"), sq("c1")));
    let mut transit_attacked = fresh;
    transit_attacked.board.set(sq("f5"), Some((Piece::Rook, Color::Black)));
    assert!(!transit_attacked.is_legal(sq("e1"), sq("g1")));
    assert!(transit_attacked.is_legal(sq("e1"), sq("c1")));
    let mut landing_attacked = fresh;
    landing_attacked.board.set(sq("c5"), Some((Piece::Rook, Color::Black)));
    assert!(landing_attacked.is_legal(sq("e1"), sq("g1")));
    assert!(!landing_attacked.is_legal(sq("e1"), sq("c1")));
    let mut rook_path_attacked = fresh;
    rook_path_attacked.board.set(sq("b5"), Some((Piece::Rook, Color::Black)));
    assert!(rook_path_attacked.is_legal(sq("e1"), sq("c1")));

    let mut no_rook = fresh;
    no_rook.board.set(sq("h1"), None);
    assert!(!no_rook.is_legal(sq("e1"), sq("g1")));
}

#[test]
fn castling_moves_the_rook_too() {
    let pieces = [
        ("e1", Piece::King, Color::White),
        ("a1", Piece::Rook, Color::White),
        ("h1", Piece::Rook, Color::White),
        ("e8", Piece::King, Color::Black),
        ("a8", Piece::Rook, Color::Black),
        ("h8", Piece::Rook, Color::Black),
    ];
    let fresh = Position {
        board: board_of(&pieces),
        turn: Color::White,
        moved: CastlingTracker::new(),
        en_passant: None,
    };
    let mut game = Game::from_position(fresh, Piece::Queen).unwrap();
    assert_eq!(game.move_piece(sq("e1"), sq("g1")), Ok(GameState::InProgress));
    assert_eq!(game.get_piece(sq("g1")), Some((Piece::King, Color::White)));
    assert_eq!(game.get_piece(sq("f1")), Some((Piece::Rook, Color::White)));
    assert_eq!(game.get_piece(sq("h1")), None);
    assert_eq!(game.get_piece(sq("e1")), None);
    assert_eq!(game.get_piece(sq("a1")), Some((Piece::Rook, Color::White)));
    let moved = game.position().moved;
    assert!(moved.white_king);
    assert!(!moved.white_rook_a);
    assert!(!moved.can_castle(Color::White, false));
    assert!(moved.can_castle(Color::Black, true));
    assert_eq!(game.move_piece(sq("e8"), sq("c8")), Ok(GameState::InProgress));
    assert_eq!(game.get_piece(sq("c8")), Some((Piece::King, Color::Black)));
    assert_eq!(game.get_piece(sq("d8")), Some((Piece::Rook, Color::Black)));
    assert_eq!(game.get_piece(sq("a8")), None);
    assert_eq!(game.get_piece(sq("h8")), Some((Piece::Rook, Color::Black)));
    assert!(game.position().moved.black_king);
    assert!(game.position().moved.black_rook_a);
}

#[test]
fn after_move_records_touched_corners() {
    let pieces = [
        ("e1", Piece::King, Color::White),
        ("a1", Piece::Rook, Color::White),
        ("h1", Piece::Rook, Color::White),
        ("e8", Piece::King, Color::Black),
        ("h8", Piece::Rook, Color::Black),
        ("b7", Piece::Bishop, Color::Black),
    ];
    let fresh = Position {
        board: board_of(&pieces),
        turn: Color::White,
        moved: CastlingTracker::new(),
        en_passant: None,
    };
    let next = fresh.after_move(Piece::Queen, sq("a1"), sq("a2"));
    assert_eq!(
        next.moved,
        CastlingTracker {
            white_king: false,
            white_rook_a: true,
            white_rook_h: false,
            black_king: false,
            black_rook_a: false,
            black_rook_h: false,
        }
    );
    assert_eq!(next.turn, Color::Black);
    assert_eq!(next.en_passant, None);
    let next = next.after_move(Piece::Queen, sq("b7"), sq("h1"));
    assert!(next.moved.white_rook_h);
    assert!(!next.moved.white_king);
    assert!(!next.may_castle(Color::White, true));
    assert!(!next.may_castle(Color::White, false));
    assert_eq!(next.turn, Color::White);
}

#[test]
fn capture_in_passing_may_not_expose_the_king() {
    let mut pos = position_of(
        &[
            ("a5", Piece::King, Color::White),
            ("e5", Piece::Pawn, Color::White),
            ("d5", Piece::Pawn, Color::Black),
            ("h5", Piece::Rook, Color::Black),
            ("h8", Piece::King, Color::Black),
        ],
        Color::White,
    );
    pos.en_passant = Some(sq("d6"));
    assert!(pos.is_sound());
    assert!(pos.is_pseudo_legal(sq("e5"), sq("d6")));
    assert!(!pos.is_legal(sq("e5"), sq("d6")));
    assert_eq!(names(&pos.legal_moves(sq("e5"))), vec!["e6"]);
    let after = pos.board_after(Piece::Queen, sq("e5"), sq("d6"));
    assert_eq!(after.occupied(), vec![sq("a5"), sq("h5"), sq("d6"), sq("h8")]);
    assert!(is_in_check(&after, Color::White));

    pos.board.set(sq("h5"), None);
    assert!(pos.is_legal(sq("e5"), sq("d6")));
    let mut game = Game::from_position(pos, Piece::Queen).unwrap();
    assert_eq!(game.move_piece(sq("e5"), sq("d6")), Ok(GameState::InProgress));
    assert_eq!(game.get_piece(sq("d5")), None);
    assert_eq!(game.get_piece(sq("d6")), Some((Piece::Pawn, Color::White)));
}

#[test]
fn king_keeps_out_of_attack() {
    let pos = position_of(
        &[
            ("e1", Piece::King, Color::White),
            ("d2", Piece::Rook, Color::Black),
            ("f2", Piece::Bishop, Color::Black),
            ("h3", Piece::Knight, Color::Black),
            ("e8", Piece::King, Color::Black),
        ],
        Color::White,
    );
    assert_eq!(names(&pos.pseudo_legal_moves(sq("e1"))), vec!["d1", "f1", "d2", "e2", "f2"]);
    assert_eq!(names(&pos.legal_moves(sq("e1"))), vec!["f1", "d2"]);
    assert_eq!(pos.status(), GameState::Check);
    let guarded = position_of(
        &[
            ("e1", Piece::King, Color::White),
            ("d2", Piece::Rook, Color::Black),
            ("e3", Piece::Pawn, Color::Black),
            ("f2", Piece::Bishop, Color::Black),
            ("g3", Piece::Knight, Color::Black),
            ("e8", Piece::King, Color::Black),
        ],
        Color::White,
    );
    assert_eq!(
        names(&guarded.pseudo_legal_moves(sq("e1"))),
        vec!["d1", "f1", "d2", "e2", "f2"]
    );
    assert_eq!(guarded.legal_moves(sq("e1")), vec![]);
    assert!(!guarded.has_legal_move());
    assert_eq!(guarded.status(), GameState::Checkmate);
}

#[test]
fn pawns_push_and_capture() {
    let pos = position_of(
        &[
            ("e1", Piece::King, Color::White),
            ("e8", Piece::King, Color::Black),
            ("a2", Piece::Pawn, Color::White),
            ("a3", Piece::Knight, Color::Black),
            ("c2", Piece::Pawn, Color::White),
            ("c4", Piece::Knight, Color::Black),
            ("b3", Piece::Pawn, Color::White),
            ("g3", Piece::Pawn, Color::White),
            ("h7", Piece::Pawn, Color::Black),
            ("g6", Piece::Pawn, Color::White),
            ("h6", Piece::Pawn, Color::White),
        ],
        Color::White,
    );
    assert_eq!(pos.pseudo_legal_moves(sq("a2")), vec![]);
    assert_eq!(names(&pos.pseudo_legal_moves(sq("c2"))), vec!["c3"]);
    assert_eq!(names(&pos.pseudo_legal_moves(sq("b3"))), vec!["b4", "c4"]);
    assert_eq!(names(&pos.pseudo_legal_moves(sq("g3"))), vec!["g4"]);
    assert_eq!(names(&pos.pseudo_legal_moves(sq("h7"))), vec!["g6"]);
    assert_eq!(names(&pos.pseudo_legal_moves(sq("g6"))), vec!["g7", "h7"]);
    assert_eq!(pos.pseudo_legal_moves(sq("d4")), vec![]);
}

#[test]
fn game_from_a_position_after_a_double_step() {
    let mut pos = position_of(
        &[
            ("e1", Piece::King, Color::White),
            ("e8", Piece::King, Color::Black),
            ("c4", Piece::Pawn, Color::White),
            ("d4", Piece::Pawn, Color::Black),
        ],
        Color::Black,
    );
    pos.en_passant = Some(sq("c3"));
    let mut game = Game::from_position(pos, Piece::Rook).unwrap();
    assert_eq!(game.promotion(), Piece::Rook);
    assert_eq!(game.turn(), Color::Black);
    assert_eq!(game.possible_moves(sq("d4")), Some(vec![sq("c3"), sq("d3")]));
    assert_eq!(game.move_piece(sq("d4"), sq("c3")), Ok(GameState::InProgress));
    assert_eq!(game.board().occupied(), vec![sq("e1"), sq("c3"), sq("e8")]);
    let mut wrong_rank = pos;
    wrong_rank.en_passant = Some(sq("c5"));
    assert!(Game::from_position(wrong_rank, Piece::Rook).is_none());
    let mut wrong_side = pos;
    wrong_side.turn = Color::White;
    assert!(Game::from_position(wrong_side, Piece::Rook).is_none());
}

#[test]
fn piece_moves_do_not_wait_for_the_turn() {
    let pieces = [
        ("e1", Piece::King, Color::White),
        ("a1", Piece::Rook, Color::White),
        ("h1", Piece::Rook, Color::White),
        ("e8", Piece::King, Color::Black),
        ("a8", Piece::Rook, Color::Black),
    ];
    let waiting = Position {
        board: board_of(&pieces),
        turn: Color::Black,
        moved: CastlingTracker::new(),
        en_passant: None,
    };
    let game = Game::from_position(waiting, Piece::Queen).unwrap();
    let expected: Vec<String> =
        ["c1", "d1", "f1", "g1", "d2", "e2", "f2"].iter().map(|s| s.to_string()).collect();
    assert_eq!(Piece::King.get_moves(&game, (4, 0), Color::White), Some(expected));
    assert_eq!(game.get_possible_moves("e1".to_owned()), None);
    assert_eq!(game.possible_moves(sq("e1")), None);
    let black: Vec<String> =
        ["d7", "e7", "f7", "c8", "d8", "f8"].iter().map(|s| s.to_string()).collect();
    assert_eq!(Piece::King.get_moves(&game, (4, 7), Color::Black), Some(black.clone()));
    assert_eq!(game.get_possible_moves("e8".to_owned()), Some(black));
    let rook: Vec<String> = ["b1", "c1", "d1", "a2", "a3", "a4", "a5", "a6", "a7", "a8"]
        .iter()
        .map(|s| s.to_string())
        .collect();
    assert_eq!(Piece::Rook.get_moves(&game, (0, 0), Color::White), Some(rook));
    assert_eq!(Piece::Rook.get_moves(&game, (0, 0), Color::Black), None);
    assert_eq!(Piece::Queen.get_moves(&game, (0, 0), Color::White), None);
}
