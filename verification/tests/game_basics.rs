use chess_rules::game::Game;
use chess_rules::types::{Color, GameState, MoveError, Piece, Square};

fn mv(game: &mut Game, from: &str, to: &str) -> Result<GameState, MoveError> {
    game.make_move(from.to_owned(), to.to_owned())
}

// check test framework
#[test]
fn it_works() {
    assert_eq!(2 + 2, 4);
}

// check that game state is in progress after initialisation
#[test]
fn game_in_progress_after_init() {
    let game = Game::new();

    println!("{:?}", game);
    println!("{:?}", game.get_possible_moves("a1".to_owned()));

    assert_eq!(game.get_game_state(), GameState::InProgress);
}

#[test]
fn opening_position_is_standard() {
    let game = Game::new();
    let back = [
        Piece::Rook,
        Piece::Knight,
        Piece::Bishop,
        Piece::Queen,
        Piece::King,
        Piece::Bishop,
        Piece::Knight,
        Piece::Rook,
    ];
    for file in 0..8u8 {
        let kind = back[file as usize];
        assert_eq!(game.get_piece(Square { file, rank: 0 }), Some((kind, Color::White)));
        assert_eq!(game.get_piece(Square { file, rank: 1 }), Some((Piece::Pawn, Color::White)));
        for rank in 2..6u8 {
            assert_eq!(game.get_piece(Square { file, rank }), None);
        }
        assert_eq!(game.get_piece(Square { file, rank: 6 }), Some((Piece::Pawn, Color::Black)));
        assert_eq!(game.get_piece(Square { file, rank: 7 }), Some((kind, Color::Black)));
    }
    assert_eq!(game.get_game_state(), GameState::InProgress);
    assert_eq!(game.turn(), Color::White);
    assert_eq!(game.promotion(), Piece::Queen);
}

#[test]
fn fools_mate_is_checkmate() {
    let mut game = Game::new();
    assert_eq!(mv(&mut game, "f2", "f3"), Ok(GameState::InProgress));
    assert_eq!(mv(&mut game, "e7", "e5"), Ok(GameState::InProgress));
    assert_eq!(mv(&mut game, "g2", "g4"), Ok(GameState::InProgress));
    assert_eq!(mv(&mut game, "d8", "h4"), Ok(GameState::Checkmate));
    assert_eq!(game.get_game_state(), GameState::Checkmate);
    assert_eq!(game.turn(), Color::White);
    for file in 0..8u8 {
        for rank in 0..8u8 {
            let sq = Square { file, rank };
            match game.get_piece(sq) {
                Some((_, Color::White)) => {
                    assert_eq!(game.possible_moves(sq), Some(vec![]));
                }
                _ => assert_eq!(game.possible_moves(sq), None),
            }
        }
    }
    assert_eq!(mv(&mut game, "e2", "e4"), Err(MoveError::GameAlreadyOver));
    assert_eq!(mv(&mut game, "zz", "e4"), Err(MoveError::GameAlreadyOver));
    assert_eq!(game.get_game_state(), GameState::Checkmate);
}
