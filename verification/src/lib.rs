//! A chess rules engine: the board, the movement of each piece, attack
//! detection, legal-move filtering and the state machine of a game.
//!
//! Every executable function carries a contract over the mathematical model
//! in [`rules`], which states the rules of chess as predicates on a grid of
//! sixty-four optional pieces.

pub mod types;
pub mod rules;
pub mod board;
pub mod squares;
pub mod attack;
pub mod position;
pub mod notation;
pub mod diagram;
pub mod game;
pub mod laws;
pub mod soundness;
