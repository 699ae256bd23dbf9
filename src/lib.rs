//! Rules engine for a two-player capture game on a 7x6 board: hidden
//! lineups of rock, paper and scissors pieces plus one flag per side,
//! orthogonal single-step moves, rock-paper-scissors combat and a secret
//! weapon exchange to break ties.

pub mod choice;
pub mod choose_weapon;
pub mod engine;
pub mod errors;
pub mod events;
pub mod game;
pub mod identity;
pub mod laws;
pub mod lineup;
pub mod move_piece;
pub mod owner;
pub mod phase;
pub mod piece;
pub mod rules;
pub mod setup;

pub use choice::{rps_choice, Choice};
pub use choose_weapon::choose_weapon;
pub use engine::end_turn_or_win;
pub use errors::ErrorCode;
pub use events::{
    Battle, EndReason, Event, FlagPlaced, GameCreated, GameJoined, GameOver, GameStarted,
    LineupSubmitted, MoveMade, TieChoice, TieResolved, TieStarted,
};
pub use game::{
    clear_board, is_p0_spawn, is_p1_spawn, validate_cell, Game, Registry, CELLS, HEIGHT, NOT_SET,
    WIDTH,
};
pub use identity::Identity;
pub use lineup::{submit_lineup, submit_lineup_xy};
pub use move_piece::{move_piece, move_piece_xy};
pub use owner::BoardCellOwner;
pub use phase::Phase;
pub use piece::{rps, Piece};
pub use setup::{create_game, join_game, place_flag, place_flag_xy};
