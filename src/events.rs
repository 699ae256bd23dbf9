use vstd::prelude::*;

use crate::choice::Choice;
use crate::identity::Identity;
use crate::piece::Piece;

verus! {

#[derive(Clone, Copy, Debug, PartialEq, Eq, Structural)]
pub struct GameCreated {
    pub creator: Identity,
}

#[derive(Clone, Copy, Debug, PartialEq, Eq, Structural)]
pub struct GameJoined {
    pub participant: Identity,
}

#[derive(Clone, Copy, Debug, PartialEq, Eq, Structural)]
pub struct FlagPlaced {
    pub id: u32,
    pub player: Identity,
    pub idx: u8,
}

#[derive(Clone, Copy, Debug, PartialEq, Eq, Structural)]
pub struct LineupSubmitted {
    pub player: Identity,
    pub count: u8,
}

#[derive(Clone, Copy, Debug, PartialEq, Eq, Structural)]
pub struct GameStarted {
    pub p0: Identity,
    pub p1: Identity,
}

#[derive(Clone, Copy, Debug, PartialEq, Eq, Structural)]
pub struct MoveMade {
    pub player: Identity,
    pub from_idx: u8,
    pub to_idx: u8,
}

#[derive(Clone, Copy, Debug, PartialEq, Eq, Structural)]
pub struct Battle {
    pub from_idx: u8,
    pub to_idx: u8,
    pub attacker: Piece,
    pub defender: Piece,
    pub outcome: i8,
}

#[derive(Clone, Copy, Debug, PartialEq, Eq, Structural)]
pub struct TieStarted {
    pub from_idx: u8,
    pub to_idx: u8,
}

/// Why a match ended.
#[derive(Clone, Copy, Debug, PartialEq, Eq, Structural)]
pub enum EndReason {
    CapturedFlag,
    NoPiecesLeft,
}

impl EndReason {
    /// The reason as text.
    pub fn as_str(&self) -> (r: &'static str)
        ensures
            *self == EndReason::CapturedFlag ==> r@ == "captured_flag"@,
            *self == EndReason::NoPiecesLeft ==> r@ == "no_pieces_left"@,
    {
        proof {
            reveal_strlit("captured_flag");
            reveal_strlit("no_pieces_left");
        }
        match self {
            EndReason::CapturedFlag => "captured_flag",
            EndReason::NoPiecesLeft => "no_pieces_left",
        }
    }
}

#[derive(Clone, Copy, Debug, PartialEq, Eq, Structural)]
pub struct GameOver {
    pub winner: Identity,
    pub reason: EndReason,
}

#[derive(Clone, Copy, Debug, PartialEq, Eq, Structural)]
pub struct TieChoice {
    pub id: u32,
    pub player: Identity,
    pub choice: Choice,
}

#[derive(Clone, Copy, Debug, PartialEq, Eq, Structural)]
pub struct TieResolved {
    pub id: u32,
    pub outcome: i8,
    pub p0_choice: Choice,
    pub p1_choice: Choice,
}

/// A semantic event produced by a successful operation, for observers.
#[derive(Clone, Copy, Debug, PartialEq, Eq, Structural)]
pub enum Event {
    GameCreated(GameCreated),
    GameJoined(GameJoined),
    FlagPlaced(FlagPlaced),
    LineupSubmitted(LineupSubmitted),
    GameStarted(GameStarted),
    MoveMade(MoveMade),
    Battle(Battle),
    TieStarted(TieStarted),
    GameOver(GameOver),
    TieChoice(TieChoice),
    TieResolved(TieResolved),
}

} // verus!
