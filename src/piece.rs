use vstd::prelude::*;

verus! {

/// What occupies a board cell.
#[derive(Clone, Copy, Debug, PartialEq, Eq, Structural)]
pub enum Piece {
    Empty,
    Rock,
    Paper,
    Scissors,
    Flag,
}

/// The wire code of a piece.
pub open spec fn piece_code(p: Piece) -> u8 {
    match p {
        Piece::Empty => 0,
        Piece::Rock => 1,
        Piece::Paper => 2,
        Piece::Scissors => 3,
        Piece::Flag => 4,
    }
}

/// Permissive decode: any unknown code is an empty cell.
pub open spec fn piece_of_code(v: u8) -> Piece {
    if v == 1 {
        Piece::Rock
    } else if v == 2 {
        Piece::Paper
    } else if v == 3 {
        Piece::Scissors
    } else if v == 4 {
        Piece::Flag
    } else {
        Piece::Empty
    }
}

/// Rock beats Scissors, Scissors beats Paper, Paper beats Rock.
pub open spec fn piece_beats(a: Piece, b: Piece) -> bool {
    (a == Piece::Rock && b == Piece::Scissors) || (a == Piece::Scissors && b == Piece::Paper)
        || (a == Piece::Paper && b == Piece::Rock)
}

/// Combat outcome seen from the attacker: 0 on equal pieces, 1 when the
/// attacker dominates, -1 otherwise.
pub open spec fn spec_rps(attacker: Piece, defender: Piece) -> i8 {
    if attacker == defender {
        0
    } else if piece_beats(attacker, defender) {
        1
    } else {
        -1i8
    }
}

/// The three combat pieces.
pub open spec fn is_fighter(p: Piece) -> bool {
    p == Piece::Rock || p == Piece::Paper || p == Piece::Scissors
}

impl Piece {
    pub fn code(&self) -> (r: u8)
        ensures
            r == piece_code(*self),
    {
        match self {
            Piece::Empty => 0,
            Piece::Rock => 1,
            Piece::Paper => 2,
            Piece::Scissors => 3,
            Piece::Flag => 4,
        }
    }
}

impl From<u8> for Piece {
    fn from(v: u8) -> (r: Piece) {
        match v {
            1 => Piece::Rock,
            2 => Piece::Paper,
            3 => Piece::Scissors,
            4 => Piece::Flag,
            _ => Piece::Empty,
        }
    }
}

impl vstd::std_specs::convert::FromSpecImpl<u8> for Piece {
    open spec fn obeys_from_spec() -> bool {
        true
    }

    open spec fn from_spec(v: u8) -> Piece {
        piece_of_code(v)
    }
}

/// Resolves combat between an attacking and a defending piece.
pub fn rps(attacker: Piece, defender: Piece) -> (r: i8)
    ensures
        r == spec_rps(attacker, defender),
{
    if attacker == defender {
        return 0;
    }
    match (attacker, defender) {
        (Piece::Rock, Piece::Scissors) => 1,
        (Piece::Scissors, Piece::Paper) => 1,
        (Piece::Paper, Piece::Rock) => 1,
        _ => -1,
    }
}

} // verus!
