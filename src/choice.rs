use vstd::prelude::*;

verus! {

/// A secret weapon choice used to break a tie.
#[derive(Clone, Copy, Debug, PartialEq, Eq, Structural)]
pub enum Choice {
    Unset,
    Rock,
    Paper,
    Scissors,
}

/// The wire code of a choice.
pub open spec fn choice_code(c: Choice) -> u8 {
    match c {
        Choice::Unset => 0,
        Choice::Rock => 1,
        Choice::Paper => 2,
        Choice::Scissors => 3,
    }
}

/// Permissive decode: any unknown code is no choice.
pub open spec fn choice_of_code(v: u8) -> Choice {
    if v == 1 {
        Choice::Rock
    } else if v == 2 {
        Choice::Paper
    } else if v == 3 {
        Choice::Scissors
    } else {
        Choice::Unset
    }
}

/// Rock beats Scissors, Scissors beats Paper, Paper beats Rock.
pub open spec fn choice_beats(a: Choice, b: Choice) -> bool {
    (a == Choice::Rock && b == Choice::Scissors) || (a == Choice::Scissors && b == Choice::Paper)
        || (a == Choice::Paper && b == Choice::Rock)
}

/// Tie-break outcome: the first argument is player 0's choice, and 1 means
/// that it dominates player 1's.
pub open spec fn spec_rps_choice(a: Choice, b: Choice) -> i8 {
    if a == b {
        0
    } else if choice_beats(a, b) {
        1
    } else {
        -1i8
    }
}

/// The three real weapons.
pub open spec fn is_weapon(c: Choice) -> bool {
    c == Choice::Rock || c == Choice::Paper || c == Choice::Scissors
}

impl Choice {
    pub fn code(&self) -> (r: u8)
        ensures
            r == choice_code(*self),
    {
        match self {
            Choice::Unset => 0,
            Choice::Rock => 1,
            Choice::Paper => 2,
            Choice::Scissors => 3,
        }
    }
}

impl From<u8> for Choice {
    fn from(v: u8) -> (r: Choice) {
        match v {
            1 => Choice::Rock,
            2 => Choice::Paper,
            3 => Choice::Scissors,
            _ => Choice::Unset,
        }
    }
}

impl vstd::std_specs::convert::FromSpecImpl<u8> for Choice {
    open spec fn obeys_from_spec() -> bool {
        true
    }

    open spec fn from_spec(v: u8) -> Choice {
        choice_of_code(v)
    }
}

/// Resolves the tie-break: player 0's choice first, 1 when it dominates.
pub fn rps_choice(a: Choice, b: Choice) -> (r: i8)
    ensures
        r == spec_rps_choice(a, b),
{
    if a == b {
        return 0;
    }
    match (a, b) {
        (Choice::Rock, Choice::Scissors) => 1,
        (Choice::Scissors, Choice::Paper) => 1,
        (Choice::Paper, Choice::Rock) => 1,
        _ => -1,
    }
}

} // verus!
