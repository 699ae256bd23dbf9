use vstd::prelude::*;

verus! {

/// Lifecycle of a match. The lineup ladder runs
/// `Created -> Joined -> LineupP0Set | LineupP1Set -> Active -> Finished`;
/// the single-flag placement ladder is a separate variant that runs
/// `Joined -> FlagP0Placed | FlagP1Placed -> FlagsPlaced`.
#[derive(Clone, Copy, Debug, PartialEq, Eq, Structural)]
pub enum Phase {
    Created,
    Joined,
    LineupP0Set,
    LineupP1Set,
    Active,
    Finished,
    FlagP0Placed,
    FlagP1Placed,
    FlagsPlaced,
}

/// The wire code of a phase.
pub open spec fn phase_code(p: Phase) -> u8 {
    match p {
        Phase::Created => 0,
        Phase::Joined => 1,
        Phase::LineupP0Set => 2,
        Phase::LineupP1Set => 3,
        Phase::Active => 4,
        Phase::Finished => 5,
        Phase::FlagP0Placed => 6,
        Phase::FlagP1Placed => 7,
        Phase::FlagsPlaced => 8,
    }
}

/// Permissive decode: any unknown code is `Created`.
pub open spec fn phase_of_code(v: u8) -> Phase {
    if v == 1 {
        Phase::Joined
    } else if v == 2 {
        Phase::LineupP0Set
    } else if v == 3 {
        Phase::LineupP1Set
    } else if v == 4 {
        Phase::Active
    } else if v == 5 {
        Phase::Finished
    } else if v == 6 {
        Phase::FlagP0Placed
    } else if v == 7 {
        Phase::FlagP1Placed
    } else if v == 8 {
        Phase::FlagsPlaced
    } else {
        Phase::Created
    }
}

impl Phase {
    pub fn code(&self) -> (r: u8)
        ensures
            r == phase_code(*self),
    {
        match self {
            Phase::Created => 0,
            Phase::Joined => 1,
            Phase::LineupP0Set => 2,
            Phase::LineupP1Set => 3,
            Phase::Active => 4,
            Phase::Finished => 5,
            Phase::FlagP0Placed => 6,
            Phase::FlagP1Placed => 7,
            Phase::FlagsPlaced => 8,
        }
    }
}

impl From<u8> for Phase {
    fn from(v: u8) -> (r: Phase) {
        match v {
            1 => Phase::Joined,
            2 => Phase::LineupP0Set,
            3 => Phase::LineupP1Set,
            4 => Phase::Active,
            5 => Phase::Finished,
            6 => Phase::FlagP0Placed,
            7 => Phase::FlagP1Placed,
            8 => Phase::FlagsPlaced,
            _ => Phase::Created,
        }
    }
}

impl vstd::std_specs::convert::FromSpecImpl<u8> for Phase {
    open spec fn obeys_from_spec() -> bool {
        true
    }

    open spec fn from_spec(v: u8) -> Phase {
        phase_of_code(v)
    }
}

} // verus!
