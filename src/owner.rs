use vstd::prelude::*;

verus! {

/// Which side occupies a board cell.
#[derive(Clone, Copy, Debug, PartialEq, Eq, Structural)]
pub enum BoardCellOwner {
    Nobody,
    P0,
    P1,
}

/// The wire code of an owner.
pub open spec fn owner_code(o: BoardCellOwner) -> u8 {
    match o {
        BoardCellOwner::Nobody => 0,
        BoardCellOwner::P0 => 1,
        BoardCellOwner::P1 => 2,
    }
}

/// Permissive decode: any unknown code is no owner.
pub open spec fn owner_of_code(v: u8) -> BoardCellOwner {
    if v == 1 {
        BoardCellOwner::P0
    } else if v == 2 {
        BoardCellOwner::P1
    } else {
        BoardCellOwner::Nobody
    }
}

impl BoardCellOwner {
    pub fn code(&self) -> (r: u8)
        ensures
            r == owner_code(*self),
    {
        match self {
            BoardCellOwner::Nobody => 0,
            BoardCellOwner::P0 => 1,
            BoardCellOwner::P1 => 2,
        }
    }
}

impl From<u8> for BoardCellOwner {
    fn from(v: u8) -> (r: BoardCellOwner) {
        match v {
            1 => BoardCellOwner::P0,
            2 => BoardCellOwner::P1,
            _ => BoardCellOwner::Nobody,
        }
    }
}

impl vstd::std_specs::convert::FromSpecImpl<u8> for BoardCellOwner {
    open spec fn obeys_from_spec() -> bool {
        true
    }

    open spec fn from_spec(v: u8) -> BoardCellOwner {
        owner_of_code(v)
    }
}

} // verus!
