use vstd::prelude::*;

use crate::choice::Choice;
use crate::errors::ErrorCode;
use crate::identity::Identity;
use crate::owner::BoardCellOwner;
use crate::phase::Phase;
use crate::piece::Piece;

verus! {

pub const WIDTH: u8 = 7;

pub const HEIGHT: u8 = 6;

pub const CELLS: usize = 42;

/// Marks a flag position that is not on the board.
pub const NOT_SET: u8 = 255;

/// Allocates match identifiers.
#[derive(Clone, Copy, Debug, PartialEq, Eq)]
pub struct Registry {
    pub next_game_id: u32,
}

impl Registry {
    /// Hands out the next identifier; refuses to wrap around.
    pub fn allocate_id(&mut self) -> (r: Result<u32, ErrorCode>)
        ensures
            old(self).next_game_id == u32::MAX ==> r == Err::<u32, ErrorCode>(ErrorCode::Overflow)
                && final(self).next_game_id == u32::MAX,
            old(self).next_game_id < u32::MAX ==> r == Ok::<u32, ErrorCode>(old(self).next_game_id)
                && final(self).next_game_id == old(self).next_game_id + 1,
    {
        match self.next_game_id.checked_add(1) {
            Some(n) => {
                let id = self.next_game_id;
                self.next_game_id = n;
                Ok(id)
            },
            None => Err(ErrorCode::Overflow),
        }
    }
}

/// The record of one match.
#[derive(Clone, Debug, PartialEq, Eq)]
pub struct Game {
    pub id: u32,
    pub player0: Identity,
    /// Absent until somebody joins.
    pub player1: Option<Identity>,
    pub winner: Option<Identity>,
    pub phase: Phase,
    pub is_player1_turn: bool,
    pub board_cells_owner: Vec<BoardCellOwner>,
    pub board_pieces: Vec<Piece>,
    pub live_player0: u16,
    pub live_player1: u16,
    pub flag_pos0: u8,
    pub flag_pos1: u8,
    pub tie_pending: bool,
    pub tie_from: u8,
    pub tie_to: u8,
    pub choice_made0: bool,
    pub choice_made1: bool,
    pub choice0: Choice,
    pub choice1: Choice,
}

/// The mathematical value of a match record.
pub struct GameView {
    pub id: u32,
    pub player0: Identity,
    pub player1: Option<Identity>,
    pub winner: Option<Identity>,
    pub phase: Phase,
    pub is_player1_turn: bool,
    pub board_cells_owner: Seq<BoardCellOwner>,
    pub board_pieces: Seq<Piece>,
    pub live_player0: u16,
    pub live_player1: u16,
    pub flag_pos0: u8,
    pub flag_pos1: u8,
    pub tie_pending: bool,
    pub tie_from: u8,
    pub tie_to: u8,
    pub choice_made0: bool,
    pub choice_made1: bool,
    pub choice0: Choice,
    pub choice1: Choice,
}

impl View for Game {
    type V = GameView;

    open spec fn view(&self) -> GameView {
        GameView {
            id: self.id,
            player0: self.player0,
            player1: self.player1,
            winner: self.winner,
            phase: self.phase,
            is_player1_turn: self.is_player1_turn,
            board_cells_owner: self.board_cells_owner@,
            board_pieces: self.board_pieces@,
            live_player0: self.live_player0,
            live_player1: self.live_player1,
            flag_pos0: self.flag_pos0,
            flag_pos1: self.flag_pos1,
            tie_pending: self.tie_pending,
            tie_from: self.tie_from,
            tie_to: self.tie_to,
            choice_made0: self.choice_made0,
            choice_made1: self.choice_made1,
            choice0: self.choice0,
            choice1: self.choice1,
        }
    }
}

/// Number of cells of `s` owned by `o`.
pub open spec fn count_owned(s: Seq<BoardCellOwner>, o: BoardCellOwner) -> nat
    decreases s.len(),
{
    if s.len() == 0 {
        0
    } else {
        count_owned(s.drop_last(), o) + if s.last() == o {
            1nat
        } else {
            0nat
        }
    }
}

pub proof fn lemma_count_le_len(s: Seq<BoardCellOwner>, o: BoardCellOwner)
    ensures
        count_owned(s, o) <= s.len(),
    decreases s.len(),
{
    if s.len() > 0 {
        lemma_count_le_len(s.drop_last(), o);
    }
}

/// Overwriting one cell changes a count by what left and what came.
pub proof fn lemma_count_update(
    s: Seq<BoardCellOwner>,
    i: int,
    v: BoardCellOwner,
    o: BoardCellOwner,
)
    requires
        0 <= i < s.len(),
    ensures
        count_owned(s.update(i, v), o) + (if s[i] == o {
            1int
        } else {
            0int
        }) == count_owned(s, o) + (if v == o {
            1int
        } else {
            0int
        }),
    decreases s.len(),
{
    let t = s.update(i, v);
    if i == s.len() - 1 {
        assert(t.drop_last() =~= s.drop_last());
    } else {
        assert(t.drop_last() =~= s.drop_last().update(i, v));
        lemma_count_update(s.drop_last(), i, v, o);
    }
}

/// Cell of side `o` that holds its flag.
pub open spec fn is_flag_of(
    owners: Seq<BoardCellOwner>,
    pieces: Seq<Piece>,
    o: BoardCellOwner,
    i: int,
) -> bool {
    owners[i] == o && pieces[i] == Piece::Flag
}

/// The cached flag position agrees with the board: the flag of `o` stands at
/// `pos` and nowhere else, or `pos` is `NOT_SET` and `o` has no flag.
pub open spec fn flag_consistent(
    owners: Seq<BoardCellOwner>,
    pieces: Seq<Piece>,
    o: BoardCellOwner,
    pos: u8,
) -> bool {
    (pos == NOT_SET || pos < CELLS) && forall|i: int|
        0 <= i < CELLS ==> (#[trigger] is_flag_of(owners, pieces, o, i) <==> i == pos as int)
}

/// The side to move.
pub open spec fn side_of_turn(is_player1_turn: bool) -> BoardCellOwner {
    if is_player1_turn {
        BoardCellOwner::P1
    } else {
        BoardCellOwner::P0
    }
}

/// Phases in which player 0 has put pieces on the board.
pub open spec fn p0_has_set(p: Phase) -> bool {
    p == Phase::LineupP0Set || p == Phase::Active || p == Phase::Finished || p
        == Phase::FlagP0Placed || p == Phase::FlagsPlaced
}

/// Phases in which player 1 has put pieces on the board.
pub open spec fn p1_has_set(p: Phase) -> bool {
    p == Phase::LineupP1Set || p == Phase::Active || p == Phase::Finished || p
        == Phase::FlagP1Placed || p == Phase::FlagsPlaced
}

/// Board, counts and flag cache agree.
pub open spec fn board_wf(v: GameView) -> bool {
    &&& v.board_cells_owner.len() == CELLS
    &&& v.board_pieces.len() == CELLS
    &&& forall|i: int|
        0 <= i < CELLS ==> (#[trigger] v.board_cells_owner[i] == BoardCellOwner::Nobody
            <==> v.board_pieces[i] == Piece::Empty)
    &&& v.live_player0 == count_owned(v.board_cells_owner, BoardCellOwner::P0)
    &&& v.live_player1 == count_owned(v.board_cells_owner, BoardCellOwner::P1)
    &&& flag_consistent(v.board_cells_owner, v.board_pieces, BoardCellOwner::P0, v.flag_pos0)
    &&& flag_consistent(v.board_cells_owner, v.board_pieces, BoardCellOwner::P1, v.flag_pos1)
}

impl GameView {
    /// Well-formedness of a match record.
    pub open spec fn wf(self) -> bool {
        &&& board_wf(self)
        &&& (self.phase != Phase::Created && self.phase != Phase::LineupP0Set)
            ==> self.player1.is_some()
        &&& !p0_has_set(self.phase) ==> self.live_player0 == 0 && self.flag_pos0 == NOT_SET
        &&& !p1_has_set(self.phase) ==> self.live_player1 == 0 && self.flag_pos1 == NOT_SET
        &&& self.tie_pending ==> {
            &&& self.phase == Phase::Active
            &&& self.tie_from < CELLS
            &&& self.tie_to < CELLS
            &&& self.board_cells_owner[self.tie_from as int] == side_of_turn(self.is_player1_turn)
            &&& self.board_cells_owner[self.tie_to as int] == side_of_turn(!self.is_player1_turn)
            &&& self.board_pieces[self.tie_from as int] == self.board_pieces[self.tie_to as int]
            &&& self.board_pieces[self.tie_from as int] != Piece::Flag
        }
    }
}

impl Game {
    pub open spec fn wf(&self) -> bool {
        self@.wf()
    }

    pub fn phase(&self) -> (r: Phase)
        ensures
            r == self.phase,
    {
        self.phase
    }

    /// Re-derives every invariant from the record's contents; a record read
    /// back from storage is vetted with this before any operation.
    pub fn is_well_formed(&self) -> (r: bool)
        ensures
            r == self.wf(),
    {
        let ghost v = self@;
        if self.board_cells_owner.len() != CELLS || self.board_pieces.len() != CELLS {
            return false;
        }
        if !(self.flag_pos0 == NOT_SET || (self.flag_pos0 as usize) < CELLS) {
            return false;
        }
        if !(self.flag_pos1 == NOT_SET || (self.flag_pos1 as usize) < CELLS) {
            return false;
        }
        let mut c0: u16 = 0;
        let mut c1: u16 = 0;
        let mut i: usize = 0;
        while i < CELLS
            invariant
                v == self@,
                self.board_cells_owner@.len() == CELLS,
                self.board_pieces@.len() == CELLS,
                i <= CELLS,
                c0 <= i,
                c1 <= i,
                c0 == count_owned(v.board_cells_owner.take(i as int), BoardCellOwner::P0),
                c1 == count_owned(v.board_cells_owner.take(i as int), BoardCellOwner::P1),
                forall|j: int|
                    0 <= j < i ==> (#[trigger] v.board_cells_owner[j] == BoardCellOwner::Nobody
                        <==> v.board_pieces[j] == Piece::Empty),
                forall|j: int|
                    0 <= j < i ==> (#[trigger] is_flag_of(
                        v.board_cells_owner,
                        v.board_pieces,
                        BoardCellOwner::P0,
                        j,
                    ) <==> j == v.flag_pos0 as int),
                forall|j: int|
                    0 <= j < i ==> (#[trigger] is_flag_of(
                        v.board_cells_owner,
                        v.board_pieces,
                        BoardCellOwner::P1,
                        j,
                    ) <==> j == v.flag_pos1 as int),
            decreases CELLS - i,
        {
            let o = self.board_cells_owner[i];
            let p = self.board_pieces[i];
            if (o == BoardCellOwner::Nobody) != (p == Piece::Empty) {
                proof {
                    assert(!(v.board_cells_owner[i as int] == BoardCellOwner::Nobody
                        <==> v.board_pieces[i as int] == Piece::Empty));
                }
                return false;
            }
            if (o == BoardCellOwner::P0 && p == Piece::Flag) != (i == self.flag_pos0 as usize) {
                proof {
                    assert(!(is_flag_of(v.board_cells_owner, v.board_pieces, BoardCellOwner::P0, i as int)
                        <==> i as int == v.flag_pos0 as int));
                }
                return false;
            }
            if (o == BoardCellOwner::P1 && p == Piece::Flag) != (i == self.flag_pos1 as usize) {
                proof {
                    assert(!(is_flag_of(v.board_cells_owner, v.board_pieces, BoardCellOwner::P1, i as int)
                        <==> i as int == v.flag_pos1 as int));
                }
                return false;
            }
            if o == BoardCellOwner::P0 {
                c0 = c0 + 1;
            } else if o == BoardCellOwner::P1 {
                c1 = c1 + 1;
            }
            proof {
                assert(v.board_cells_owner.take(i + 1).drop_last() =~= v.board_cells_owner.take(i as int));
            }
            i = i + 1;
        }
        proof {
            assert(v.board_cells_owner.take(CELLS as int) =~= v.board_cells_owner);
        }
        if c0 != self.live_player0 || c1 != self.live_player1 {
            return false;
        }
        let ph = self.phase;
        if ph != Phase::Created && ph != Phase::LineupP0Set && self.player1.is_none() {
            return false;
        }
        let p0_set = ph == Phase::LineupP0Set || ph == Phase::Active || ph == Phase::Finished
            || ph == Phase::FlagP0Placed || ph == Phase::FlagsPlaced;
        let p1_set = ph == Phase::LineupP1Set || ph == Phase::Active || ph == Phase::Finished
            || ph == Phase::FlagP1Placed || ph == Phase::FlagsPlaced;
        if !p0_set && !(self.live_player0 == 0 && self.flag_pos0 == NOT_SET) {
            return false;
        }
        if !p1_set && !(self.live_player1 == 0 && self.flag_pos1 == NOT_SET) {
            return false;
        }
        if self.tie_pending {
            if ph != Phase::Active || self.tie_from as usize >= CELLS || self.tie_to as usize
                >= CELLS {
                return false;
            }
            let (mover, facing) = if self.is_player1_turn {
                (BoardCellOwner::P1, BoardCellOwner::P0)
            } else {
                (BoardCellOwner::P0, BoardCellOwner::P1)
            };
            let f = self.tie_from as usize;
            let t = self.tie_to as usize;
            if self.board_cells_owner[f] != mover || self.board_cells_owner[t] != facing
                || self.board_pieces[f] != self.board_pieces[t] || self.board_pieces[f]
                == Piece::Flag {
                return false;
            }
        }
        true
    }
}

/// An empty board of `CELLS` cells.
fn empty_board() -> (r: (Vec<BoardCellOwner>, Vec<Piece>))
    ensures
        r.0@ == Seq::new(CELLS as nat, |i: int| BoardCellOwner::Nobody),
        r.1@ == Seq::new(CELLS as nat, |i: int| Piece::Empty),
{
    let mut owners: Vec<BoardCellOwner> = Vec::new();
    let mut pieces: Vec<Piece> = Vec::new();
    let mut i: usize = 0;
    while i < CELLS
        invariant
            i <= CELLS,
            owners@ == Seq::new(i as nat, |k: int| BoardCellOwner::Nobody),
            pieces@ == Seq::new(i as nat, |k: int| Piece::Empty),
        decreases CELLS - i,
    {
        owners.push(BoardCellOwner::Nobody);
        pieces.push(Piece::Empty);
        i = i + 1;
        assert(owners@ =~= Seq::new(i as nat, |k: int| BoardCellOwner::Nobody));
        assert(pieces@ =~= Seq::new(i as nat, |k: int| Piece::Empty));
    }
    (owners, pieces)
}

/// Empties the board, the live counts, the flag positions and the tie state.
pub fn clear_board(g: &mut Game)
    ensures
        final(g).board_cells_owner@ == Seq::new(CELLS as nat, |i: int| BoardCellOwner::Nobody),
        final(g).board_pieces@ == Seq::new(CELLS as nat, |i: int| Piece::Empty),
        final(g).live_player0 == 0,
        final(g).live_player1 == 0,
        final(g).flag_pos0 == NOT_SET,
        final(g).flag_pos1 == NOT_SET,
        !final(g).tie_pending,
        final(g).tie_from == 0,
        final(g).tie_to == 0,
        !final(g).choice_made0,
        !final(g).choice_made1,
        final(g).choice0 == Choice::Unset,
        final(g).choice1 == Choice::Unset,
        final(g).id == old(g).id,
        final(g).player0 == old(g).player0,
        final(g).player1 == old(g).player1,
        final(g).winner == old(g).winner,
        final(g).phase == old(g).phase,
        final(g).is_player1_turn == old(g).is_player1_turn,
{
    let (owners, pieces) = empty_board();
    g.board_cells_owner = owners;
    g.board_pieces = pieces;
    g.live_player0 = 0;
    g.live_player1 = 0;
    g.flag_pos0 = NOT_SET;
    g.flag_pos1 = NOT_SET;
    g.tie_pending = false;
    g.tie_from = 0;
    g.tie_to = 0;
    g.choice_made0 = false;
    g.choice_made1 = false;
    g.choice0 = Choice::Unset;
    g.choice1 = Choice::Unset;
}

/// The row of a cell.
pub open spec fn row_of(idx: u8) -> int {
    idx as int / WIDTH as int
}

/// The column of a cell.
pub open spec fn col_of(idx: u8) -> int {
    idx as int % WIDTH as int
}

/// Cells differ by exactly one step along a row or a column.
pub open spec fn adjacent(a: u8, b: u8) -> bool {
    let dx = col_of(a) - col_of(b);
    let dy = row_of(a) - row_of(b);
    (dx == 0 && (dy == 1 || dy == -1)) || (dy == 0 && (dx == 1 || dx == -1))
}

/// The bottom two rows belong to player 0.
pub open spec fn spec_is_p0_spawn(idx: u8) -> bool {
    row_of(idx) >= HEIGHT - 2
}

/// The top two rows belong to player 1.
pub open spec fn spec_is_p1_spawn(idx: u8) -> bool {
    row_of(idx) <= 1
}

/// `Err(BadCell)` for an index off the board.
pub fn validate_cell(idx: u8) -> (r: Result<(), ErrorCode>)
    ensures
        r is Ok <==> idx < CELLS,
        r is Err ==> r == Err::<(), ErrorCode>(ErrorCode::BadCell),
{
    if (idx as usize) < CELLS {
        Ok(())
    } else {
        Err(ErrorCode::BadCell)
    }
}

pub fn cell_y(idx: u8) -> (r: u8)
    ensures
        r == row_of(idx),
{
    idx / WIDTH
}

pub fn cell_x(idx: u8) -> (r: u8)
    ensures
        r == col_of(idx),
{
    idx % WIDTH
}

pub fn is_p1_spawn(idx: u8) -> (r: bool)
    ensures
        r == spec_is_p1_spawn(idx),
{
    cell_y(idx) <= 1
}

pub fn is_p0_spawn(idx: u8) -> (r: bool)
    ensures
        r == spec_is_p0_spawn(idx),
{
    cell_y(idx) >= 4
}

/// Whether two cells are one orthogonal step apart.
pub fn adjacent_orth(from_idx: u8, to_idx: u8) -> (r: bool)
    ensures
        r == adjacent(from_idx, to_idx),
{
    let fy = cell_y(from_idx);
    let fx = cell_x(from_idx);
    let ty = cell_y(to_idx);
    let tx = cell_x(to_idx);
    let dy: u8 = if fy > ty {
        fy - ty
    } else {
        ty - fy
    };
    let dx: u8 = if fx > tx {
        fx - tx
    } else {
        tx - fx
    };
    (dx as u16 + dy as u16) == 1
}

} // verus!
