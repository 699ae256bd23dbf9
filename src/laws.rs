use vstd::prelude::*;

use crate::choice::{is_weapon, spec_rps_choice, Choice};
use crate::choose_weapon::{lemma_choose_wf, spec_choose};
use crate::errors::ErrorCode;
use crate::game::{board_wf, count_owned, GameView};
use crate::identity::Identity;
use crate::lineup::{lemma_lineup_wf, spec_lineup};
use crate::move_piece::{lemma_move_wf, spec_move};
use crate::owner::BoardCellOwner;
use crate::phase::Phase;
use crate::piece::{is_fighter, spec_rps, Piece};
use crate::setup::{lemma_place_flag_wf, spec_join, spec_place_flag};

verus! {

/// Combat between two different fighting pieces is antisymmetric, and equal
/// pieces always tie.
pub proof fn rps_antisymmetric(a: Piece, b: Piece)
    ensures
        spec_rps(a, a) == 0,
        is_fighter(a) && is_fighter(b) && a != b ==> spec_rps(a, b) == -spec_rps(b, a),
        is_fighter(a) && is_fighter(b) && a != b ==> spec_rps(a, b) != 0,
{
}

/// The tie-break resolver is antisymmetric on two different weapons, and
/// equal choices always tie.
pub proof fn rps_choice_antisymmetric(a: Choice, b: Choice)
    ensures
        spec_rps_choice(a, a) == 0,
        is_weapon(a) && is_weapon(b) && a != b ==> spec_rps_choice(a, b) == -spec_rps_choice(b, a),
        is_weapon(a) && is_weapon(b) && a != b ==> spec_rps_choice(a, b) != 0,
{
}

/// After every successful operation each side's live count equals the
/// number of board cells it owns (the record stays well formed).
pub proof fn live_counts_match_board(
    v: GameView,
    me: Identity,
    a: u8,
    b: u8,
    positions: Seq<u8>,
    pieces: Seq<u8>,
)
    requires
        v.wf(),
    ensures
        spec_join(v, me) is Ok ==> counts_match(spec_join(v, me)->Ok_0.0),
        spec_lineup(v, me, positions, pieces) is Ok ==> counts_match(
            spec_lineup(v, me, positions, pieces)->Ok_0.0,
        ),
        spec_place_flag(v, me, a) is Ok ==> counts_match(spec_place_flag(v, me, a)->Ok_0.0),
        spec_move(v, me, a, b) is Ok ==> counts_match(spec_move(v, me, a, b)->Ok_0.0),
        spec_choose(v, me, a) is Ok ==> counts_match(spec_choose(v, me, a)->Ok_0.0),
{
    if spec_join(v, me) is Ok {
        assert(board_wf(spec_join(v, me)->Ok_0.0));
    }
    if spec_lineup(v, me, positions, pieces) is Ok {
        lemma_lineup_wf(v, me, positions, pieces);
    }
    if spec_place_flag(v, me, a) is Ok {
        lemma_place_flag_wf(v, me, a);
    }
    if spec_move(v, me, a, b) is Ok {
        lemma_move_wf(v, me, a, b);
    }
    if spec_choose(v, me, a) is Ok {
        lemma_choose_wf(v, me, a);
    }
}

/// Each side's live count is the number of cells it owns.
pub open spec fn counts_match(v: GameView) -> bool {
    &&& v.live_player0 == count_owned(v.board_cells_owner, BoardCellOwner::P0)
    &&& v.live_player1 == count_owned(v.board_cells_owner, BoardCellOwner::P1)
}

/// A move that resolves at once without ending the match passes the turn
/// to the other side.
pub proof fn move_passes_turn(v: GameView, me: Identity, from: u8, to: u8)
    requires
        v.wf(),
        spec_move(v, me, from, to) is Ok,
        !spec_move(v, me, from, to)->Ok_0.0.tie_pending,
        spec_move(v, me, from, to)->Ok_0.0.phase != Phase::Finished,
    ensures
        spec_move(v, me, from, to)->Ok_0.0.is_player1_turn == !v.is_player1_turn,
{
}

/// A move into a tie leaves the turn and the board as they were.
pub proof fn tie_keeps_turn_and_board(v: GameView, me: Identity, from: u8, to: u8)
    requires
        v.wf(),
        spec_move(v, me, from, to) is Ok,
        spec_move(v, me, from, to)->Ok_0.0.tie_pending,
    ensures
        spec_move(v, me, from, to)->Ok_0.0.is_player1_turn == v.is_player1_turn,
        spec_move(v, me, from, to)->Ok_0.0.board_cells_owner == v.board_cells_owner,
        spec_move(v, me, from, to)->Ok_0.0.board_pieces == v.board_pieces,
        spec_move(v, me, from, to)->Ok_0.0.tie_from == from,
        spec_move(v, me, from, to)->Ok_0.0.tie_to == to,
{
}

/// Once a tie is resolved without ending the match, the turn goes to the
/// side facing the one that made the tying move, whichever side chose last.
pub proof fn tie_resolution_passes_turn(v: GameView, me: Identity, code: u8)
    requires
        v.wf(),
        spec_choose(v, me, code) is Ok,
        !spec_choose(v, me, code)->Ok_0.0.tie_pending,
        spec_choose(v, me, code)->Ok_0.0.phase != Phase::Finished,
    ensures
        spec_choose(v, me, code)->Ok_0.0.is_player1_turn == !v.is_player1_turn,
{
}

/// While a tie is pending every move is rejected.
pub proof fn no_move_during_tie(v: GameView, me: Identity, from: u8, to: u8)
    requires
        v.tie_pending,
    ensures
        spec_move(v, me, from, to) is Err,
{
}

/// Without a pending tie every weapon choice is rejected.
pub proof fn no_choice_without_tie(v: GameView, me: Identity, code: u8)
    requires
        !v.tie_pending,
    ensures
        spec_choose(v, me, code) is Err,
{
}

/// Once a side's lineup is recorded, a second submission by that side is
/// rejected as already placed.
pub proof fn lineup_only_once(v: GameView, me: Identity, positions: Seq<u8>, pieces: Seq<u8>)
    requires
        me == v.player0 || v.player1 == Some(me),
    ensures
        me == v.player0 && (v.phase == Phase::LineupP0Set || v.phase == Phase::Active)
            ==> spec_lineup(v, me, positions, pieces) == Err::<
            (GameView, Seq<crate::events::Event>),
            ErrorCode,
        >(ErrorCode::Player0LineupAlreadyPlaced),
        me != v.player0 && (v.phase == Phase::LineupP1Set || v.phase == Phase::Active)
            ==> spec_lineup(v, me, positions, pieces) == Err::<
            (GameView, Seq<crate::events::Event>),
            ErrorCode,
        >(ErrorCode::Player1LineupAlreadyPlaced),
{
}

/// A finished match accepts no further operation.
pub proof fn finished_is_final(
    v: GameView,
    me: Identity,
    a: u8,
    b: u8,
    positions: Seq<u8>,
    pieces: Seq<u8>,
)
    requires
        v.phase == Phase::Finished,
    ensures
        spec_join(v, me) is Err,
        spec_lineup(v, me, positions, pieces) is Err,
        spec_place_flag(v, me, a) is Err,
        spec_move(v, me, a, b) is Err,
        spec_choose(v, me, a) is Err,
{
}

/// Position of a phase along its ladder; the two single-sided phases of a
/// ladder share a position.
pub open spec fn phase_rank(p: Phase) -> int {
    match p {
        Phase::Created => 0,
        Phase::Joined => 1,
        Phase::LineupP0Set | Phase::LineupP1Set | Phase::FlagP0Placed | Phase::FlagP1Placed => 2,
        Phase::Active | Phase::FlagsPlaced => 3,
        Phase::Finished => 4,
    }
}

/// No successful operation moves the phase backwards.
pub proof fn phase_never_regresses(
    v: GameView,
    me: Identity,
    a: u8,
    b: u8,
    positions: Seq<u8>,
    pieces: Seq<u8>,
)
    ensures
        spec_join(v, me) is Ok ==> phase_rank(v.phase) <= phase_rank(
            spec_join(v, me)->Ok_0.0.phase,
        ),
        spec_lineup(v, me, positions, pieces) is Ok ==> phase_rank(v.phase) <= phase_rank(
            spec_lineup(v, me, positions, pieces)->Ok_0.0.phase,
        ),
        spec_place_flag(v, me, a) is Ok ==> phase_rank(v.phase) <= phase_rank(
            spec_place_flag(v, me, a)->Ok_0.0.phase,
        ),
        spec_move(v, me, a, b) is Ok ==> phase_rank(v.phase) <= phase_rank(
            spec_move(v, me, a, b)->Ok_0.0.phase,
        ),
        spec_choose(v, me, a) is Ok ==> phase_rank(v.phase) <= phase_rank(
            spec_choose(v, me, a)->Ok_0.0.phase,
        ),
{
}

} // verus!
