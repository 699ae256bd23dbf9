use vstd::prelude::*;

use crate::events::{EndReason, Event, GameOver};
use crate::game::{board_wf, count_owned, is_flag_of, lemma_count_update, GameView, CELLS, NOT_SET};
use crate::identity::Identity;
use crate::owner::BoardCellOwner;
use crate::phase::Phase;
use crate::piece::Piece;

verus! {

/// The side facing `o`.
pub open spec fn opponent(o: BoardCellOwner) -> BoardCellOwner {
    if o == BoardCellOwner::P0 {
        BoardCellOwner::P1
    } else {
        BoardCellOwner::P0
    }
}

/// Subtraction of one that stops at zero.
pub open spec fn sat_dec(x: u16) -> u16 {
    if x == 0 {
        0
    } else {
        (x - 1) as u16
    }
}

/// Writes one cell.
pub open spec fn set_cell(v: GameView, i: int, o: BoardCellOwner, p: Piece) -> GameView {
    GameView {
        board_cells_owner: v.board_cells_owner.update(i, o),
        board_pieces: v.board_pieces.update(i, p),
        ..v
    }
}

/// Sets the cached flag position of side `o`.
pub open spec fn with_flag_pos(v: GameView, o: BoardCellOwner, pos: u8) -> GameView {
    if o == BoardCellOwner::P0 {
        GameView { flag_pos0: pos, ..v }
    } else {
        GameView { flag_pos1: pos, ..v }
    }
}

/// Takes one from the live count of side `o`.
pub open spec fn dec_live(v: GameView, o: BoardCellOwner) -> GameView {
    if o == BoardCellOwner::P0 {
        GameView { live_player0: sat_dec(v.live_player0), ..v }
    } else {
        GameView { live_player1: sat_dec(v.live_player1), ..v }
    }
}

/// Takes piece `p` of side `o` off cell `i`.
pub open spec fn remove_at(v: GameView, i: int, o: BoardCellOwner, p: Piece) -> GameView {
    let v1 = dec_live(set_cell(v, i, BoardCellOwner::Nobody, Piece::Empty), o);
    if p == Piece::Flag {
        with_flag_pos(v1, o, NOT_SET)
    } else {
        v1
    }
}

/// Moves piece `a` of side `o` from `from` onto the empty cell `to`.
pub open spec fn relocate(v: GameView, from: u8, to: u8, o: BoardCellOwner, a: Piece) -> GameView {
    let v1 = set_cell(
        set_cell(v, from as int, BoardCellOwner::Nobody, Piece::Empty),
        to as int,
        o,
        a,
    );
    if a == Piece::Flag {
        with_flag_pos(v1, o, to)
    } else {
        v1
    }
}

/// Ends the match in favour of `winner`.
pub open spec fn spec_finish(v: GameView, winner: Identity, reason: EndReason) -> (
    GameView,
    Seq<Event>,
) {
    (
        GameView { phase: Phase::Finished, winner: Some(winner), ..v },
        seq![Event::GameOver(GameOver { winner, reason })],
    )
}

/// Win check at the end of a turn: a side without pieces loses (player 1
/// wins when both have none); otherwise the turn goes to `opponent_turn`.
pub open spec fn spec_end_turn(v: GameView, opponent_turn: bool) -> (GameView, Seq<Event>) {
    if v.phase == Phase::Finished {
        (v, seq![])
    } else if v.live_player0 == 0 || v.live_player1 == 0 {
        let w = if v.live_player0 == 0 {
            v.player1.unwrap()
        } else {
            v.player0
        };
        spec_finish(v, w, EndReason::NoPiecesLeft)
    } else {
        (GameView { is_player1_turn: opponent_turn, ..v }, seq![])
    }
}

pub proof fn lemma_set_cell(v: GameView, i: int, o: BoardCellOwner, p: Piece)
    requires
        0 <= i < v.board_cells_owner.len(),
    ensures
        ({
            let w = set_cell(v, i, o, p);
            &&& count_owned(w.board_cells_owner, BoardCellOwner::P0) + (if v.board_cells_owner[i]
                == BoardCellOwner::P0 {
                1int
            } else {
                0int
            }) == count_owned(v.board_cells_owner, BoardCellOwner::P0) + (if o == BoardCellOwner::P0 {
                1int
            } else {
                0int
            })
            &&& count_owned(w.board_cells_owner, BoardCellOwner::P1) + (if v.board_cells_owner[i]
                == BoardCellOwner::P1 {
                1int
            } else {
                0int
            }) == count_owned(v.board_cells_owner, BoardCellOwner::P1) + (if o == BoardCellOwner::P1 {
                1int
            } else {
                0int
            })
        }),
{
    lemma_count_update(v.board_cells_owner, i, o, BoardCellOwner::P0);
    lemma_count_update(v.board_cells_owner, i, o, BoardCellOwner::P1);
}

/// Removing a piece keeps board, counts and flag cache in agreement.
pub proof fn lemma_remove_at(v: GameView, i: int, o: BoardCellOwner, p: Piece)
    requires
        board_wf(v),
        0 <= i < CELLS,
        o != BoardCellOwner::Nobody,
        v.board_cells_owner[i] == o,
        v.board_pieces[i] == p,
    ensures
        board_wf(remove_at(v, i, o, p)),
{
    lemma_set_cell(v, i, BoardCellOwner::Nobody, Piece::Empty);
    let w = remove_at(v, i, o, p);
    let (vo, vp) = (v.board_cells_owner, v.board_pieces);
    let (wo, wp) = (w.board_cells_owner, w.board_pieces);
    assert(is_flag_of(vo, vp, o, i) == (p == Piece::Flag));
    assert forall|j: int| 0 <= j < CELLS implies (#[trigger] w.board_cells_owner[j]
        == BoardCellOwner::Nobody <==> w.board_pieces[j] == Piece::Empty) by {
        if j != i {
            assert(v.board_cells_owner[j] == BoardCellOwner::Nobody <==> v.board_pieces[j]
                == Piece::Empty);
        }
    }
    assert forall|j: int| 0 <= j < CELLS implies
        (#[trigger] is_flag_of(wo, wp, BoardCellOwner::P0, j) <==> j == w.flag_pos0 as int) by {
        assert(is_flag_of(vo, vp, BoardCellOwner::P0, j) <==> j == v.flag_pos0 as int);
        assert(is_flag_of(vo, vp, BoardCellOwner::P0, i) <==> i == v.flag_pos0 as int);
    }
    assert forall|j: int| 0 <= j < CELLS implies
        (#[trigger] is_flag_of(wo, wp, BoardCellOwner::P1, j) <==> j == w.flag_pos1 as int) by {
        assert(is_flag_of(vo, vp, BoardCellOwner::P1, j) <==> j == v.flag_pos1 as int);
        assert(is_flag_of(vo, vp, BoardCellOwner::P1, i) <==> i == v.flag_pos1 as int);
    }
}

/// Moving a piece onto an empty cell keeps board, counts and flag cache in
/// agreement.
pub proof fn lemma_relocate(v: GameView, from: u8, to: u8, o: BoardCellOwner, a: Piece)
    requires
        board_wf(v),
        from < CELLS,
        to < CELLS,
        from != to,
        o != BoardCellOwner::Nobody,
        v.board_cells_owner[from as int] == o,
        v.board_pieces[from as int] == a,
        v.board_cells_owner[to as int] == BoardCellOwner::Nobody,
    ensures
        board_wf(relocate(v, from, to, o, a)),
{
    let v1 = set_cell(v, from as int, BoardCellOwner::Nobody, Piece::Empty);
    lemma_set_cell(v, from as int, BoardCellOwner::Nobody, Piece::Empty);
    let v1c = if o == BoardCellOwner::P0 {
        GameView { live_player0: (v.live_player0 - 1) as u16, ..v1 }
    } else {
        GameView { live_player1: (v.live_player1 - 1) as u16, ..v1 }
    };
    lemma_set_cell(v1c, to as int, o, a);
    let w = relocate(v, from, to, o, a);
    let (vo, vp) = (v.board_cells_owner, v.board_pieces);
    let (wo, wp) = (w.board_cells_owner, w.board_pieces);
    assert(w.board_cells_owner =~= v1c.board_cells_owner.update(to as int, o));
    assert(is_flag_of(vo, vp, o, from as int) == (a == Piece::Flag));
    assert(!is_flag_of(vo, vp, BoardCellOwner::P0, to as int));
    assert(!is_flag_of(vo, vp, BoardCellOwner::P1, to as int));
    assert forall|j: int| 0 <= j < CELLS implies (#[trigger] w.board_cells_owner[j]
        == BoardCellOwner::Nobody <==> w.board_pieces[j] == Piece::Empty) by {
        assert(v.board_cells_owner[j] == BoardCellOwner::Nobody <==> v.board_pieces[j]
            == Piece::Empty);
    }
    assert forall|j: int| 0 <= j < CELLS implies
        (#[trigger] is_flag_of(wo, wp, BoardCellOwner::P0, j) <==> j == w.flag_pos0 as int) by {
        assert(is_flag_of(vo, vp, BoardCellOwner::P0, j) <==> j == v.flag_pos0 as int);
        assert(is_flag_of(vo, vp, BoardCellOwner::P0, from as int) <==> from as int
            == v.flag_pos0 as int);
    }
    assert forall|j: int| 0 <= j < CELLS implies
        (#[trigger] is_flag_of(wo, wp, BoardCellOwner::P1, j) <==> j == w.flag_pos1 as int) by {
        assert(is_flag_of(vo, vp, BoardCellOwner::P1, j) <==> j == v.flag_pos1 as int);
        assert(is_flag_of(vo, vp, BoardCellOwner::P1, from as int) <==> from as int
            == v.flag_pos1 as int);
    }
}

} // verus!
