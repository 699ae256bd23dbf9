use vstd::prelude::*;

use crate::errors::ErrorCode;
use crate::events::{EndReason, Event, GameOver};
use crate::game::{board_wf, Game, GameView, NOT_SET};
use crate::identity::Identity;
use crate::owner::BoardCellOwner;
use crate::phase::Phase;
use crate::piece::Piece;
use crate::rules::{relocate, remove_at, set_cell, spec_end_turn, spec_finish};

verus! {

/// `r` is what an operation returned and `after` the record it left, where
/// `expected` is the transition that the rules prescribe from `before`: on
/// success the new record and the events; on rejection the same error and an
/// untouched record.
pub open spec fn follows(
    r: Result<Vec<Event>, ErrorCode>,
    before: Game,
    after: Game,
    expected: Result<(GameView, Seq<Event>), ErrorCode>,
) -> bool {
    match r {
        Ok(ev) => expected == Ok::<(GameView, Seq<Event>), ErrorCode>((after@, ev@)),
        Err(e) => expected == Err::<(GameView, Seq<Event>), ErrorCode>(e) && after == before,
    }
}

pub(crate) fn put(g: &mut Game, i: u8, o: BoardCellOwner, p: Piece)
    requires
        (i as int) < old(g).board_cells_owner.len(),
        (i as int) < old(g).board_pieces.len(),
    ensures
        final(g)@ == set_cell(old(g)@, i as int, o, p),
{
    g.board_cells_owner.set(i as usize, o);
    g.board_pieces.set(i as usize, p);
}

pub(crate) fn set_flag_pos(g: &mut Game, o: BoardCellOwner, pos: u8)
    ensures
        final(g)@ == crate::rules::with_flag_pos(old(g)@, o, pos),
{
    if o == BoardCellOwner::P0 {
        g.flag_pos0 = pos;
    } else {
        g.flag_pos1 = pos;
    }
}

/// Takes piece `p` of side `o` off cell `i`.
pub(crate) fn remove_piece(g: &mut Game, i: u8, o: BoardCellOwner, p: Piece)
    requires
        (i as int) < old(g).board_cells_owner.len(),
        (i as int) < old(g).board_pieces.len(),
    ensures
        final(g)@ == remove_at(old(g)@, i as int, o, p),
{
    put(g, i, BoardCellOwner::Nobody, Piece::Empty);
    if o == BoardCellOwner::P0 {
        g.live_player0 = g.live_player0.saturating_sub(1);
    } else {
        g.live_player1 = g.live_player1.saturating_sub(1);
    }
    if p == Piece::Flag {
        set_flag_pos(g, o, NOT_SET);
    }
}

/// Moves piece `a` of side `o` from `from` to `to`.
pub(crate) fn relocate_piece(g: &mut Game, from: u8, to: u8, o: BoardCellOwner, a: Piece)
    requires
        (from as int) < old(g).board_cells_owner.len(),
        (from as int) < old(g).board_pieces.len(),
        (to as int) < old(g).board_cells_owner.len(),
        (to as int) < old(g).board_pieces.len(),
    ensures
        final(g)@ == relocate(old(g)@, from, to, o, a),
{
    put(g, from, BoardCellOwner::Nobody, Piece::Empty);
    put(g, to, o, a);
    if a == Piece::Flag {
        set_flag_pos(g, o, to);
    }
}

fn finish(g: &mut Game, winner: Identity, reason: EndReason) -> (r: Event)
    ensures
        (final(g)@, seq![r]) == spec_finish(old(g)@, winner, reason),
{
    g.phase = Phase::Finished;
    g.winner = Some(winner);
    Event::GameOver(GameOver { winner, reason })
}

/// Ends the match in favour of `winner`.
pub(crate) fn finish_game(g: &mut Game, winner: Identity, reason: EndReason) -> (r: Vec<Event>)
    ensures
        (final(g)@, r@) == spec_finish(old(g)@, winner, reason),
{
    let e = finish(g, winner, reason);
    let mut r: Vec<Event> = Vec::new();
    r.push(e);
    assert(r@ =~= seq![e]);
    r
}

/// The record stays well formed through the win check.
pub proof fn lemma_end_turn_wf(v: GameView, opponent_turn: bool)
    requires
        v.wf(),
        !v.tie_pending,
        v.phase == Phase::Active || v.phase == Phase::Finished,
    ensures
        spec_end_turn(v, opponent_turn).0.wf(),
{
    let w = spec_end_turn(v, opponent_turn).0;
    assert(board_wf(w));
}

/// Win check at the end of a turn: when a side has no piece left the match
/// finishes (player 1 wins when neither has one), otherwise the turn passes
/// to `opponent_turn`. A finished match is left as it is.
pub fn end_turn_or_win(g: &mut Game, opponent_turn: bool) -> (r: Vec<Event>)
    requires
        old(g).wf(),
        !old(g).tie_pending,
        old(g).phase == Phase::Active || old(g).phase == Phase::Finished,
    ensures
        (final(g)@, r@) == spec_end_turn(old(g)@, opponent_turn),
        final(g).wf(),
{
    proof {
        lemma_end_turn_wf(g@, opponent_turn);
    }
    if g.phase == Phase::Finished {
        let r: Vec<Event> = Vec::new();
        assert(r@ =~= seq![]);
        return r;
    }
    if g.live_player0 == 0 || g.live_player1 == 0 {
        let winner = if g.live_player0 == 0 {
            g.player1.unwrap()
        } else {
            g.player0
        };
        return finish_game(g, winner, EndReason::NoPiecesLeft);
    }
    g.is_player1_turn = opponent_turn;
    let r: Vec<Event> = Vec::new();
    assert(r@ =~= seq![]);
    r
}

} // verus!
