use vstd::prelude::*;

use crate::engine::{end_turn_or_win, finish_game, follows, lemma_end_turn_wf, relocate_piece, remove_piece};
use crate::errors::ErrorCode;
use crate::events::{Battle, EndReason, Event, MoveMade, TieStarted};
use crate::game::{
    adjacent, adjacent_orth, side_of_turn, validate_cell, Game, GameView, CELLS, HEIGHT,
    WIDTH,
};
use crate::identity::Identity;
use crate::owner::BoardCellOwner;
use crate::phase::Phase;
use crate::piece::{rps, spec_rps, Piece};
use crate::rules::{
    lemma_relocate, lemma_remove_at, opponent, relocate, remove_at, spec_end_turn, spec_finish,
};

verus! {

/// `me` is the participant whose turn it is.
pub open spec fn is_turn_of(v: GameView, me: Identity) -> bool {
    if v.is_player1_turn {
        v.player1 == Some(me)
    } else {
        v.player0 == me
    }
}

/// The record after an ordinary combat that did not tie.
pub open spec fn after_combat(v: GameView, from: u8, to: u8, outcome: i8) -> GameView {
    let side = side_of_turn(v.is_player1_turn);
    let a = v.board_pieces[from as int];
    let d = v.board_pieces[to as int];
    if outcome == 1 {
        relocate(remove_at(v, to as int, opponent(side), d), from, to, side, a)
    } else {
        remove_at(v, from as int, side, a)
    }
}

/// The rules of a move of `me` from `from` to `to`.
pub open spec fn spec_move(v: GameView, me: Identity, from: u8, to: u8) -> Result<
    (GameView, Seq<Event>),
    ErrorCode,
> {
    let side = side_of_turn(v.is_player1_turn);
    if v.phase != Phase::Active {
        Err(ErrorCode::GameNotActive)
    } else if v.tie_pending {
        Err(ErrorCode::TieInProgress)
    } else if from >= CELLS || to >= CELLS {
        Err(ErrorCode::BadCell)
    } else if !adjacent(from, to) {
        Err(ErrorCode::InvalidMove)
    } else if !is_turn_of(v, me) {
        Err(ErrorCode::NotYourTurn)
    } else if v.board_cells_owner[from as int] != side || v.board_pieces[from as int]
        == Piece::Empty {
        Err(ErrorCode::InvalidMove)
    } else {
        let a = v.board_pieces[from as int];
        let d = v.board_pieces[to as int];
        let dest = v.board_cells_owner[to as int];
        let moved = seq![Event::MoveMade(MoveMade { player: me, from_idx: from, to_idx: to })];
        if dest == BoardCellOwner::Nobody {
            let e = spec_end_turn(relocate(v, from, to, side, a), !v.is_player1_turn);
            Ok((e.0, moved + e.1))
        } else if dest == side {
            Err(ErrorCode::CannotStackOwnPiece)
        } else if d == Piece::Flag {
            let e = spec_finish(
                relocate(remove_at(v, to as int, opponent(side), d), from, to, side, a),
                me,
                EndReason::CapturedFlag,
            );
            let battle = Event::Battle(
                Battle { from_idx: from, to_idx: to, attacker: a, defender: d, outcome: 1 },
            );
            Ok((e.0, seq![battle] + e.1))
        } else {
            let outcome = spec_rps(a, d);
            if outcome == 0 {
                Ok(
                    (
                        GameView {
                            tie_pending: true,
                            tie_from: from,
                            tie_to: to,
                            choice_made0: false,
                            choice_made1: false,
                            ..v
                        },
                        seq![Event::TieStarted(TieStarted { from_idx: from, to_idx: to })],
                    ),
                )
            } else {
                let battle = Event::Battle(
                    Battle { from_idx: from, to_idx: to, attacker: a, defender: d, outcome },
                );
                let e = spec_end_turn(after_combat(v, from, to, outcome), !v.is_player1_turn);
                Ok((e.0, seq![battle] + moved + e.1))
            }
        }
    }
}

/// A move keeps the record well formed.
pub proof fn lemma_move_wf(v: GameView, me: Identity, from: u8, to: u8)
    requires
        v.wf(),
        spec_move(v, me, from, to) is Ok,
    ensures
        spec_move(v, me, from, to)->Ok_0.0.wf(),
{
    let side = side_of_turn(v.is_player1_turn);
    let a = v.board_pieces[from as int];
    let d = v.board_pieces[to as int];
    let dest = v.board_cells_owner[to as int];
    assert(from != to);
    if dest == BoardCellOwner::Nobody {
        lemma_relocate(v, from, to, side, a);
        lemma_end_turn_wf(relocate(v, from, to, side, a), !v.is_player1_turn);
    } else if d == Piece::Flag {
        lemma_remove_at(v, to as int, opponent(side), d);
        let v1 = remove_at(v, to as int, opponent(side), d);
        lemma_relocate(v1, from, to, side, a);
    } else if spec_rps(a, d) == 0 {
    } else if spec_rps(a, d) == 1 {
        lemma_remove_at(v, to as int, opponent(side), d);
        let v1 = remove_at(v, to as int, opponent(side), d);
        lemma_relocate(v1, from, to, side, a);
        lemma_end_turn_wf(after_combat(v, from, to, 1), !v.is_player1_turn);
    } else {
        lemma_remove_at(v, from as int, side, a);
        lemma_end_turn_wf(after_combat(v, from, to, -1i8), !v.is_player1_turn);
    }
}

/// Moves the piece of `signer` from `from_idx` one step to `to_idx`: onto an
/// empty cell, into combat, into a tie, or onto the enemy flag.
pub fn move_piece(g: &mut Game, signer: Identity, from_idx: u8, to_idx: u8) -> (r: Result<
    Vec<Event>,
    ErrorCode,
>)
    requires
        old(g).wf(),
    ensures
        follows(r, *old(g), *final(g), spec_move(old(g)@, signer, from_idx, to_idx)),
        final(g).wf(),
{
    if g.phase != Phase::Active {
        return Err(ErrorCode::GameNotActive);
    }
    if g.tie_pending {
        return Err(ErrorCode::TieInProgress);
    }
    if validate_cell(from_idx).is_err() || validate_cell(to_idx).is_err() {
        return Err(ErrorCode::BadCell);
    }
    if !adjacent_orth(from_idx, to_idx) {
        return Err(ErrorCode::InvalidMove);
    }
    let my_turn = if g.is_player1_turn {
        match g.player1 {
            Some(p) => p == signer,
            None => false,
        }
    } else {
        g.player0 == signer
    };
    if !my_turn {
        return Err(ErrorCode::NotYourTurn);
    }
    let me_owner = if g.is_player1_turn {
        BoardCellOwner::P1
    } else {
        BoardCellOwner::P0
    };
    let other = if g.is_player1_turn {
        BoardCellOwner::P0
    } else {
        BoardCellOwner::P1
    };
    let from = from_idx as usize;
    let to = to_idx as usize;
    let attacker = g.board_pieces[from];
    if g.board_cells_owner[from] != me_owner || attacker == Piece::Empty {
        return Err(ErrorCode::InvalidMove);
    }
    let dest_owner = g.board_cells_owner[to];
    let defender = g.board_pieces[to];
    let ghost v = g@;
    let turn = g.is_player1_turn;
    let moved = Event::MoveMade(MoveMade { player: signer, from_idx, to_idx });
    if dest_owner == BoardCellOwner::Nobody {
        relocate_piece(g, from_idx, to_idx, me_owner, attacker);
        proof {
            lemma_relocate(v, from_idx, to_idx, me_owner, attacker);
        }
        let rest = end_turn_or_win(g, !turn);
        let mut ev: Vec<Event> = Vec::new();
        ev.push(moved);
        let mut rest = rest;
        let ghost tail = rest@;
        ev.append(&mut rest);
        proof {
            assert(ev@ =~= seq![moved] + tail);
            lemma_move_wf(v, signer, from_idx, to_idx);
        }
        return Ok(ev);
    }
    if dest_owner == me_owner {
        return Err(ErrorCode::CannotStackOwnPiece);
    }
    if defender == Piece::Flag {
        remove_piece(g, to_idx, other, defender);
        relocate_piece(g, from_idx, to_idx, me_owner, attacker);
        let mut rest = finish_game(g, signer, EndReason::CapturedFlag);
        let ghost tail = rest@;
        let battle = Event::Battle(Battle { from_idx, to_idx, attacker, defender, outcome: 1 });
        let mut ev: Vec<Event> = Vec::new();
        ev.push(battle);
        ev.append(&mut rest);
        proof {
            assert(ev@ =~= seq![battle] + tail);
            lemma_move_wf(v, signer, from_idx, to_idx);
        }
        return Ok(ev);
    }
    let outcome = rps(attacker, defender);
    if outcome == 0 {
        g.tie_pending = true;
        g.tie_from = from_idx;
        g.tie_to = to_idx;
        g.choice_made0 = false;
        g.choice_made1 = false;
        let mut ev: Vec<Event> = Vec::new();
        ev.push(Event::TieStarted(TieStarted { from_idx, to_idx }));
        proof {
            assert(ev@ =~= seq![Event::TieStarted(TieStarted { from_idx, to_idx })]);
            lemma_move_wf(v, signer, from_idx, to_idx);
        }
        return Ok(ev);
    }
    if outcome == 1 {
        remove_piece(g, to_idx, other, defender);
        relocate_piece(g, from_idx, to_idx, me_owner, attacker);
        proof {
            lemma_remove_at(v, to_idx as int, other, defender);
            lemma_relocate(remove_at(v, to_idx as int, other, defender), from_idx, to_idx, me_owner, attacker);
        }
    } else {
        remove_piece(g, from_idx, me_owner, attacker);
        proof {
            lemma_remove_at(v, from_idx as int, me_owner, attacker);
        }
    }
    assert(g@ == after_combat(v, from_idx, to_idx, outcome));
    let mut rest = end_turn_or_win(g, !turn);
    let ghost tail = rest@;
    let battle = Event::Battle(Battle { from_idx, to_idx, attacker, defender, outcome });
    let mut ev: Vec<Event> = Vec::new();
    ev.push(battle);
    ev.push(moved);
    ev.append(&mut rest);
    proof {
        assert(ev@ =~= seq![battle] + seq![moved] + tail);
        lemma_move_wf(v, signer, from_idx, to_idx);
    }
    Ok(ev)
}

/// Coordinate form of `move_piece`: each coordinate must lie on the board.
pub fn move_piece_xy(
    g: &mut Game,
    signer: Identity,
    from_x: u8,
    from_y: u8,
    to_x: u8,
    to_y: u8,
) -> (r: Result<Vec<Event>, ErrorCode>)
    requires
        old(g).wf(),
    ensures
        !(from_x < WIDTH && from_y < HEIGHT && to_x < WIDTH && to_y < HEIGHT) ==> r == Err::<
            Vec<Event>,
            ErrorCode,
        >(ErrorCode::BadCell) && *final(g) == *old(g),
        (from_x < WIDTH && from_y < HEIGHT && to_x < WIDTH && to_y < HEIGHT) ==> follows(
            r,
            *old(g),
            *final(g),
            spec_move(
                old(g)@,
                signer,
                (from_y * WIDTH + from_x) as u8,
                (to_y * WIDTH + to_x) as u8,
            ),
        ),
        final(g).wf(),
{
    if !(from_x < WIDTH && from_y < HEIGHT && to_x < WIDTH && to_y < HEIGHT) {
        return Err(ErrorCode::BadCell);
    }
    let from_idx = from_y * WIDTH + from_x;
    let to_idx = to_y * WIDTH + to_x;
    move_piece(g, signer, from_idx, to_idx)
}

} // verus!
