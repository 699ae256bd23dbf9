use vstd::prelude::*;

use crate::choice::{choice_of_code, rps_choice, spec_rps_choice, Choice};
use crate::engine::{end_turn_or_win, follows, lemma_end_turn_wf, relocate_piece, remove_piece};
use crate::errors::ErrorCode;
use crate::events::{Event, TieChoice, TieResolved};
use crate::game::{side_of_turn, Game, GameView};
use crate::identity::Identity;
use crate::owner::BoardCellOwner;
use crate::phase::Phase;
use crate::rules::{lemma_relocate, lemma_remove_at, opponent, relocate, remove_at, spec_end_turn};

verus! {

/// Whether the tie-break outcome (player 0's view) favours the side that
/// made the tying move.
pub open spec fn attacker_wins(is_player1_turn: bool, outcome: i8) -> bool {
    if is_player1_turn {
        outcome == -1
    } else {
        outcome == 1
    }
}

/// The board after the tie-break, before the tie state is cleared.
pub open spec fn after_tie_break(v: GameView) -> GameView {
    let side = side_of_turn(v.is_player1_turn);
    let from = v.tie_from;
    let to = v.tie_to;
    let a = v.board_pieces[from as int];
    let d = v.board_pieces[to as int];
    let outcome = spec_rps_choice(v.choice0, v.choice1);
    if attacker_wins(v.is_player1_turn, outcome) {
        relocate(remove_at(v, to as int, opponent(side), d), from, to, side, a)
    } else if outcome == 0 {
        remove_at(remove_at(v, from as int, side, a), to as int, opponent(side), d)
    } else {
        remove_at(v, from as int, side, a)
    }
}

/// Both choices are in: the tie is resolved, its state cleared, and the turn
/// passes to the side facing the one that made the tying move.
pub open spec fn spec_resolve_tie(v: GameView) -> (GameView, Seq<Event>) {
    let v2 = after_tie_break(v);
    let v3 = GameView {
        tie_pending: false,
        choice_made0: false,
        choice_made1: false,
        choice0: Choice::Unset,
        choice1: Choice::Unset,
        ..v2
    };
    let e = spec_end_turn(v3, !v.is_player1_turn);
    let resolved = Event::TieResolved(
        TieResolved {
            id: v.id,
            outcome: spec_rps_choice(v.choice0, v.choice1),
            p0_choice: v.choice0,
            p1_choice: v.choice1,
        },
    );
    (e.0, seq![resolved] + e.1)
}

/// The rules of `me` handing in weapon code `code` during a tie.
pub open spec fn spec_choose(v: GameView, me: Identity, code: u8) -> Result<
    (GameView, Seq<Event>),
    ErrorCode,
> {
    let c = choice_of_code(code);
    if v.phase != Phase::Active {
        Err(ErrorCode::GameNotActive)
    } else if !v.tie_pending {
        Err(ErrorCode::NoTiePending)
    } else if me == v.player0 && v.choice_made0 {
        Err(ErrorCode::AlreadyChose)
    } else if me != v.player0 && v.player1 == Some(me) && v.choice_made1 {
        Err(ErrorCode::AlreadyChose)
    } else if me != v.player0 && v.player1 != Some(me) {
        Err(ErrorCode::NotParticipant)
    } else {
        let v1 = if me == v.player0 {
            GameView { choice0: c, choice_made0: true, ..v }
        } else {
            GameView { choice1: c, choice_made1: true, ..v }
        };
        let chosen = Event::TieChoice(TieChoice { id: v.id, player: me, choice: c });
        if v1.choice_made0 && v1.choice_made1 {
            let e = spec_resolve_tie(v1);
            Ok((e.0, seq![chosen] + e.1))
        } else {
            Ok((v1, seq![chosen]))
        }
    }
}

/// Handing in a weapon keeps the record well formed.
pub proof fn lemma_choose_wf(v: GameView, me: Identity, code: u8)
    requires
        v.wf(),
        spec_choose(v, me, code) is Ok,
    ensures
        spec_choose(v, me, code)->Ok_0.0.wf(),
{
    let c = choice_of_code(code);
    let v1 = if me == v.player0 {
        GameView { choice0: c, choice_made0: true, ..v }
    } else {
        GameView { choice1: c, choice_made1: true, ..v }
    };
    if v1.choice_made0 && v1.choice_made1 {
        let side = side_of_turn(v1.is_player1_turn);
        let from = v1.tie_from;
        let to = v1.tie_to;
        let a = v1.board_pieces[from as int];
        let d = v1.board_pieces[to as int];
        let outcome = spec_rps_choice(v1.choice0, v1.choice1);
        if attacker_wins(v1.is_player1_turn, outcome) {
            lemma_remove_at(v1, to as int, opponent(side), d);
            lemma_relocate(remove_at(v1, to as int, opponent(side), d), from, to, side, a);
        } else if outcome == 0 {
            lemma_remove_at(v1, from as int, side, a);
            lemma_remove_at(remove_at(v1, from as int, side, a), to as int, opponent(side), d);
        } else {
            lemma_remove_at(v1, from as int, side, a);
        }
        let v2 = after_tie_break(v1);
        let v3 = GameView {
            tie_pending: false,
            choice_made0: false,
            choice_made1: false,
            choice0: Choice::Unset,
            choice1: Choice::Unset,
            ..v2
        };
        lemma_end_turn_wf(v3, !v1.is_player1_turn);
    }
}

/// Records the weapon choice of `signer` while a tie is pending; once both
/// sides have chosen, resolves the contested move.
pub fn choose_weapon(g: &mut Game, signer: Identity, choice: u8) -> (r: Result<
    Vec<Event>,
    ErrorCode,
>)
    requires
        old(g).wf(),
    ensures
        follows(r, *old(g), *final(g), spec_choose(old(g)@, signer, choice)),
        final(g).wf(),
{
    if g.phase != Phase::Active {
        return Err(ErrorCode::GameNotActive);
    }
    if !g.tie_pending {
        return Err(ErrorCode::NoTiePending);
    }
    let ghost v = g@;
    let c = Choice::from(choice);
    if signer == g.player0 {
        if g.choice_made0 {
            return Err(ErrorCode::AlreadyChose);
        }
        g.choice0 = c;
        g.choice_made0 = true;
    } else {
        let is_p1 = match g.player1 {
            Some(p) => p == signer,
            None => false,
        };
        if !is_p1 {
            return Err(ErrorCode::NotParticipant);
        }
        if g.choice_made1 {
            return Err(ErrorCode::AlreadyChose);
        }
        g.choice1 = c;
        g.choice_made1 = true;
    }
    let chosen = Event::TieChoice(TieChoice { id: g.id, player: signer, choice: c });
    let mut ev: Vec<Event> = Vec::new();
    ev.push(chosen);
    proof {
        lemma_choose_wf(v, signer, choice);
    }
    if !(g.choice_made0 && g.choice_made1) {
        assert(ev@ =~= seq![chosen]);
        return Ok(ev);
    }
    let ghost v1 = g@;
    let t_from = g.tie_from;
    let t_to = g.tie_to;
    let turn = g.is_player1_turn;
    let attacker_owner = if turn {
        BoardCellOwner::P1
    } else {
        BoardCellOwner::P0
    };
    let defender_owner = if turn {
        BoardCellOwner::P0
    } else {
        BoardCellOwner::P1
    };
    let attacker_piece = g.board_pieces[t_from as usize];
    let defender_piece = g.board_pieces[t_to as usize];
    let p0_choice = g.choice0;
    let p1_choice = g.choice1;
    let outcome = rps_choice(p0_choice, p1_choice);
    ev.push(Event::TieResolved(TieResolved { id: g.id, outcome, p0_choice, p1_choice }));
    let wins = if turn {
        outcome == -1
    } else {
        outcome == 1
    };
    if wins {
        remove_piece(g, t_to, defender_owner, defender_piece);
        relocate_piece(g, t_from, t_to, attacker_owner, attacker_piece);
    } else if outcome == 0 {
        remove_piece(g, t_from, attacker_owner, attacker_piece);
        remove_piece(g, t_to, defender_owner, defender_piece);
    } else {
        remove_piece(g, t_from, attacker_owner, attacker_piece);
    }
    assert(g@ == after_tie_break(v1));
    g.tie_pending = false;
    g.choice_made0 = false;
    g.choice_made1 = false;
    g.choice0 = Choice::Unset;
    g.choice1 = Choice::Unset;
    proof {
        let v2 = after_tie_break(v1);
        let side = side_of_turn(v1.is_player1_turn);
        if wins {
            lemma_remove_at(v1, t_to as int, opponent(side), defender_piece);
            lemma_relocate(remove_at(v1, t_to as int, opponent(side), defender_piece), t_from, t_to, side, attacker_piece);
        } else if outcome == 0 {
            lemma_remove_at(v1, t_from as int, side, attacker_piece);
            lemma_remove_at(remove_at(v1, t_from as int, side, attacker_piece), t_to as int, opponent(side), defender_piece);
        } else {
            lemma_remove_at(v1, t_from as int, side, attacker_piece);
        }
    }
    let ghost head = ev@;
    let mut rest = end_turn_or_win(g, !turn);
    let ghost tail = rest@;
    ev.append(&mut rest);
    assert(ev@ =~= seq![chosen] + (seq![head[1]] + tail));
    Ok(ev)
}

} // verus!
