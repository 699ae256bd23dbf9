use vstd::prelude::*;

use crate::choice::Choice;
use crate::engine::{follows, put, set_flag_pos};
use crate::errors::ErrorCode;
use crate::events::{Event, FlagPlaced, GameCreated, GameJoined};
use crate::game::{
    board_wf, clear_board, count_owned, is_p0_spawn, is_p1_spawn, Game, GameView,
    CELLS, HEIGHT, NOT_SET, WIDTH,
};
use crate::identity::Identity;
use crate::lineup::{entry_error, flag_entries, in_spawn, lemma_placed, place_one, placed, side_of};
use crate::owner::BoardCellOwner;
use crate::phase::Phase;
use crate::piece::Piece;

verus! {

/// A fresh match created by `creator`: nobody has joined, the board is
/// empty, and no tie is pending.
pub open spec fn initial_game(id: u32, creator: Identity) -> GameView {
    GameView {
        id,
        player0: creator,
        player1: None,
        winner: None,
        phase: Phase::Created,
        is_player1_turn: false,
        board_cells_owner: Seq::new(CELLS as nat, |i: int| BoardCellOwner::Nobody),
        board_pieces: Seq::new(CELLS as nat, |i: int| Piece::Empty),
        live_player0: 0,
        live_player1: 0,
        flag_pos0: NOT_SET,
        flag_pos1: NOT_SET,
        tie_pending: false,
        tie_from: 0,
        tie_to: 0,
        choice_made0: false,
        choice_made1: false,
        choice0: Choice::Unset,
        choice1: Choice::Unset,
    }
}

proof fn lemma_count_none(s: Seq<BoardCellOwner>, o: BoardCellOwner)
    requires
        forall|i: int| 0 <= i < s.len() ==> s[i] != o,
    ensures
        count_owned(s, o) == 0,
    decreases s.len(),
{
    if s.len() > 0 {
        lemma_count_none(s.drop_last(), o);
    }
}

/// Opens a match with `creator` as player 0.
pub fn create_game(id: u32, creator: Identity) -> (r: (Game, Vec<Event>))
    ensures
        r.0@ == initial_game(id, creator),
        r.0.wf(),
        r.1@ == seq![Event::GameCreated(GameCreated { creator })],
{
    let mut g = Game {
        id,
        player0: creator,
        player1: None,
        winner: None,
        phase: Phase::Created,
        is_player1_turn: false,
        board_cells_owner: Vec::new(),
        board_pieces: Vec::new(),
        live_player0: 0,
        live_player1: 0,
        flag_pos0: NOT_SET,
        flag_pos1: NOT_SET,
        tie_pending: false,
        tie_from: 0,
        tie_to: 0,
        choice_made0: false,
        choice_made1: false,
        choice0: Choice::Unset,
        choice1: Choice::Unset,
    };
    clear_board(&mut g);
    proof {
        lemma_count_none(g.board_cells_owner@, BoardCellOwner::P0);
        lemma_count_none(g.board_cells_owner@, BoardCellOwner::P1);
        assert(g@ =~= initial_game(id, creator));
        assert(board_wf(g@));
    }
    let mut ev: Vec<Event> = Vec::new();
    ev.push(Event::GameCreated(GameCreated { creator }));
    assert(ev@ =~= seq![Event::GameCreated(GameCreated { creator })]);
    (g, ev)
}

/// The rules of `joiner` joining a match.
pub open spec fn spec_join(v: GameView, joiner: Identity) -> Result<(GameView, Seq<Event>), ErrorCode> {
    if v.phase != Phase::Created {
        Err(ErrorCode::BadPhase)
    } else if joiner == v.player0 || v.player1 is Some {
        Err(ErrorCode::NotAllowedJoinGame)
    } else {
        Ok(
            (
                GameView { player1: Some(joiner), phase: Phase::Joined, ..v },
                seq![Event::GameJoined(GameJoined { participant: joiner })],
            ),
        )
    }
}

/// Seats `joiner` as player 1 of a match that nobody has joined yet.
pub fn join_game(g: &mut Game, joiner: Identity) -> (r: Result<Vec<Event>, ErrorCode>)
    requires
        old(g).wf(),
    ensures
        follows(r, *old(g), *final(g), spec_join(old(g)@, joiner)),
        final(g).wf(),
{
    if g.phase != Phase::Created {
        return Err(ErrorCode::BadPhase);
    }
    if joiner == g.player0 || g.player1.is_some() {
        return Err(ErrorCode::NotAllowedJoinGame);
    }
    g.player1 = Some(joiner);
    g.phase = Phase::Joined;
    let mut ev: Vec<Event> = Vec::new();
    ev.push(Event::GameJoined(GameJoined { participant: joiner }));
    assert(ev@ =~= seq![Event::GameJoined(GameJoined { participant: joiner })]);
    assert(board_wf(g@));
    Ok(ev)
}

/// The phase after side `side` has placed its flag in phase `p`.
pub open spec fn phase_after_flag(p: Phase, side: BoardCellOwner) -> Phase {
    if side == BoardCellOwner::P0 {
        if p == Phase::FlagP1Placed {
            Phase::FlagsPlaced
        } else {
            Phase::FlagP0Placed
        }
    } else {
        if p == Phase::FlagP0Placed {
            Phase::FlagsPlaced
        } else {
            Phase::FlagP1Placed
        }
    }
}

/// The rules of `me` placing a single flag on cell `idx`.
pub open spec fn spec_place_flag(v: GameView, me: Identity, idx: u8) -> Result<
    (GameView, Seq<Event>),
    ErrorCode,
> {
    let side = side_of(v, me);
    if !(v.phase == Phase::Joined || v.phase == Phase::FlagP0Placed || v.phase
        == Phase::FlagP1Placed) {
        Err(ErrorCode::BadPhase)
    } else if idx >= CELLS {
        Err(ErrorCode::BadCell)
    } else if v.board_cells_owner[idx as int] != BoardCellOwner::Nobody
        || v.board_pieces[idx as int] != Piece::Empty {
        Err(ErrorCode::CellTaken)
    } else if me != v.player0 && v.player1 != Some(me) {
        Err(ErrorCode::NotParticipant)
    } else if !in_spawn(side, idx) {
        if side == BoardCellOwner::P0 {
            Err(ErrorCode::Player0BadRow)
        } else {
            Err(ErrorCode::Player1BadRow)
        }
    } else if side == BoardCellOwner::P0 && v.flag_pos0 != NOT_SET {
        Err(ErrorCode::Player0FlagAlreadyPlaced)
    } else if side == BoardCellOwner::P1 && v.flag_pos1 != NOT_SET {
        Err(ErrorCode::Player1FlagAlreadyPlaced)
    } else {
        let w = place_one(v, side, idx, Piece::Flag);
        Ok(
            (
                GameView { phase: phase_after_flag(v.phase, side), ..w },
                seq![Event::FlagPlaced(FlagPlaced { id: v.id, player: me, idx })],
            ),
        )
    }
}

/// Placing a single flag keeps the record well formed.
pub proof fn lemma_place_flag_wf(v: GameView, me: Identity, idx: u8)
    requires
        v.wf(),
        spec_place_flag(v, me, idx) is Ok,
    ensures
        spec_place_flag(v, me, idx)->Ok_0.0.wf(),
{
    let side = side_of(v, me);
    let positions = seq![idx];
    let pieces = seq![4u8];
    assert(placed(v, side, positions, pieces, 1) == place_one(v, side, idx, Piece::Flag)) by {
        assert(placed(v, side, positions, pieces, 0) == v);
    }
    assert(flag_entries(pieces, 1) == 1) by {
        assert(flag_entries(pieces, 0) == 0);
    }
    assert(entry_error(v, side, positions, pieces, 0) is None);
    lemma_placed(v, side, positions, pieces, 1);
}

/// Places the flag of `signer` alone, on an empty cell of the signer's own
/// rows; each side may place one.
pub fn place_flag(g: &mut Game, signer: Identity, flag_idx: u8) -> (r: Result<Vec<Event>, ErrorCode>)
    requires
        old(g).wf(),
    ensures
        follows(r, *old(g), *final(g), spec_place_flag(old(g)@, signer, flag_idx)),
        final(g).wf(),
{
    let ph = g.phase;
    if !(ph == Phase::Joined || ph == Phase::FlagP0Placed || ph == Phase::FlagP1Placed) {
        return Err(ErrorCode::BadPhase);
    }
    if flag_idx as usize >= CELLS {
        return Err(ErrorCode::BadCell);
    }
    let i = flag_idx as usize;
    if g.board_cells_owner[i] != BoardCellOwner::Nobody || g.board_pieces[i] != Piece::Empty {
        return Err(ErrorCode::CellTaken);
    }
    let is_p0 = signer == g.player0;
    let is_p1 = match g.player1 {
        Some(p) => p == signer,
        None => false,
    };
    if !is_p0 && !is_p1 {
        return Err(ErrorCode::NotParticipant);
    }
    proof {
        if spec_place_flag(g@, signer, flag_idx) is Ok {
            lemma_place_flag_wf(g@, signer, flag_idx);
        }
    }
    if is_p0 {
        if !is_p0_spawn(flag_idx) {
            return Err(ErrorCode::Player0BadRow);
        }
        if g.flag_pos0 != NOT_SET {
            return Err(ErrorCode::Player0FlagAlreadyPlaced);
        }
        put(g, flag_idx, BoardCellOwner::P0, Piece::Flag);
        g.live_player0 = g.live_player0.saturating_add(1);
        set_flag_pos(g, BoardCellOwner::P0, flag_idx);
        g.phase = if ph == Phase::FlagP1Placed {
            Phase::FlagsPlaced
        } else {
            Phase::FlagP0Placed
        };
    } else {
        if !is_p1_spawn(flag_idx) {
            return Err(ErrorCode::Player1BadRow);
        }
        if g.flag_pos1 != NOT_SET {
            return Err(ErrorCode::Player1FlagAlreadyPlaced);
        }
        put(g, flag_idx, BoardCellOwner::P1, Piece::Flag);
        g.live_player1 = g.live_player1.saturating_add(1);
        set_flag_pos(g, BoardCellOwner::P1, flag_idx);
        g.phase = if ph == Phase::FlagP0Placed {
            Phase::FlagsPlaced
        } else {
            Phase::FlagP1Placed
        };
    }
    let mut ev: Vec<Event> = Vec::new();
    let placed_ev = Event::FlagPlaced(FlagPlaced { id: g.id, player: signer, idx: flag_idx });
    ev.push(placed_ev);
    assert(ev@ =~= seq![placed_ev]);
    Ok(ev)
}

/// Coordinate form of `place_flag`: the pair must lie on the board.
pub fn place_flag_xy(g: &mut Game, signer: Identity, x: u8, y: u8) -> (r: Result<
    Vec<Event>,
    ErrorCode,
>)
    requires
        old(g).wf(),
    ensures
        !(x < WIDTH && y < HEIGHT) ==> r == Err::<Vec<Event>, ErrorCode>(ErrorCode::BadCell)
            && *final(g) == *old(g),
        (x < WIDTH && y < HEIGHT) ==> follows(
            r,
            *old(g),
            *final(g),
            spec_place_flag(old(g)@, signer, (y * WIDTH + x) as u8),
        ),
        final(g).wf(),
{
    if !(x < WIDTH && y < HEIGHT) {
        return Err(ErrorCode::BadCell);
    }
    let idx = y * WIDTH + x;
    place_flag(g, signer, idx)
}

} // verus!
