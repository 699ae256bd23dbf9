use vstd::prelude::*;

use crate::engine::{follows, put, set_flag_pos};
use crate::errors::ErrorCode;
use crate::events::{Event, GameStarted, LineupSubmitted};
use crate::game::{
    board_wf, is_flag_of, is_p0_spawn, is_p1_spawn, lemma_count_le_len, spec_is_p0_spawn, spec_is_p1_spawn, Game,
    GameView, CELLS, HEIGHT, NOT_SET, WIDTH,
};
use crate::identity::Identity;
use crate::owner::BoardCellOwner;
use crate::phase::Phase;
use crate::piece::{piece_of_code, Piece};
use crate::rules::{lemma_set_cell, set_cell, with_flag_pos};

verus! {

/// Number of entries among the first `n` of `pieces` that are a flag.
pub open spec fn flag_entries(pieces: Seq<u8>, n: int) -> nat
    decreases n,
{
    if n <= 0 {
        0
    } else {
        flag_entries(pieces, n - 1) + if piece_of_code(pieces[n - 1]) == Piece::Flag {
            1nat
        } else {
            0nat
        }
    }
}

/// A piece that a lineup may hold.
pub open spec fn placeable(p: Piece) -> bool {
    p == Piece::Rock || p == Piece::Paper || p == Piece::Scissors || p == Piece::Flag
}

/// The placement rows of side `side`.
pub open spec fn in_spawn(side: BoardCellOwner, idx: u8) -> bool {
    if side == BoardCellOwner::P0 {
        spec_is_p0_spawn(idx)
    } else {
        spec_is_p1_spawn(idx)
    }
}

/// What is wrong with entry `i` of a lineup of side `side`, if anything: a
/// cell off the board, a cell taken on the board or by an earlier entry, a
/// cell outside the side's rows, a piece that is not R/P/S or the flag.
pub open spec fn entry_error(
    v: GameView,
    side: BoardCellOwner,
    positions: Seq<u8>,
    pieces: Seq<u8>,
    i: int,
) -> Option<ErrorCode> {
    let idx = positions[i];
    if idx >= CELLS {
        Some(ErrorCode::BadCell)
    } else if v.board_cells_owner[idx as int] != BoardCellOwner::Nobody
        || v.board_pieces[idx as int] != Piece::Empty || exists|j: int|
        0 <= j < i && positions[j] == idx {
        Some(ErrorCode::CellTaken)
    } else if !in_spawn(side, idx) {
        if side == BoardCellOwner::P0 {
            Some(ErrorCode::Player0BadRow)
        } else {
            Some(ErrorCode::Player1BadRow)
        }
    } else if !placeable(piece_of_code(pieces[i])) {
        Some(ErrorCode::OnlyRpsAllowed)
    } else {
        None
    }
}

/// The first error among the first `n` entries, in order.
pub open spec fn first_error(
    v: GameView,
    side: BoardCellOwner,
    positions: Seq<u8>,
    pieces: Seq<u8>,
    n: int,
) -> Option<ErrorCode>
    decreases n,
{
    if n <= 0 {
        None
    } else {
        match first_error(v, side, positions, pieces, n - 1) {
            Some(e) => Some(e),
            None => entry_error(v, side, positions, pieces, n - 1),
        }
    }
}

/// Addition of one that stops at the maximum.
pub open spec fn sat_inc(x: u16) -> u16 {
    if x == u16::MAX {
        x
    } else {
        (x + 1) as u16
    }
}

/// Places one piece of side `side` on cell `idx`.
pub open spec fn place_one(v: GameView, side: BoardCellOwner, idx: u8, p: Piece) -> GameView {
    let w = set_cell(v, idx as int, side, p);
    let w1 = if side == BoardCellOwner::P0 {
        GameView { live_player0: sat_inc(w.live_player0), ..w }
    } else {
        GameView { live_player1: sat_inc(w.live_player1), ..w }
    };
    if p == Piece::Flag {
        with_flag_pos(w1, side, idx)
    } else {
        w1
    }
}

/// The record after placing the first `n` entries of a lineup.
pub open spec fn placed(
    v: GameView,
    side: BoardCellOwner,
    positions: Seq<u8>,
    pieces: Seq<u8>,
    n: int,
) -> GameView
    decreases n,
{
    if n <= 0 {
        v
    } else {
        place_one(
            placed(v, side, positions, pieces, n - 1),
            side,
            positions[n - 1],
            piece_of_code(pieces[n - 1]),
        )
    }
}

/// The phase after side `side` has set its lineup in phase `p`.
pub open spec fn phase_after_lineup(p: Phase, side: BoardCellOwner) -> Phase {
    if side == BoardCellOwner::P0 {
        if p == Phase::LineupP1Set {
            Phase::Active
        } else {
            Phase::LineupP0Set
        }
    } else {
        if p == Phase::LineupP0Set {
            Phase::Active
        } else {
            Phase::LineupP1Set
        }
    }
}

/// The side of `me` (meaningful only for a participant).
pub open spec fn side_of(v: GameView, me: Identity) -> BoardCellOwner {
    if me == v.player0 {
        BoardCellOwner::P0
    } else {
        BoardCellOwner::P1
    }
}

/// All checks before the entries themselves pass: the phase admits a
/// lineup, `me` plays, has not placed yet, and the lineup is non-empty, of
/// matching lengths, and holds exactly one flag.
pub open spec fn lineup_admitted(v: GameView, me: Identity, positions: Seq<u8>, pieces: Seq<u8>) -> bool {
    &&& (v.phase == Phase::Created || v.phase == Phase::Joined || v.phase == Phase::LineupP0Set
        || v.phase == Phase::LineupP1Set)
    &&& (me == v.player0 || v.player1 == Some(me))
    &&& me == v.player0 ==> v.phase != Phase::LineupP0Set
    &&& me != v.player0 ==> v.phase != Phase::LineupP1Set
    &&& positions.len() == pieces.len()
    &&& positions.len() > 0
    &&& flag_entries(pieces, positions.len() as int) == 1
}

/// The rules of `me` submitting a lineup.
pub open spec fn spec_lineup(v: GameView, me: Identity, positions: Seq<u8>, pieces: Seq<u8>) -> Result<
    (GameView, Seq<Event>),
    ErrorCode,
> {
    let side = side_of(v, me);
    let n = positions.len() as int;
    if !(v.phase == Phase::Created || v.phase == Phase::Joined || v.phase == Phase::LineupP0Set
        || v.phase == Phase::LineupP1Set || v.phase == Phase::Active) {
        Err(ErrorCode::BadPhase)
    } else if me != v.player0 && v.player1 != Some(me) {
        Err(ErrorCode::NotParticipant)
    } else if me == v.player0 && (v.phase == Phase::LineupP0Set || v.phase == Phase::Active) {
        Err(ErrorCode::Player0LineupAlreadyPlaced)
    } else if me != v.player0 && (v.phase == Phase::LineupP1Set || v.phase == Phase::Active) {
        Err(ErrorCode::Player1LineupAlreadyPlaced)
    } else if positions.len() != pieces.len() {
        Err(ErrorCode::LineupLengthMismatch)
    } else if n == 0 {
        Err(ErrorCode::LineupPositionsEmpty)
    } else if flag_entries(pieces, n) != 1 {
        Err(ErrorCode::MustHaveExactlyOneFlag)
    } else if first_error(v, side, positions, pieces, n) is Some {
        Err(first_error(v, side, positions, pieces, n)->Some_0)
    } else {
        let w = placed(v, side, positions, pieces, n);
        let phase = phase_after_lineup(v.phase, side);
        let submitted = Event::LineupSubmitted(LineupSubmitted { player: me, count: #[verifier::truncate] (n as u8) });
        if phase == Phase::Active {
            Ok(
                (
                    GameView { phase, is_player1_turn: false, ..w },
                    seq![
                        submitted,
                        Event::GameStarted(GameStarted { p0: v.player0, p1: v.player1.unwrap() }),
                    ],
                ),
            )
        } else {
            Ok((GameView { phase, ..w }, seq![submitted]))
        }
    }
}

pub proof fn lemma_flag_entries_mono(pieces: Seq<u8>, k: int, n: int)
    requires
        0 <= k <= n,
    ensures
        flag_entries(pieces, k) <= flag_entries(pieces, n),
    decreases n - k,
{
    if k < n {
        lemma_flag_entries_mono(pieces, k, n - 1);
    }
}

/// No first error means that no entry is wrong.
pub proof fn lemma_no_error(
    v: GameView,
    side: BoardCellOwner,
    positions: Seq<u8>,
    pieces: Seq<u8>,
    n: int,
)
    requires
        first_error(v, side, positions, pieces, n) is None,
    ensures
        forall|j: int| 0 <= j < n ==> (#[trigger] entry_error(v, side, positions, pieces, j)) is None,
    decreases n,
{
    if n > 0 {
        lemma_no_error(v, side, positions, pieces, n - 1);
    }
}

/// Placing valid entries one by one keeps board, counts and flag cache in
/// agreement, and leaves the cells of later entries empty.
pub proof fn lemma_placed(
    v: GameView,
    side: BoardCellOwner,
    positions: Seq<u8>,
    pieces: Seq<u8>,
    k: int,
)
    requires
        board_wf(v),
        side != BoardCellOwner::Nobody,
        (if side == BoardCellOwner::P0 {
            v.flag_pos0
        } else {
            v.flag_pos1
        }) == NOT_SET,
        positions.len() == pieces.len(),
        forall|j: int|
            0 <= j < positions.len() ==> (#[trigger] entry_error(v, side, positions, pieces, j)) is None,
        flag_entries(pieces, positions.len() as int) <= 1,
        0 <= k <= positions.len(),
    ensures
        ({
            let w = placed(v, side, positions, pieces, k);
            &&& board_wf(w)
            &&& forall|j: int|
                k <= j < positions.len() ==> w.board_cells_owner[#[trigger] positions[j] as int]
                    == BoardCellOwner::Nobody
            &&& flag_entries(pieces, k) == 0 ==> (if side == BoardCellOwner::P0 {
                w.flag_pos0
            } else {
                w.flag_pos1
            }) == NOT_SET
            &&& w.phase == v.phase
            &&& w.player0 == v.player0
            &&& w.player1 == v.player1
            &&& w.tie_pending == v.tie_pending
            &&& w.id == v.id
            &&& side == BoardCellOwner::P0 ==> w.live_player1 == v.live_player1 && w.flag_pos1
                == v.flag_pos1
            &&& side == BoardCellOwner::P1 ==> w.live_player0 == v.live_player0 && w.flag_pos0
                == v.flag_pos0
        }),
    decreases k,
{
    let n = positions.len() as int;
    if k > 0 {
        lemma_placed(v, side, positions, pieces, k - 1);
        let w = placed(v, side, positions, pieces, k - 1);
        let c = positions[k - 1];
        let p = piece_of_code(pieces[k - 1]);
        let u = placed(v, side, positions, pieces, k);
        assert(entry_error(v, side, positions, pieces, k - 1) is None);
        assert(c < CELLS);
        assert(w.board_cells_owner[c as int] == BoardCellOwner::Nobody);
        assert(w.board_pieces[c as int] == Piece::Empty);
        lemma_set_cell(w, c as int, side, p);
        lemma_count_le_len(w.board_cells_owner, BoardCellOwner::P0);
        lemma_count_le_len(w.board_cells_owner, BoardCellOwner::P1);
        lemma_flag_entries_mono(pieces, k, n);
        assert forall|i: int| 0 <= i < CELLS implies (#[trigger] u.board_cells_owner[i]
            == BoardCellOwner::Nobody <==> u.board_pieces[i] == Piece::Empty) by {
            assert(w.board_cells_owner[i] == BoardCellOwner::Nobody <==> w.board_pieces[i]
                == Piece::Empty);
        }
        assert forall|i: int| 0 <= i < CELLS implies (#[trigger] is_flag_of(
            u.board_cells_owner,
            u.board_pieces,
            BoardCellOwner::P0,
            i,
        ) <==> i == u.flag_pos0 as int) by {
            assert(is_flag_of(w.board_cells_owner, w.board_pieces, BoardCellOwner::P0, i) <==> i
                == w.flag_pos0 as int);
            assert(is_flag_of(w.board_cells_owner, w.board_pieces, BoardCellOwner::P0, c as int)
                <==> c as int == w.flag_pos0 as int);
        }
        assert forall|i: int| 0 <= i < CELLS implies (#[trigger] is_flag_of(
            u.board_cells_owner,
            u.board_pieces,
            BoardCellOwner::P1,
            i,
        ) <==> i == u.flag_pos1 as int) by {
            assert(is_flag_of(w.board_cells_owner, w.board_pieces, BoardCellOwner::P1, i) <==> i
                == w.flag_pos1 as int);
            assert(is_flag_of(w.board_cells_owner, w.board_pieces, BoardCellOwner::P1, c as int)
                <==> c as int == w.flag_pos1 as int);
        }
        assert forall|j: int| k <= j < n implies u.board_cells_owner[#[trigger] positions[j] as int]
            == BoardCellOwner::Nobody by {
            assert(entry_error(v, side, positions, pieces, j) is None);
            assert(positions[k - 1] != positions[j]);
        }
        assert(board_wf(u));
    } else {
        assert forall|j: int| k <= j < n implies v.board_cells_owner[#[trigger] positions[j] as int]
            == BoardCellOwner::Nobody by {
            assert(entry_error(v, side, positions, pieces, j) is None);
        }
    }
}

/// Once an entry is wrong, the first error no longer changes.
pub proof fn lemma_first_error_stays(
    v: GameView,
    side: BoardCellOwner,
    positions: Seq<u8>,
    pieces: Seq<u8>,
    k: int,
    n: int,
)
    requires
        0 <= k <= n,
        first_error(v, side, positions, pieces, k) is Some,
    ensures
        first_error(v, side, positions, pieces, n) == first_error(v, side, positions, pieces, k),
    decreases n - k,
{
    if k < n {
        lemma_first_error_stays(v, side, positions, pieces, k, n - 1);
    }
}

/// Submitting a lineup keeps the record well formed.
pub proof fn lemma_lineup_wf(v: GameView, me: Identity, positions: Seq<u8>, pieces: Seq<u8>)
    requires
        v.wf(),
        spec_lineup(v, me, positions, pieces) is Ok,
    ensures
        spec_lineup(v, me, positions, pieces)->Ok_0.0.wf(),
{
    let side = side_of(v, me);
    let n = positions.len() as int;
    lemma_no_error(v, side, positions, pieces, n);
    lemma_placed(v, side, positions, pieces, n);
}

/// Places the lineup of `signer`: one atomic batch of pieces, exactly one of
/// them the flag, all on empty cells of the signer's own rows. The match
/// becomes active, player 0 to move, once both sides have placed.
pub fn submit_lineup(g: &mut Game, signer: Identity, positions: Vec<u8>, pieces: Vec<u8>) -> (r:
    Result<Vec<Event>, ErrorCode>)
    requires
        old(g).wf(),
    ensures
        follows(r, *old(g), *final(g), spec_lineup(old(g)@, signer, positions@, pieces@)),
        final(g).wf(),
{
    let ghost v = g@;
    let ph = g.phase;
    match ph {
        Phase::Created | Phase::Joined | Phase::LineupP0Set | Phase::LineupP1Set
        | Phase::Active => {},
        _ => {
            return Err(ErrorCode::BadPhase);
        },
    }
    let is_p0 = signer == g.player0;
    let is_p1 = match g.player1 {
        Some(p) => p == signer,
        None => false,
    };
    if !is_p0 && !is_p1 {
        return Err(ErrorCode::NotParticipant);
    }
    if is_p0 {
        if ph == Phase::LineupP0Set || ph == Phase::Active {
            return Err(ErrorCode::Player0LineupAlreadyPlaced);
        }
    } else {
        if ph == Phase::LineupP1Set || ph == Phase::Active {
            return Err(ErrorCode::Player1LineupAlreadyPlaced);
        }
    }
    if positions.len() != pieces.len() {
        return Err(ErrorCode::LineupLengthMismatch);
    }
    let n = positions.len();
    if n == 0 {
        return Err(ErrorCode::LineupPositionsEmpty);
    }
    let mut flag_count: usize = 0;
    let mut i: usize = 0;
    while i < n
        invariant
            n == positions@.len(),
            n == pieces@.len(),
            i <= n,
            flag_count <= i,
            flag_count == flag_entries(pieces@, i as int),
        decreases n - i,
    {
        if Piece::from(pieces[i]) == Piece::Flag {
            flag_count = flag_count + 1;
        }
        i = i + 1;
    }
    if flag_count != 1 {
        return Err(ErrorCode::MustHaveExactlyOneFlag);
    }
    let side = if is_p0 {
        BoardCellOwner::P0
    } else {
        BoardCellOwner::P1
    };
    assert(lineup_admitted(v, signer, positions@, pieces@));
    let mut taken: Vec<bool> = Vec::new();
    let mut c: usize = 0;
    while c < CELLS
        invariant
            c <= CELLS,
            taken@ == Seq::new(c as nat, |k: int| false),
        decreases CELLS - c,
    {
        taken.push(false);
        c = c + 1;
        assert(taken@ =~= Seq::new(c as nat, |k: int| false));
    }
    let mut i: usize = 0;
    while i < n
        invariant
            g@ == v,
            v.wf(),
            lineup_admitted(v, signer, positions@, pieces@),
            ph == v.phase,
            is_p0 == (signer == v.player0),
            side == side_of(v, signer),
            n == positions@.len(),
            n == pieces@.len(),
            i <= n,
            taken@.len() == CELLS,
            first_error(v, side, positions@, pieces@, i as int) is None,
            forall|c: int|
                0 <= c < CELLS ==> (taken@[c] <==> exists|j: int|
                    0 <= j < i && #[trigger] positions@[j] == c),
        decreases n - i,
    {
        let idx = positions[i];
        let ghost e = entry_error(v, side, positions@, pieces@, i as int);
        if idx as usize >= CELLS {
            proof {
                lemma_first_error_stays(v, side, positions@, pieces@, i + 1, n as int);
            }
            return Err(ErrorCode::BadCell);
        }
        let cell = idx as usize;
        if g.board_cells_owner[cell] != BoardCellOwner::Nobody || g.board_pieces[cell]
            != Piece::Empty || taken[cell] {
            proof {
                assert(e == Some(ErrorCode::CellTaken));
                lemma_first_error_stays(v, side, positions@, pieces@, i + 1, n as int);
            }
            return Err(ErrorCode::CellTaken);
        }
        assert(!exists|j: int| 0 <= j < i && positions@[j] == idx);
        if is_p0 {
            if !is_p0_spawn(idx) {
                proof {
                    lemma_first_error_stays(v, side, positions@, pieces@, i + 1, n as int);
                }
                return Err(ErrorCode::Player0BadRow);
            }
        } else {
            if !is_p1_spawn(idx) {
                proof {
                    lemma_first_error_stays(v, side, positions@, pieces@, i + 1, n as int);
                }
                return Err(ErrorCode::Player1BadRow);
            }
        }
        let p = Piece::from(pieces[i]);
        if p == Piece::Empty {
            proof {
                lemma_first_error_stays(v, side, positions@, pieces@, i + 1, n as int);
            }
            return Err(ErrorCode::OnlyRpsAllowed);
        }
        taken.set(cell, true);
        i = i + 1;
        assert forall|c: int|
            0 <= c < CELLS implies (taken@[c] <==> exists|j: int|
                0 <= j < i && #[trigger] positions@[j] == c) by {
            if c == idx as int {
                assert(positions@[i - 1] == c);
            } else if taken@[c] {
                let j = choose|j: int| 0 <= j < i - 1 && #[trigger] positions@[j] == c;
                assert(positions@[j] == c);
            }
        }
    }
    proof {
        lemma_no_error(v, side, positions@, pieces@, n as int);
        lemma_lineup_wf(v, signer, positions@, pieces@);
    }
    let mut i: usize = 0;
    while i < n
        invariant
            v.wf(),
            lineup_admitted(v, signer, positions@, pieces@),
            ph == v.phase,
            is_p0 == (signer == v.player0),
            side == side_of(v, signer),
            n == positions@.len(),
            n == pieces@.len(),
            i <= n,
            g.board_cells_owner@.len() == CELLS,
            g.board_pieces@.len() == CELLS,
            g@ == placed(v, side, positions@, pieces@, i as int),
            first_error(v, side, positions@, pieces@, n as int) is None,
            forall|j: int|
                0 <= j < n ==> (#[trigger] entry_error(v, side, positions@, pieces@, j)) is None,
        decreases n - i,
    {
        let idx = positions[i];
        assert(entry_error(v, side, positions@, pieces@, i as int) is None);
        let p = Piece::from(pieces[i]);
        put(g, idx, side, p);
        if is_p0 {
            g.live_player0 = g.live_player0.saturating_add(1);
        } else {
            g.live_player1 = g.live_player1.saturating_add(1);
        }
        if p == Piece::Flag {
            set_flag_pos(g, side, idx);
        }
        i = i + 1;
    }
    proof {
        lemma_placed(v, side, positions@, pieces@, n as int);
    }
    let next = if is_p0 {
        if ph == Phase::LineupP1Set {
            Phase::Active
        } else {
            Phase::LineupP0Set
        }
    } else {
        if ph == Phase::LineupP0Set {
            Phase::Active
        } else {
            Phase::LineupP1Set
        }
    };
    g.phase = next;
    let mut ev: Vec<Event> = Vec::new();
    let submitted = Event::LineupSubmitted(LineupSubmitted { player: signer, count: #[verifier::truncate] (n as u8) });
    ev.push(submitted);
    if next == Phase::Active {
        g.is_player1_turn = false;
        let started = Event::GameStarted(GameStarted { p0: g.player0, p1: g.player1.unwrap() });
        ev.push(started);
        assert(ev@ =~= seq![submitted, started]);
    } else {
        assert(ev@ =~= seq![submitted]);
    }
    Ok(ev)
}

/// Linear cells of coordinate pairs.
pub open spec fn xy_positions(xs: Seq<u8>, ys: Seq<u8>) -> Seq<u8> {
    Seq::new(xs.len(), |i: int| (ys[i] * WIDTH + xs[i]) as u8)
}

/// Every pair lies on the board.
pub open spec fn all_on_board(xs: Seq<u8>, ys: Seq<u8>) -> bool {
    forall|i: int| 0 <= i < xs.len() ==> xs[i] < WIDTH && ys[i] < HEIGHT
}

/// Coordinate form of `submit_lineup`: the three lists must have one length
/// and every pair must lie on the board.
pub fn submit_lineup_xy(g: &mut Game, signer: Identity, xs: Vec<u8>, ys: Vec<u8>, pieces: Vec<u8>) -> (r:
    Result<Vec<Event>, ErrorCode>)
    requires
        old(g).wf(),
    ensures
        !(xs@.len() == ys@.len() && xs@.len() == pieces@.len()) ==> r == Err::<
            Vec<Event>,
            ErrorCode,
        >(ErrorCode::LineupLengthMismatch) && *final(g) == *old(g),
        (xs@.len() == ys@.len() && xs@.len() == pieces@.len()) && !all_on_board(xs@, ys@) ==> r
            == Err::<Vec<Event>, ErrorCode>(ErrorCode::BadCell) && *final(g) == *old(g),
        (xs@.len() == ys@.len() && xs@.len() == pieces@.len()) && all_on_board(xs@, ys@)
            ==> follows(
            r,
            *old(g),
            *final(g),
            spec_lineup(old(g)@, signer, xy_positions(xs@, ys@), pieces@),
        ),
        final(g).wf(),
{
    if !(xs.len() == ys.len() && xs.len() == pieces.len()) {
        return Err(ErrorCode::LineupLengthMismatch);
    }
    let mut pos: Vec<u8> = Vec::new();
    let mut i: usize = 0;
    while i < xs.len()
        invariant
            xs@.len() == ys@.len(),
            xs@.len() == pieces@.len(),
            *g == *old(g),
            g.wf(),
            i <= xs@.len(),
            all_on_board(xs@.take(i as int), ys@.take(i as int)),
            pos@ == xy_positions(xs@.take(i as int), ys@.take(i as int)),
        decreases xs@.len() - i,
    {
        if !(xs[i] < WIDTH && ys[i] < HEIGHT) {
            assert(!all_on_board(xs@, ys@));
            return Err(ErrorCode::BadCell);
        }
        pos.push(ys[i] * WIDTH + xs[i]);
        i = i + 1;
        assert(pos@ =~= xy_positions(xs@.take(i as int), ys@.take(i as int)));
        assert forall|k: int| 0 <= k < i implies xs@.take(i as int)[k] < WIDTH && ys@.take(
            i as int,
        )[k] < HEIGHT by {
            if k < i - 1 {
                assert(xs@.take(i - 1)[k] == xs@[k]);
                assert(ys@.take(i - 1)[k] == ys@[k]);
            }
        }
    }
    assert(xs@.take(i as int) =~= xs@);
    assert(ys@.take(i as int) =~= ys@);
    submit_lineup(g, signer, pos, pieces)
}

} // verus!
