use icq_rps::{
    choose_weapon, clear_board, create_game, end_turn_or_win, join_game, move_piece,
    move_piece_xy, place_flag, place_flag_xy, submit_lineup, submit_lineup_xy, Battle,
    BoardCellOwner, Choice, EndReason, ErrorCode, Event, FlagPlaced, Game, GameCreated,
    GameJoined, GameOver, GameStarted, Identity, LineupSubmitted, MoveMade, Phase, Piece,
    TieChoice, TieResolved, TieStarted, NOT_SET,
};

fn who(n: u128) -> Identity {
    Identity { hi: 0, lo: n }
}

fn p0() -> Identity {
    who(1)
}

fn p1() -> Identity {
    who(2)
}

/// An active match, player 0 to move, with the given pieces on the board.
fn active_with(cells: &[(u8, BoardCellOwner, Piece)]) -> Game {
    let (mut g, _) = create_game(9, p0());
    g.player1 = Some(p1());
    g.phase = Phase::Active;
    for &(i, o, p) in cells {
        g.board_cells_owner[i as usize] = o;
        g.board_pieces[i as usize] = p;
        if o == BoardCellOwner::P0 {
            g.live_player0 += 1;
            if p == Piece::Flag {
                g.flag_pos0 = i;
            }
        } else {
            g.live_player1 += 1;
            if p == Piece::Flag {
                g.flag_pos1 = i;
            }
        }
    }
    g
}

fn count(g: &Game, o: BoardCellOwner) -> u16 {
    g.board_cells_owner.iter().filter(|&&c| c == o).count() as u16
}

fn counts_agree(g: &Game) -> bool {
    count(g, BoardCellOwner::P0) == g.live_player0 && count(g, BoardCellOwner::P1) == g.live_player1
}

/// Both lineups placed through the public operations.
fn started() -> Game {
    let (mut g, _) = create_game(3, p0());
    join_game(&mut g, p1()).unwrap();
    submit_lineup(&mut g, p0(), vec![35, 36, 28], vec![4, 1, 3]).unwrap();
    submit_lineup(&mut g, p1(), vec![0, 7, 8], vec![4, 2, 1]).unwrap();
    g
}

#[test]
fn create_game_starts_empty() {
    let (g, ev) = create_game(5, p0());
    assert_eq!(ev, vec![Event::GameCreated(GameCreated { creator: p0() })]);
    assert_eq!(g.id, 5);
    assert_eq!(g.phase(), Phase::Created);
    assert_eq!(g.player1, None);
    assert_eq!(g.winner, None);
    assert_eq!(g.board_cells_owner.len(), 42);
    assert!(g.board_pieces.iter().all(|&p| p == Piece::Empty));
    assert_eq!(g.flag_pos0, NOT_SET);
    assert_eq!(g.flag_pos1, NOT_SET);
    assert_eq!(g.live_player0, 0);
}

#[test]
fn join_rules() {
    let (mut g, _) = create_game(1, p0());
    let before = g.clone();
    assert_eq!(join_game(&mut g, p0()), Err(ErrorCode::NotAllowedJoinGame));
    assert_eq!(g, before);
    assert_eq!(
        join_game(&mut g, p1()),
        Ok(vec![Event::GameJoined(GameJoined { participant: p1() })])
    );
    assert_eq!(g.player1, Some(p1()));
    assert_eq!(g.phase, Phase::Joined);
    let before = g.clone();
    assert_eq!(join_game(&mut g, who(3)), Err(ErrorCode::BadPhase));
    assert_eq!(g, before);
}

#[test]
fn lineups_start_the_match() {
    let (mut g, _) = create_game(3, p0());
    join_game(&mut g, p1()).unwrap();
    let ev = submit_lineup(&mut g, p0(), vec![35, 36, 28], vec![4, 1, 3]).unwrap();
    assert_eq!(ev, vec![Event::LineupSubmitted(LineupSubmitted { player: p0(), count: 3 })]);
    assert_eq!(g.phase, Phase::LineupP0Set);
    assert_eq!(g.live_player0, 3);
    assert_eq!(g.flag_pos0, 35);
    assert_eq!(g.board_pieces[36], Piece::Rock);
    assert_eq!(g.board_cells_owner[28], BoardCellOwner::P0);
    let ev = submit_lineup(&mut g, p1(), vec![0, 7, 8], vec![4, 2, 1]).unwrap();
    assert_eq!(
        ev,
        vec![
            Event::LineupSubmitted(LineupSubmitted { player: p1(), count: 3 }),
            Event::GameStarted(GameStarted { p0: p0(), p1: p1() }),
        ]
    );
    assert_eq!(g.phase, Phase::Active);
    assert!(!g.is_player1_turn);
    assert_eq!(g.live_player1, 3);
    assert_eq!(g.flag_pos1, 0);
    assert!(counts_agree(&g));
}

#[test]
fn player1_first_lineup() {
    let (mut g, _) = create_game(3, p0());
    join_game(&mut g, p1()).unwrap();
    submit_lineup(&mut g, p1(), vec![13], vec![4]).unwrap();
    assert_eq!(g.phase, Phase::LineupP1Set);
    submit_lineup(&mut g, p0(), vec![41], vec![4]).unwrap();
    assert_eq!(g.phase, Phase::Active);
}

#[test]
fn lineup_double_submission_rejected() {
    let (mut g, _) = create_game(3, p0());
    join_game(&mut g, p1()).unwrap();
    submit_lineup(&mut g, p0(), vec![35, 36], vec![4, 1]).unwrap();
    let before = g.clone();
    assert_eq!(
        submit_lineup(&mut g, p0(), vec![37], vec![4]),
        Err(ErrorCode::Player0LineupAlreadyPlaced)
    );
    assert_eq!(g, before);
    let mut active = started();
    let before = active.clone();
    assert_eq!(
        submit_lineup(&mut active, p0(), vec![37], vec![4]),
        Err(ErrorCode::Player0LineupAlreadyPlaced)
    );
    assert_eq!(
        submit_lineup(&mut active, p1(), vec![9], vec![4]),
        Err(ErrorCode::Player1LineupAlreadyPlaced)
    );
    assert_eq!(active, before);
}

#[test]
fn lineup_errors_leave_state_unchanged() {
    let (mut g, _) = create_game(3, p0());
    join_game(&mut g, p1()).unwrap();
    let before = g.clone();
    let cases: Vec<(Identity, Vec<u8>, Vec<u8>, ErrorCode)> = vec![
        (who(7), vec![35], vec![4], ErrorCode::NotParticipant),
        (p0(), vec![35, 36], vec![4], ErrorCode::LineupLengthMismatch),
        (p0(), vec![], vec![], ErrorCode::LineupPositionsEmpty),
        (p0(), vec![35, 36], vec![1, 2], ErrorCode::MustHaveExactlyOneFlag),
        (p0(), vec![35, 36], vec![4, 4], ErrorCode::MustHaveExactlyOneFlag),
        (p0(), vec![35, 50], vec![4, 1], ErrorCode::BadCell),
        (p0(), vec![35, 35], vec![4, 1], ErrorCode::CellTaken),
        (p0(), vec![35, 20], vec![4, 1], ErrorCode::Player0BadRow),
        (p1(), vec![3, 35], vec![4, 1], ErrorCode::Player1BadRow),
        (p0(), vec![35, 36], vec![4, 0], ErrorCode::OnlyRpsAllowed),
        (p0(), vec![35, 36], vec![4, 9], ErrorCode::OnlyRpsAllowed),
    ];
    for (s, pos, pcs, e) in cases {
        assert_eq!(submit_lineup(&mut g, s, pos, pcs), Err(e));
        assert_eq!(g, before);
    }
    submit_lineup(&mut g, p1(), vec![3], vec![4]).unwrap();
    let before = g.clone();
    assert_eq!(
        submit_lineup(&mut g, p0(), vec![35, 3], vec![4, 1]),
        Err(ErrorCode::CellTaken)
    );
    assert_eq!(g, before);
    let (mut f, _) = create_game(3, p0());
    f.phase = Phase::Finished;
    assert_eq!(submit_lineup(&mut f, p0(), vec![35], vec![4]), Err(ErrorCode::BadPhase));
}

#[test]
fn lineup_by_coordinates() {
    let (mut g, _) = create_game(3, p0());
    join_game(&mut g, p1()).unwrap();
    assert_eq!(
        submit_lineup_xy(&mut g, p0(), vec![0, 1], vec![5], vec![4, 1]),
        Err(ErrorCode::LineupLengthMismatch)
    );
    assert_eq!(
        submit_lineup_xy(&mut g, p0(), vec![7], vec![5], vec![4]),
        Err(ErrorCode::BadCell)
    );
    assert_eq!(g.phase, Phase::Joined);
    submit_lineup_xy(&mut g, p0(), vec![0, 6], vec![5, 4], vec![4, 2]).unwrap();
    assert_eq!(g.flag_pos0, 35);
    assert_eq!(g.board_pieces[34], Piece::Paper);
}

#[test]
fn single_flag_ladder() {
    let (mut g, _) = create_game(4, p0());
    assert_eq!(place_flag(&mut g, p0(), 35), Err(ErrorCode::BadPhase));
    join_game(&mut g, p1()).unwrap();
    let before = g.clone();
    assert_eq!(place_flag(&mut g, p0(), 42), Err(ErrorCode::BadCell));
    assert_eq!(place_flag(&mut g, p0(), 3), Err(ErrorCode::Player0BadRow));
    assert_eq!(place_flag(&mut g, p1(), 35), Err(ErrorCode::Player1BadRow));
    assert_eq!(place_flag(&mut g, who(5), 35), Err(ErrorCode::NotParticipant));
    assert_eq!(g, before);
    assert_eq!(
        place_flag(&mut g, p1(), 2),
        Ok(vec![Event::FlagPlaced(FlagPlaced { id: 4, player: p1(), idx: 2 })])
    );
    assert_eq!(g.phase, Phase::FlagP1Placed);
    assert_eq!(g.flag_pos1, 2);
    assert_eq!(g.live_player1, 1);
    assert_eq!(place_flag(&mut g, p1(), 3), Err(ErrorCode::Player1FlagAlreadyPlaced));
    assert_eq!(place_flag(&mut g, p0(), 2), Err(ErrorCode::CellTaken));
    assert_eq!(place_flag_xy(&mut g, p0(), 7, 5), Err(ErrorCode::BadCell));
    place_flag_xy(&mut g, p0(), 1, 5).unwrap();
    assert_eq!(g.flag_pos0, 36);
    assert_eq!(g.phase, Phase::FlagsPlaced);
    assert!(counts_agree(&g));
    assert_eq!(place_flag(&mut g, p0(), 37), Err(ErrorCode::BadPhase));
}

#[test]
fn scenario_simple_capture() {
    let mut g = active_with(&[
        (10, BoardCellOwner::P0, Piece::Rock),
        (40, BoardCellOwner::P0, Piece::Flag),
        (3, BoardCellOwner::P1, Piece::Scissors),
        (0, BoardCellOwner::P1, Piece::Flag),
    ]);
    let ev = move_piece(&mut g, p0(), 10, 3).unwrap();
    assert_eq!(
        ev,
        vec![
            Event::Battle(Battle {
                from_idx: 10,
                to_idx: 3,
                attacker: Piece::Rock,
                defender: Piece::Scissors,
                outcome: 1
            }),
            Event::MoveMade(MoveMade { player: p0(), from_idx: 10, to_idx: 3 }),
        ]
    );
    assert_eq!(g.board_cells_owner[3], BoardCellOwner::P0);
    assert_eq!(g.board_pieces[3], Piece::Rock);
    assert_eq!(g.board_pieces[10], Piece::Empty);
    assert_eq!(g.live_player1, 1);
    assert_eq!(g.live_player0, 2);
    assert!(g.is_player1_turn);
    assert!(counts_agree(&g));
}

#[test]
fn scenario_tie_both_removed() {
    let mut g = active_with(&[
        (10, BoardCellOwner::P0, Piece::Rock),
        (40, BoardCellOwner::P0, Piece::Flag),
        (3, BoardCellOwner::P1, Piece::Rock),
        (0, BoardCellOwner::P1, Piece::Flag),
    ]);
    let board = g.board_pieces.clone();
    let ev = move_piece(&mut g, p0(), 10, 3).unwrap();
    assert_eq!(ev, vec![Event::TieStarted(TieStarted { from_idx: 10, to_idx: 3 })]);
    assert!(g.tie_pending);
    assert_eq!((g.tie_from, g.tie_to), (10, 3));
    assert_eq!(g.board_pieces, board);
    assert!(!g.is_player1_turn);
    let ev = choose_weapon(&mut g, p0(), 2).unwrap();
    assert_eq!(
        ev,
        vec![Event::TieChoice(TieChoice { id: 9, player: p0(), choice: Choice::Paper })]
    );
    assert!(g.tie_pending);
    let ev = choose_weapon(&mut g, p1(), 2).unwrap();
    assert_eq!(
        ev,
        vec![
            Event::TieChoice(TieChoice { id: 9, player: p1(), choice: Choice::Paper }),
            Event::TieResolved(TieResolved {
                id: 9,
                outcome: 0,
                p0_choice: Choice::Paper,
                p1_choice: Choice::Paper
            }),
        ]
    );
    assert!(!g.tie_pending);
    assert_eq!(g.board_pieces[10], Piece::Empty);
    assert_eq!(g.board_pieces[3], Piece::Empty);
    assert_eq!((g.live_player0, g.live_player1), (1, 1));
    assert!(g.is_player1_turn);
    assert!(!g.choice_made0 && !g.choice_made1);
    assert_eq!(g.choice0, Choice::Unset);
    assert!(counts_agree(&g));
}

#[test]
fn scenario_flag_capture_ends_match() {
    let mut g = active_with(&[
        (28, BoardCellOwner::P0, Piece::Rock),
        (40, BoardCellOwner::P0, Piece::Flag),
        (33, BoardCellOwner::P1, Piece::Rock),
        (0, BoardCellOwner::P1, Piece::Flag),
    ]);
    g.is_player1_turn = true;
    let ev = move_piece(&mut g, p1(), 33, 40).unwrap();
    assert_eq!(
        ev,
        vec![
            Event::Battle(Battle {
                from_idx: 33,
                to_idx: 40,
                attacker: Piece::Rock,
                defender: Piece::Flag,
                outcome: 1
            }),
            Event::GameOver(GameOver { winner: p1(), reason: EndReason::CapturedFlag }),
        ]
    );
    assert_eq!(EndReason::CapturedFlag.as_str(), "captured_flag");
    assert_eq!(g.phase, Phase::Finished);
    assert_eq!(g.winner, Some(p1()));
    assert_eq!(g.flag_pos0, NOT_SET);
    assert_eq!(g.live_player0, 1);
    assert!(counts_agree(&g));
    let before = g.clone();
    assert_eq!(move_piece(&mut g, p0(), 28, 29), Err(ErrorCode::GameNotActive));
    assert_eq!(choose_weapon(&mut g, p0(), 1), Err(ErrorCode::GameNotActive));
    assert_eq!(g, before);
}

#[test]
fn attacker_loses_and_turn_passes() {
    let mut g = active_with(&[
        (10, BoardCellOwner::P0, Piece::Scissors),
        (40, BoardCellOwner::P0, Piece::Flag),
        (3, BoardCellOwner::P1, Piece::Rock),
        (0, BoardCellOwner::P1, Piece::Flag),
    ]);
    let ev = move_piece(&mut g, p0(), 10, 3).unwrap();
    assert_eq!(
        ev[0],
        Event::Battle(Battle {
            from_idx: 10,
            to_idx: 3,
            attacker: Piece::Scissors,
            defender: Piece::Rock,
            outcome: -1
        })
    );
    assert_eq!(g.board_pieces[10], Piece::Empty);
    assert_eq!(g.board_pieces[3], Piece::Rock);
    assert_eq!(g.live_player0, 1);
    assert!(g.is_player1_turn);
}

#[test]
fn moves_alternate_turns() {
    let mut g = started();
    move_piece(&mut g, p0(), 36, 29).unwrap();
    assert!(g.is_player1_turn);
    assert_eq!(move_piece(&mut g, p0(), 29, 22), Err(ErrorCode::NotYourTurn));
    move_piece(&mut g, p1(), 7, 14).unwrap();
    assert!(!g.is_player1_turn);
    assert_eq!(move_piece(&mut g, p0(), 35, 34), Err(ErrorCode::InvalidMove));
    move_piece(&mut g, p0(), 35, 36).unwrap();
    assert_eq!(g.flag_pos0, 36);
    assert_eq!(g.board_pieces[36], Piece::Flag);
    assert!(counts_agree(&g));
}

#[test]
fn flag_walking_into_a_fighter_is_lost() {
    let mut g = active_with(&[
        (40, BoardCellOwner::P0, Piece::Flag),
        (41, BoardCellOwner::P0, Piece::Rock),
        (33, BoardCellOwner::P1, Piece::Rock),
        (0, BoardCellOwner::P1, Piece::Flag),
    ]);
    move_piece(&mut g, p0(), 40, 33).unwrap();
    assert_eq!(g.flag_pos0, NOT_SET);
    assert_eq!(g.board_pieces[40], Piece::Empty);
    assert_eq!(g.live_player0, 1);
    assert_eq!(g.phase, Phase::Active);
}

#[test]
fn move_errors_leave_state_unchanged() {
    let mut g = started();
    let before = g.clone();
    assert_eq!(move_piece(&mut g, p0(), 36, 42), Err(ErrorCode::BadCell));
    assert_eq!(move_piece(&mut g, p0(), 36, 22), Err(ErrorCode::InvalidMove));
    assert_eq!(move_piece(&mut g, p1(), 36, 29), Err(ErrorCode::NotYourTurn));
    assert_eq!(move_piece(&mut g, p0(), 29, 30), Err(ErrorCode::InvalidMove));
    assert_eq!(move_piece(&mut g, p0(), 36, 35), Err(ErrorCode::CannotStackOwnPiece));
    assert_eq!(move_piece_xy(&mut g, p0(), 1, 5, 1, 6), Err(ErrorCode::BadCell));
    assert_eq!(g, before);
    let (mut c, _) = create_game(1, p0());
    assert_eq!(move_piece(&mut c, p0(), 35, 36), Err(ErrorCode::GameNotActive));
    move_piece_xy(&mut g, p0(), 1, 5, 1, 4).unwrap();
    assert_eq!(g.board_pieces[29], Piece::Rock);
}

#[test]
fn tie_exclusivity() {
    let mut g = active_with(&[
        (10, BoardCellOwner::P0, Piece::Paper),
        (40, BoardCellOwner::P0, Piece::Flag),
        (3, BoardCellOwner::P1, Piece::Paper),
        (0, BoardCellOwner::P1, Piece::Flag),
    ]);
    let before = g.clone();
    assert_eq!(choose_weapon(&mut g, p0(), 1), Err(ErrorCode::NoTiePending));
    assert_eq!(g, before);
    move_piece(&mut g, p0(), 10, 3).unwrap();
    let pending = g.clone();
    assert_eq!(move_piece(&mut g, p0(), 40, 39), Err(ErrorCode::TieInProgress));
    assert_eq!(move_piece(&mut g, p1(), 0, 1), Err(ErrorCode::TieInProgress));
    assert_eq!(choose_weapon(&mut g, who(8), 1), Err(ErrorCode::NotParticipant));
    assert_eq!(g, pending);
    choose_weapon(&mut g, p1(), 1).unwrap();
    let chosen = g.clone();
    assert_eq!(choose_weapon(&mut g, p1(), 2), Err(ErrorCode::AlreadyChose));
    assert_eq!(g, chosen);
}

#[test]
fn tie_break_attacker_wins() {
    let mut g = active_with(&[
        (10, BoardCellOwner::P0, Piece::Rock),
        (40, BoardCellOwner::P0, Piece::Flag),
        (3, BoardCellOwner::P1, Piece::Rock),
        (0, BoardCellOwner::P1, Piece::Flag),
    ]);
    move_piece(&mut g, p0(), 10, 3).unwrap();
    choose_weapon(&mut g, p1(), 3).unwrap();
    choose_weapon(&mut g, p0(), 1).unwrap();
    assert_eq!(g.board_cells_owner[3], BoardCellOwner::P0);
    assert_eq!(g.board_pieces[3], Piece::Rock);
    assert_eq!(g.board_pieces[10], Piece::Empty);
    assert_eq!((g.live_player0, g.live_player1), (2, 1));
    assert!(g.is_player1_turn);
}

#[test]
fn tie_break_turn_follows_tying_mover() {
    let mut g = active_with(&[
        (10, BoardCellOwner::P0, Piece::Paper),
        (40, BoardCellOwner::P0, Piece::Flag),
        (3, BoardCellOwner::P1, Piece::Paper),
        (0, BoardCellOwner::P1, Piece::Flag),
    ]);
    g.is_player1_turn = true;
    move_piece(&mut g, p1(), 3, 10).unwrap();
    choose_weapon(&mut g, p1(), 2).unwrap();
    let ev = choose_weapon(&mut g, p0(), 1).unwrap();
    assert_eq!(
        ev[1],
        Event::TieResolved(TieResolved {
            id: 9,
            outcome: -1,
            p0_choice: Choice::Rock,
            p1_choice: Choice::Paper
        })
    );
    assert_eq!(g.board_cells_owner[10], BoardCellOwner::P1);
    assert_eq!(g.board_pieces[3], Piece::Empty);
    assert_eq!((g.live_player0, g.live_player1), (1, 2));
    assert!(!g.is_player1_turn);
}

#[test]
fn tie_break_attacker_loses() {
    let mut g = active_with(&[
        (10, BoardCellOwner::P0, Piece::Scissors),
        (40, BoardCellOwner::P0, Piece::Flag),
        (3, BoardCellOwner::P1, Piece::Scissors),
        (0, BoardCellOwner::P1, Piece::Flag),
    ]);
    move_piece(&mut g, p0(), 10, 3).unwrap();
    choose_weapon(&mut g, p0(), 1).unwrap();
    choose_weapon(&mut g, p1(), 2).unwrap();
    assert_eq!(g.board_pieces[10], Piece::Empty);
    assert_eq!(g.board_cells_owner[3], BoardCellOwner::P1);
    assert_eq!((g.live_player0, g.live_player1), (1, 2));
    assert!(g.is_player1_turn);
}

#[test]
fn last_piece_lost_ends_match() {
    let mut g = active_with(&[
        (10, BoardCellOwner::P0, Piece::Rock),
        (40, BoardCellOwner::P0, Piece::Rock),
        (3, BoardCellOwner::P1, Piece::Scissors),
    ]);
    let ev = move_piece(&mut g, p0(), 10, 3).unwrap();
    assert_eq!(
        ev[2],
        Event::GameOver(GameOver { winner: p0(), reason: EndReason::NoPiecesLeft })
    );
    assert_eq!(EndReason::NoPiecesLeft.as_str(), "no_pieces_left");
    assert_eq!(g.phase, Phase::Finished);
    assert_eq!(g.winner, Some(p0()));
}

#[test]
fn both_sides_emptied_favours_player1() {
    let mut g = active_with(&[
        (10, BoardCellOwner::P0, Piece::Rock),
        (3, BoardCellOwner::P1, Piece::Rock),
    ]);
    move_piece(&mut g, p0(), 10, 3).unwrap();
    choose_weapon(&mut g, p0(), 3).unwrap();
    let ev = choose_weapon(&mut g, p1(), 3).unwrap();
    assert_eq!(
        ev[2],
        Event::GameOver(GameOver { winner: p1(), reason: EndReason::NoPiecesLeft })
    );
    assert_eq!((g.live_player0, g.live_player1), (0, 0));
    assert_eq!(g.winner, Some(p1()));
    assert_eq!(g.phase, Phase::Finished);
}

#[test]
fn end_turn_or_win_direct() {
    let mut g = active_with(&[
        (10, BoardCellOwner::P0, Piece::Rock),
        (3, BoardCellOwner::P1, Piece::Rock),
    ]);
    assert_eq!(end_turn_or_win(&mut g, true), vec![]);
    assert!(g.is_player1_turn);
    g.phase = Phase::Finished;
    let before = g.clone();
    assert_eq!(end_turn_or_win(&mut g, false), vec![]);
    assert_eq!(g, before);
}

#[test]
fn clear_board_resets() {
    let mut g = started();
    g.tie_pending = true;
    g.choice0 = Choice::Rock;
    clear_board(&mut g);
    assert!(g.board_cells_owner.iter().all(|&c| c == BoardCellOwner::Nobody));
    assert_eq!((g.live_player0, g.live_player1), (0, 0));
    assert_eq!((g.flag_pos0, g.flag_pos1), (NOT_SET, NOT_SET));
    assert!(!g.tie_pending);
    assert_eq!(g.choice0, Choice::Unset);
    assert_eq!(g.phase, Phase::Active);
    assert_eq!(g.player1, Some(p1()));
}

#[test]
fn well_formedness_is_rederived() {
    let g = started();
    assert!(g.is_well_formed());
    let (fresh, _) = create_game(1, p0());
    assert!(fresh.is_well_formed());
    let mut bad = g.clone();
    bad.live_player0 += 1;
    assert!(!bad.is_well_formed());
    let mut bad = g.clone();
    bad.flag_pos0 = 36;
    assert!(!bad.is_well_formed());
    let mut bad = g.clone();
    bad.board_pieces[20] = Piece::Rock;
    assert!(!bad.is_well_formed());
    let mut bad = g.clone();
    bad.tie_pending = true;
    bad.tie_from = 36;
    bad.tie_to = 29;
    assert!(!bad.is_well_formed());
    let mut bad = g.clone();
    bad.board_pieces.pop();
    assert!(!bad.is_well_formed());
    let mut bad = g.clone();
    bad.phase = Phase::Joined;
    assert!(!bad.is_well_formed());
    let mut tie = active_with(&[
        (10, BoardCellOwner::P0, Piece::Rock),
        (3, BoardCellOwner::P1, Piece::Rock),
    ]);
    move_piece(&mut tie, p0(), 10, 3).unwrap();
    assert!(tie.is_well_formed());
}
