use icq_rps::{
    is_p0_spawn, is_p1_spawn, rps, rps_choice, validate_cell, BoardCellOwner, Choice, ErrorCode,
    Phase, Piece, Registry,
};

const FIGHTERS: [Piece; 3] = [Piece::Rock, Piece::Paper, Piece::Scissors];
const WEAPONS: [Choice; 3] = [Choice::Rock, Choice::Paper, Choice::Scissors];
const ALL_PIECES: [Piece; 5] = [Piece::Empty, Piece::Rock, Piece::Paper, Piece::Scissors, Piece::Flag];

#[test]
fn rps_concrete_values() {
    assert_eq!(rps(Piece::Rock, Piece::Scissors), 1);
    assert_eq!(rps(Piece::Scissors, Piece::Rock), -1);
    assert_eq!(rps(Piece::Paper, Piece::Paper), 0);
    assert_eq!(rps(Piece::Scissors, Piece::Paper), 1);
    assert_eq!(rps(Piece::Paper, Piece::Rock), 1);
}

#[test]
fn rps_antisymmetric_on_fighters() {
    for a in FIGHTERS {
        for b in FIGHTERS {
            if a == b {
                assert_eq!(rps(a, b), 0);
            } else {
                assert_eq!(rps(a, b), -rps(b, a));
                assert_ne!(rps(a, b), 0);
            }
        }
    }
}

#[test]
fn rps_equal_pieces_tie() {
    for a in ALL_PIECES {
        assert_eq!(rps(a, a), 0);
    }
}

#[test]
fn rps_flag_loses_both_ways() {
    assert_eq!(rps(Piece::Flag, Piece::Rock), -1);
    assert_eq!(rps(Piece::Rock, Piece::Flag), -1);
    assert_eq!(rps(Piece::Empty, Piece::Paper), -1);
}

#[test]
fn rps_choice_antisymmetric_on_weapons() {
    for a in WEAPONS {
        for b in WEAPONS {
            if a == b {
                assert_eq!(rps_choice(a, b), 0);
            } else {
                assert_eq!(rps_choice(a, b), -rps_choice(b, a));
                assert_ne!(rps_choice(a, b), 0);
            }
        }
    }
    assert_eq!(rps_choice(Choice::Rock, Choice::Scissors), 1);
    assert_eq!(rps_choice(Choice::Rock, Choice::Paper), -1);
    assert_eq!(rps_choice(Choice::Unset, Choice::Unset), 0);
    assert_eq!(rps_choice(Choice::Unset, Choice::Rock), -1);
}

#[test]
fn codes_decode_permissively() {
    assert_eq!(Piece::from(1u8), Piece::Rock);
    assert_eq!(Piece::from(4u8), Piece::Flag);
    assert_eq!(Piece::from(9u8), Piece::Empty);
    assert_eq!(Choice::from(3u8), Choice::Scissors);
    assert_eq!(Choice::from(0u8), Choice::Unset);
    assert_eq!(Choice::from(7u8), Choice::Unset);
    assert_eq!(BoardCellOwner::from(2u8), BoardCellOwner::P1);
    assert_eq!(BoardCellOwner::from(3u8), BoardCellOwner::Nobody);
    assert_eq!(Phase::from(5u8), Phase::Finished);
    assert_eq!(Phase::from(200u8), Phase::Created);
    for v in 0u8..5 {
        assert_eq!(Piece::from(v).code(), v);
    }
    for v in 0u8..9 {
        assert_eq!(Phase::from(v).code(), v);
    }
    assert_eq!(Choice::Paper.code(), 2);
    assert_eq!(BoardCellOwner::P0.code(), 1);
}

#[test]
fn cell_geometry() {
    assert_eq!(validate_cell(41), Ok(()));
    assert_eq!(validate_cell(42), Err(ErrorCode::BadCell));
    assert!(is_p0_spawn(28));
    assert!(is_p0_spawn(41));
    assert!(!is_p0_spawn(27));
    assert!(is_p1_spawn(0));
    assert!(is_p1_spawn(13));
    assert!(!is_p1_spawn(14));
    assert!(icq_rps::game::adjacent_orth(10, 3));
    assert!(icq_rps::game::adjacent_orth(10, 11));
    assert!(!icq_rps::game::adjacent_orth(6, 7));
    assert!(!icq_rps::game::adjacent_orth(10, 18));
    assert!(!icq_rps::game::adjacent_orth(10, 10));
}

#[test]
fn registry_refuses_overflow() {
    let mut r = Registry { next_game_id: 7 };
    assert_eq!(r.allocate_id(), Ok(7));
    assert_eq!(r.next_game_id, 8);
    let mut full = Registry { next_game_id: u32::MAX };
    assert_eq!(full.allocate_id(), Err(ErrorCode::Overflow));
    assert_eq!(full.next_game_id, u32::MAX);
}

#[test]
fn error_messages() {
    assert_eq!(ErrorCode::BadCell.message(), "Bad cell");
    assert_eq!(ErrorCode::Player0LineupAlreadyPlaced.message(), "Player0 lineup already placed");
}
