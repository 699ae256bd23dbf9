use vstd::prelude::*;

verus! {

/// Why an operation on a match was rejected.
#[derive(Clone, Copy, Debug, PartialEq, Eq, Structural)]
pub enum ErrorCode {
    InvalidGameId,
    NotAllowedJoinGame,
    PlaceFlagDeadlinePassed,
    BadCell,
    BadPhase,
    NoGame,
    CellTaken,
    NotParticipant,
    Player0BadRow,
    Player1BadRow,
    Player0FlagAlreadyPlaced,
    Player1FlagAlreadyPlaced,
    Player0LineupAlreadyPlaced,
    Player1LineupAlreadyPlaced,
    LineupLengthMismatch,
    LineupPositionsEmpty,
    MustHaveExactlyOneFlag,
    OnlyRpsAllowed,
    GameNotActive,
    TieInProgress,
    InvalidMove,
    NotYourTurn,
    CannotStackOwnPiece,
    NoTiePending,
    AlreadyChose,
    Overflow,
}

impl ErrorCode {
    /// A short human-readable message.
    pub fn message(&self) -> (r: &'static str)
        ensures
            *self == ErrorCode::InvalidGameId ==> r@ == "Invalid game id"@,
            *self == ErrorCode::NotAllowedJoinGame ==> r@ == "Not allowed to join game"@,
            *self == ErrorCode::PlaceFlagDeadlinePassed ==> r@ == "Place flag deadline passed"@,
            *self == ErrorCode::BadCell ==> r@ == "Bad cell"@,
            *self == ErrorCode::BadPhase ==> r@ == "Bad phase"@,
            *self == ErrorCode::NoGame ==> r@ == "No such game"@,
            *self == ErrorCode::CellTaken ==> r@ == "Cell already taken"@,
            *self == ErrorCode::NotParticipant ==> r@ == "Not a participant"@,
            *self == ErrorCode::Player0BadRow ==> r@ == "Player0: bad row"@,
            *self == ErrorCode::Player1BadRow ==> r@ == "Player1: bad row"@,
            *self == ErrorCode::Player0FlagAlreadyPlaced ==> r@ == "Player0 flag already placed"@,
            *self == ErrorCode::Player1FlagAlreadyPlaced ==> r@ == "Player1 flag already placed"@,
            *self == ErrorCode::Player0LineupAlreadyPlaced ==> r@ == "Player0 lineup already placed"@,
            *self == ErrorCode::Player1LineupAlreadyPlaced ==> r@ == "Player1 lineup already placed"@,
            *self == ErrorCode::LineupLengthMismatch ==> r@ == "Lineup length mismatch"@,
            *self == ErrorCode::LineupPositionsEmpty ==> r@ == "Lineup positions empty"@,
            *self == ErrorCode::MustHaveExactlyOneFlag ==> r@ == "Lineup must hold exactly one flag"@,
            *self == ErrorCode::OnlyRpsAllowed ==> r@ == "Only R/P/S allowed"@,
            *self == ErrorCode::GameNotActive ==> r@ == "Game not active"@,
            *self == ErrorCode::TieInProgress ==> r@ == "Tie in progress"@,
            *self == ErrorCode::InvalidMove ==> r@ == "Invalid move"@,
            *self == ErrorCode::NotYourTurn ==> r@ == "Not your turn"@,
            *self == ErrorCode::CannotStackOwnPiece ==> r@ == "Cannot stack own piece"@,
            *self == ErrorCode::NoTiePending ==> r@ == "No tie pending"@,
            *self == ErrorCode::AlreadyChose ==> r@ == "Already chose"@,
            *self == ErrorCode::Overflow ==> r@ == "Overflow"@,
    {
        proof {
            reveal_strlit("Invalid game id");
            reveal_strlit("Not allowed to join game");
            reveal_strlit("Place flag deadline passed");
            reveal_strlit("Bad cell");
            reveal_strlit("Bad phase");
            reveal_strlit("No such game");
            reveal_strlit("Cell already taken");
            reveal_strlit("Not a participant");
            reveal_strlit("Player0: bad row");
            reveal_strlit("Player1: bad row");
            reveal_strlit("Player0 flag already placed");
            reveal_strlit("Player1 flag already placed");
            reveal_strlit("Player0 lineup already placed");
            reveal_strlit("Player1 lineup already placed");
            reveal_strlit("Lineup length mismatch");
            reveal_strlit("Lineup positions empty");
            reveal_strlit("Lineup must hold exactly one flag");
            reveal_strlit("Only R/P/S allowed");
            reveal_strlit("Game not active");
            reveal_strlit("Tie in progress");
            reveal_strlit("Invalid move");
            reveal_strlit("Not your turn");
            reveal_strlit("Cannot stack own piece");
            reveal_strlit("No tie pending");
            reveal_strlit("Already chose");
            reveal_strlit("Overflow");
        }
        match self {
            ErrorCode::InvalidGameId => "Invalid game id",
            ErrorCode::NotAllowedJoinGame => "Not allowed to join game",
            ErrorCode::PlaceFlagDeadlinePassed => "Place flag deadline passed",
            ErrorCode::BadCell => "Bad cell",
            ErrorCode::BadPhase => "Bad phase",
            ErrorCode::NoGame => "No such game",
            ErrorCode::CellTaken => "Cell already taken",
            ErrorCode::NotParticipant => "Not a participant",
            ErrorCode::Player0BadRow => "Player0: bad row",
            ErrorCode::Player1BadRow => "Player1: bad row",
            ErrorCode::Player0FlagAlreadyPlaced => "Player0 flag already placed",
            ErrorCode::Player1FlagAlreadyPlaced => "Player1 flag already placed",
            ErrorCode::Player0LineupAlreadyPlaced => "Player0 lineup already placed",
            ErrorCode::Player1LineupAlreadyPlaced => "Player1 lineup already placed",
            ErrorCode::LineupLengthMismatch => "Lineup length mismatch",
            ErrorCode::LineupPositionsEmpty => "Lineup positions empty",
            ErrorCode::MustHaveExactlyOneFlag => "Lineup must hold exactly one flag",
            ErrorCode::OnlyRpsAllowed => "Only R/P/S allowed",
            ErrorCode::GameNotActive => "Game not active",
            ErrorCode::TieInProgress => "Tie in progress",
            ErrorCode::InvalidMove => "Invalid move",
            ErrorCode::NotYourTurn => "Not your turn",
            ErrorCode::CannotStackOwnPiece => "Cannot stack own piece",
            ErrorCode::NoTiePending => "No tie pending",
            ErrorCode::AlreadyChose => "Already chose",
            ErrorCode::Overflow => "Overflow",
        }
    }
}

} // verus!
