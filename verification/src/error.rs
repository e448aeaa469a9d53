use vstd::prelude::*;

verus! {

/// Why a call was rejected. A rejected call changes nothing.
#[derive(Clone, Copy, Debug, PartialEq, Eq, Structural)]
pub enum ErrorCode {
    GameAlreadyStartedOrFull,
    CannotJoinOwnGame,
    StakeMismatch,
    NotYourTurn,
    InvalidMoveCoordinates,
    CellAlreadyOccupied,
    ZeroStakeNotAllowed,
    NotAPlayer,
    GameNotActive,
    GameNotEnded,
    GameNotDraw,
    NotTheWinner,
    StakeAlreadyClaimed,
}

impl ErrorCode {
    /// The text of `message`.
    pub open spec fn message_text(self) -> Seq<char> {
        match self {
            ErrorCode::GameAlreadyStartedOrFull => "The game is not waiting for a second player."@,
            ErrorCode::CannotJoinOwnGame => "You cannot join your own game."@,
            ErrorCode::StakeMismatch => "The stake amount does not match the initial stake."@,
            ErrorCode::NotYourTurn => "It's not your turn."@,
            ErrorCode::InvalidMoveCoordinates => "Invalid move coordinates. Row and column must be between 0 and 2."@,
            ErrorCode::CellAlreadyOccupied => "The selected cell is already occupied."@,
            ErrorCode::ZeroStakeNotAllowed => "Stake amount cannot be zero."@,
            ErrorCode::NotAPlayer => "You are not a player in this game."@,
            ErrorCode::GameNotActive => "The game is not being played."@,
            ErrorCode::GameNotEnded => "The game has not ended with a winner."@,
            ErrorCode::GameNotDraw => "The game has not ended in a draw."@,
            ErrorCode::NotTheWinner => "You are not the winner of this game."@,
            ErrorCode::StakeAlreadyClaimed => "You have already claimed your share of the stake."@,
        }
    }

    /// A sentence for the caller that says what was wrong.
    pub fn message(&self) -> (text: &'static str)
        ensures
            text@ == self.message_text(),
    {
        match self {
            ErrorCode::GameAlreadyStartedOrFull => "The game is not waiting for a second player.",
            ErrorCode::CannotJoinOwnGame => "You cannot join your own game.",
            ErrorCode::StakeMismatch => "The stake amount does not match the initial stake.",
            ErrorCode::NotYourTurn => "It's not your turn.",
            ErrorCode::InvalidMoveCoordinates => "Invalid move coordinates. Row and column must be between 0 and 2.",
            ErrorCode::CellAlreadyOccupied => "The selected cell is already occupied.",
            ErrorCode::ZeroStakeNotAllowed => "Stake amount cannot be zero.",
            ErrorCode::NotAPlayer => "You are not a player in this game.",
            ErrorCode::GameNotActive => "The game is not being played.",
            ErrorCode::GameNotEnded => "The game has not ended with a winner.",
            ErrorCode::GameNotDraw => "The game has not ended in a draw.",
            ErrorCode::NotTheWinner => "You are not the winner of this game.",
            ErrorCode::StakeAlreadyClaimed => "You have already claimed your share of the stake.",
        }
    }
}

} // verus!
