use vstd::prelude::*;
use crate::board::{has_line, is_full};
use crate::effect::Flow;
use crate::error::ErrorCode;
use crate::game::{GameModel, GameState};
use crate::identity::PlayerId;

verus! {

/// Why a match cannot be created with `stake`, if it cannot.
pub open spec fn create_error(stake: nat) -> Option<ErrorCode> {
    if stake == 0 {
        Some(ErrorCode::ZeroStakeNotAllowed)
    } else {
        None
    }
}

/// The match that `creator` opens with `stake`.
pub open spec fn created(creator: PlayerId, stake: nat) -> GameModel {
    GameModel {
        player_one: creator,
        player_two: None,
        turn: creator,
        cells: Seq::new(9, |i: int| None),
        state: GameState::WaitingForSecondPlayer,
        stake_total: stake,
        winner: None,
        draw_claimant: None,
    }
}

impl GameModel {
    /// The first reason to refuse `who` joining with `stake`, if there is one.
    pub open spec fn join_error(self, who: PlayerId, stake: nat) -> Option<ErrorCode> {
        if self.state != GameState::WaitingForSecondPlayer {
            Some(ErrorCode::GameAlreadyStartedOrFull)
        } else if who == self.player_one {
            Some(ErrorCode::CannotJoinOwnGame)
        } else if stake != self.stake_total {
            Some(ErrorCode::StakeMismatch)
        } else {
            None
        }
    }

    /// The match after `who` has joined with `stake`.
    pub open spec fn joined(self, who: PlayerId, stake: nat) -> GameModel {
        GameModel {
            player_two: Some(who),
            stake_total: self.stake_total + stake,
            state: GameState::Playing,
            ..self
        }
    }

    /// The first reason to refuse the creator `who` leaving, if there is one.
    pub open spec fn leave_error(self, who: PlayerId) -> Option<ErrorCode> {
        if self.state != GameState::WaitingForSecondPlayer {
            Some(ErrorCode::GameAlreadyStartedOrFull)
        } else if who != self.player_one {
            Some(ErrorCode::NotAPlayer)
        } else {
            None
        }
    }

    /// The match with its escrow emptied and nothing left to do.
    pub open spec fn paid_out(self) -> GameModel {
        GameModel { stake_total: 0, state: GameState::Settled, ..self }
    }

    /// The whole escrow going to `to`, the record being destroyed.
    pub open spec fn full_payout(self, to: PlayerId) -> Flow {
        Flow::Payout { to, amount: self.stake_total, close_to: Some(self.player_one) }
    }

    /// The first reason to refuse `who` marking the cell at `row`, `col`, if
    /// there is one.
    pub open spec fn move_error(self, who: PlayerId, row: int, col: int) -> Option<ErrorCode> {
        if self.state != GameState::Playing {
            Some(ErrorCode::GameNotActive)
        } else if !self.is_player(who) {
            Some(ErrorCode::NotAPlayer)
        } else if who != self.turn {
            Some(ErrorCode::NotYourTurn)
        } else if !(0 <= row < 3 && 0 <= col < 3) {
            Some(ErrorCode::InvalidMoveCoordinates)
        } else if self.cells[3 * row + col] is Some {
            Some(ErrorCode::CellAlreadyOccupied)
        } else {
            None
        }
    }

    /// The match after `who` has marked the cell at `row`, `col`: won if that
    /// completes a line of the mover's mark, else drawn if the board is now
    /// full, else handed to the opponent.
    pub open spec fn moved(self, who: PlayerId, row: int, col: int) -> GameModel {
        let mark = self.mark_of(who);
        let cells = self.cells.update(3 * row + col, Some(mark));
        if has_line(cells, mark) {
            GameModel { cells, state: GameState::Ended, winner: Some(who), ..self }
        } else if is_full(cells) {
            GameModel { cells, state: GameState::Draw, ..self }
        } else {
            GameModel {
                cells,
                turn: match self.opponent(who) {
                    Some(other) => other,
                    None => self.turn,
                },
                ..self
            }
        }
    }

    /// The first reason to refuse `who` conceding, if there is one.
    pub open spec fn forfeit_error(self, who: PlayerId) -> Option<ErrorCode> {
        if self.state != GameState::Playing {
            Some(ErrorCode::GameNotActive)
        } else if self.opponent(who) is None {
            Some(ErrorCode::NotAPlayer)
        } else {
            None
        }
    }

    /// The first reason to refuse `who` collecting the pot of a won match, if
    /// there is one.
    pub open spec fn winnings_error(self, who: PlayerId) -> Option<ErrorCode> {
        if self.state != GameState::Ended {
            Some(ErrorCode::GameNotEnded)
        } else if self.winner != Some(who) {
            Some(ErrorCode::NotTheWinner)
        } else {
            None
        }
    }

    /// The first reason to refuse `who` collecting a share of a drawn pot, if
    /// there is one.
    pub open spec fn draw_claim_error(self, who: PlayerId) -> Option<ErrorCode> {
        if self.state != GameState::Draw {
            Some(ErrorCode::GameNotDraw)
        } else if !self.is_player(who) {
            Some(ErrorCode::NotAPlayer)
        } else if self.draw_claimant == Some(who) {
            Some(ErrorCode::StakeAlreadyClaimed)
        } else {
            None
        }
    }

    /// What the next claimant of a drawn pot receives: half of it, rounded
    /// down, for the first; all that is left for the second.
    pub open spec fn draw_share(self) -> nat {
        if self.draw_claimant is None {
            self.stake_total / 2
        } else {
            self.stake_total
        }
    }

    /// The match after `who` has collected a share of the drawn pot.
    pub open spec fn draw_claimed(self, who: PlayerId) -> GameModel {
        let rest = (self.stake_total - self.draw_share()) as nat;
        GameModel {
            stake_total: rest,
            draw_claimant: Some(who),
            state: if rest == 0 {
                GameState::Settled
            } else {
                GameState::Draw
            },
            ..self
        }
    }

    /// The share of the drawn pot going to `who`; the record is destroyed if
    /// nothing is left after it.
    pub open spec fn draw_payout(self, who: PlayerId) -> Flow {
        Flow::Payout {
            to: who,
            amount: self.draw_share(),
            close_to: if self.stake_total == self.draw_share() {
                Some(self.player_one)
            } else {
                None
            },
        }
    }
}

} // verus!
