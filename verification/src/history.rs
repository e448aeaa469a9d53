use vstd::prelude::*;
use crate::effect::Flow;
use crate::error::ErrorCode;
use crate::game::GameModel;
use crate::identity::PlayerId;
use crate::rules::created;

verus! {

/// One call made on an existing match.
pub enum Call {
    Join { who: PlayerId, stake: nat },
    Leave { who: PlayerId },
    Move { who: PlayerId, row: int, col: int },
    Forfeit { who: PlayerId },
    ClaimWinnings { who: PlayerId },
    ClaimDrawStake { who: PlayerId },
}

impl Call {
    /// Why `game` refuses this call, if it does.
    pub open spec fn error(self, game: GameModel) -> Option<ErrorCode> {
        match self {
            Call::Join { who, stake } => game.join_error(who, stake),
            Call::Leave { who } => game.leave_error(who),
            Call::Move { who, row, col } => game.move_error(who, row, col),
            Call::Forfeit { who } => game.forfeit_error(who),
            Call::ClaimWinnings { who } => game.winnings_error(who),
            Call::ClaimDrawStake { who } => game.draw_claim_error(who),
        }
    }

    /// The match after this call, where `game` accepts it.
    pub open spec fn next(self, game: GameModel) -> GameModel {
        match self {
            Call::Join { who, stake } => game.joined(who, stake),
            Call::Leave { who } => game.paid_out(),
            Call::Move { who, row, col } => game.moved(who, row, col),
            Call::Forfeit { who } => game.paid_out(),
            Call::ClaimWinnings { who } => game.paid_out(),
            Call::ClaimDrawStake { who } => game.draw_claimed(who),
        }
    }

    /// What this call has the environment do, where `game` accepts it.
    pub open spec fn flow(self, game: GameModel) -> Flow {
        match self {
            Call::Join { who, stake } => Flow::Deposit { from: who, amount: stake },
            Call::Leave { who } => game.full_payout(who),
            Call::Move { who, row, col } => Flow::Nothing,
            Call::Forfeit { who } => game.full_payout(game.opponent(who).unwrap()),
            Call::ClaimWinnings { who } => game.full_payout(who),
            Call::ClaimDrawStake { who } => game.draw_payout(who),
        }
    }
}

/// A match together with all the value that has entered and left its escrow.
pub struct Account {
    pub game: GameModel,
    pub deposited: nat,
    pub disbursed: nat,
}

impl Account {
    /// The account of a match that `creator` has just opened with `stake`.
    pub open spec fn opened(creator: PlayerId, stake: nat) -> Account {
        Account { game: created(creator, stake), deposited: stake, disbursed: 0 }
    }

    /// The account after `call`: unchanged if the match refuses it.
    pub open spec fn after(self, call: Call) -> Account {
        if call.error(self.game) is Some {
            self
        } else {
            Account {
                game: call.next(self.game),
                deposited: self.deposited + call.flow(self.game).deposited(),
                disbursed: self.disbursed + call.flow(self.game).disbursed(),
            }
        }
    }

    /// The account after all of `calls`, made in order.
    pub open spec fn after_all(self, calls: Seq<Call>) -> Account
        decreases calls.len(),
    {
        if calls.len() == 0 {
            self
        } else {
            self.after_all(calls.drop_last()).after(calls.last())
        }
    }

    /// Whether the escrow is exactly what came in and has not gone out.
    pub open spec fn balanced(self) -> bool {
        self.deposited == self.disbursed + self.game.stake_total
    }
}

} // verus!
