use vstd::prelude::*;
use crate::identity::PlayerId;

verus! {

/// What the environment has to carry out after an accepted call: at most one
/// movement of value between a player and the escrow of the record, and
/// possibly the destruction of the record.
#[derive(Clone, Copy, Debug, PartialEq, Eq)]
pub enum Effect {
    /// No value moves.
    Nothing,
    /// `amount` moves from `from` into escrow.
    Deposit { from: PlayerId, amount: u64 },
    /// `amount` moves from escrow to `to`. With `close_to`, the record is
    /// destroyed afterwards and what its storage cost goes to that party.
    Payout { to: PlayerId, amount: u64, close_to: Option<PlayerId> },
}

/// An effect with its amount as a natural number.
pub enum Flow {
    Nothing,
    Deposit { from: PlayerId, amount: nat },
    Payout { to: PlayerId, amount: nat, close_to: Option<PlayerId> },
}

impl View for Effect {
    type V = Flow;

    open spec fn view(&self) -> Flow {
        match *self {
            Effect::Nothing => Flow::Nothing,
            Effect::Deposit { from, amount } => Flow::Deposit { from, amount: amount as nat },
            Effect::Payout { to, amount, close_to } => Flow::Payout {
                to,
                amount: amount as nat,
                close_to,
            },
        }
    }
}

impl Flow {
    /// The value that enters escrow.
    pub open spec fn deposited(self) -> nat {
        match self {
            Flow::Deposit { amount, .. } => amount,
            _ => 0,
        }
    }

    /// The value that leaves escrow.
    pub open spec fn disbursed(self) -> nat {
        match self {
            Flow::Payout { amount, .. } => amount,
            _ => 0,
        }
    }

    /// Whether the record is destroyed.
    pub open spec fn closes(self) -> bool {
        self matches Flow::Payout { close_to, .. } && close_to is Some
    }
}

} // verus!
