//! A staked game of noughts and crosses for two players, as a state machine.
//!
//! One record, [`Game`], goes from creation through play to settlement. Each
//! operation either is refused with an [`ErrorCode`], leaving the record as
//! it was, or changes the record and names the one [`Effect`] that the
//! environment has to carry out: a deposit into the escrow of the record, a
//! payout from it, the destruction of the record. The library moves no value
//! and stores nothing itself.
//!
//! Settlement is by claim: a move that ends the match only records the
//! result, and the pot is paid when the winner, or each player of a drawn
//! match, asks for it.

pub mod identity;
pub mod board;
pub mod error;
pub mod effect;
pub mod game;
pub mod rules;
pub mod history;
pub mod laws;
pub mod play;
pub mod settle;

pub use crate::board::{check_draw, check_win, Board, PlayerMark};
pub use crate::effect::Effect;
pub use crate::error::ErrorCode;
pub use crate::game::{Game, GameState};
pub use crate::identity::PlayerId;
pub use crate::play::{create_game, forfeit, join_game, leave_game, make_move};
pub use crate::settle::{claim_draw_stake, claim_winnings};
