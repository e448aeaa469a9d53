use vstd::prelude::*;
use crate::effect::Effect;
use crate::error::ErrorCode;
use crate::game::{Game, GameState};
use crate::identity::PlayerId;

verus! {

/// Pays the whole escrow of a won match to `caller`, who must be the winner.
/// The escrow is then empty, the match settled and the record destroyed.
pub fn claim_winnings(game: &mut Game, caller: PlayerId) -> (r: Result<Effect, ErrorCode>)
    ensures
        match old(game)@.winnings_error(caller) {
            Some(e) => r == Err::<Effect, ErrorCode>(e) && *final(game) == *old(game),
            None => r matches Ok(effect) && effect@ == old(game)@.full_payout(caller) && final(game)@
                == old(game)@.paid_out(),
        },
        old(game)@.inv() ==> final(game)@.inv(),
{
    if game.state != GameState::Ended {
        return Err(ErrorCode::GameNotEnded);
    }
    let is_winner = match game.winner {
        Some(winner) => winner.same(&caller),
        None => false,
    };
    if !is_winner {
        return Err(ErrorCode::NotTheWinner);
    }
    let effect = Effect::Payout { to: caller, amount: game.stake_total, close_to: Some(game.player_one) };
    game.stake_total = 0;
    game.state = GameState::Settled;
    Ok(effect)
}

/// Pays `caller`, one of the two players of a drawn match, a share of the
/// escrow: half of it, rounded down, to whoever claims first, and all that
/// is left to the other. Nobody claims twice. When nothing is left the match
/// is settled and the record destroyed.
pub fn claim_draw_stake(game: &mut Game, caller: PlayerId) -> (r: Result<Effect, ErrorCode>)
    ensures
        match old(game)@.draw_claim_error(caller) {
            Some(e) => r == Err::<Effect, ErrorCode>(e) && *final(game) == *old(game),
            None => r matches Ok(effect) && effect@ == old(game)@.draw_payout(caller) && final(game)@
                == old(game)@.draw_claimed(caller),
        },
        old(game)@.inv() ==> final(game)@.inv(),
{
    if game.state != GameState::Draw {
        return Err(ErrorCode::GameNotDraw);
    }
    let registered = caller.same(&game.player_one) || match game.player_two {
        Some(second) => caller.same(&second),
        None => false,
    };
    if !registered {
        return Err(ErrorCode::NotAPlayer);
    }
    let share = match game.draw_claimant {
        Some(first) => {
            if first.same(&caller) {
                return Err(ErrorCode::StakeAlreadyClaimed);
            }
            game.stake_total
        },
        None => game.stake_total / 2,
    };
    let rest = game.stake_total - share;
    let effect = Effect::Payout {
        to: caller,
        amount: share,
        close_to: if rest == 0 {
            Some(game.player_one)
        } else {
            None
        },
    };
    game.stake_total = rest;
    game.draw_claimant = Some(caller);
    if rest == 0 {
        game.state = GameState::Settled;
    }
    Ok(effect)
}

} // verus!
