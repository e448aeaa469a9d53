use vstd::prelude::*;
use crate::board::{has_line, is_full};
use crate::error::ErrorCode;
use crate::game::{GameModel, GameState};
use crate::history::{Account, Call};
use crate::identity::PlayerId;
use crate::rules::created;

verus! {

/// A freshly created match is well formed.
pub proof fn created_is_well_formed(creator: PlayerId, stake: nat)
    requires
        stake > 0,
    ensures
        created(creator, stake).inv(),
{
}

/// Every accepted call takes a well-formed match to a well-formed match. In
/// particular the turn stays with a registered player while the match is
/// played, and a winner is recorded only when the match ends.
pub proof fn accepted_call_keeps_well_formed(game: GameModel, call: Call)
    requires
        game.inv(),
        call.error(game) is None,
    ensures
        call.next(game).inv(),
{
    match call {
        Call::Move { who, row, col } => {
            let mark = game.mark_of(who);
            let cells = game.cells.update(3 * row + col, Some(mark));
            assert(cells[3 * row + col] == Some(mark));
            if !has_line(cells, mark) && !is_full(cells) {
                assert(game.opponent(who) is Some);
            }
        },
        _ => {},
    }
}

/// Cells are write-once: an accepted call never changes or clears a cell
/// that holds a mark, and only a move marks a cell, exactly the one it
/// names, with the mover's mark.
pub proof fn marks_are_permanent(game: GameModel, call: Call)
    requires
        game.inv(),
        call.error(game) is None,
    ensures
        forall|i: int| 0 <= i < 9 && game.cells[i] is Some ==> call.next(game).cells[i] == game.cells[i],
        call matches Call::Move { who, row, col } ==> call.next(game).cells == game.cells.update(
            3 * row + col,
            Some(game.mark_of(who)),
        ),
        !(call is Move) ==> call.next(game).cells == game.cells,
{
}

/// A refused call changes nothing: not the match, not what has entered or
/// left its escrow.
pub proof fn refusal_changes_nothing(account: Account, call: Call)
    requires
        call.error(account.game) is Some,
    ensures
        account.after(call) == account,
{
}

/// A move onto an occupied cell is refused, whoever makes it; the refusal
/// is `CellAlreadyOccupied` whenever it is the mover's turn in a match that
/// is being played.
pub proof fn occupied_cell_is_refused(game: GameModel, who: PlayerId, row: int, col: int)
    requires
        0 <= row < 3,
        0 <= col < 3,
        game.cells[3 * row + col] is Some,
    ensures
        game.move_error(who, row, col) is Some,
        game.state == GameState::Playing && game.is_player(who) && who == game.turn ==> game.move_error(
            who,
            row,
            col,
        ) == Some(ErrorCode::CellAlreadyOccupied),
{
}

/// Joining with a stake other than the escrowed one is refused, whoever
/// tries; the refusal is `StakeMismatch` whenever the match is waiting and
/// the newcomer is not its creator.
pub proof fn mismatched_stake_is_refused(game: GameModel, who: PlayerId, stake: nat)
    requires
        stake != game.stake_total,
    ensures
        game.join_error(who, stake) is Some,
        game.state == GameState::WaitingForSecondPlayer && who != game.player_one ==> game.join_error(who, stake)
            == Some(ErrorCode::StakeMismatch),
{
}

/// A settled match refuses every call: nothing is ever paid out of it again.
pub proof fn settled_is_final(game: GameModel, call: Call)
    requires
        game.state == GameState::Settled,
    ensures
        call.error(game) is Some,
{
}

/// The record is destroyed by exactly the calls that settle the match.
pub proof fn closed_when_settled(game: GameModel, call: Call)
    requires
        call.error(game) is None,
    ensures
        call.flow(game).closes() <==> call.next(game).state == GameState::Settled,
{
}

/// An accepted call changes the escrow by exactly what it has the
/// environment move.
pub proof fn escrow_follows_flow(game: GameModel, call: Call)
    requires
        call.error(game) is None,
    ensures
        call.next(game).stake_total + call.flow(game).disbursed() == game.stake_total + call.flow(
            game,
        ).deposited(),
{
    match call {
        Call::ClaimDrawStake { who } => {
            assert(game.draw_share() <= game.stake_total);
        },
        _ => {},
    }
}

/// No value is created or destroyed. After any sequence of calls on a match
/// that was created with a positive stake, what has been put in equals what
/// has been paid out plus what the escrow still holds; the match is well
/// formed; and once it is settled, everything that was put in has been paid
/// out.
pub proof fn value_is_conserved(creator: PlayerId, stake: nat, calls: Seq<Call>)
    requires
        stake > 0,
    ensures
        Account::opened(creator, stake).after_all(calls).balanced(),
        Account::opened(creator, stake).after_all(calls).game.inv(),
        Account::opened(creator, stake).after_all(calls).game.state == GameState::Settled ==> Account::opened(
            creator,
            stake,
        ).after_all(calls).disbursed == Account::opened(creator, stake).after_all(calls).deposited,
    decreases calls.len(),
{
    let start = Account::opened(creator, stake);
    if calls.len() == 0 {
        created_is_well_formed(creator, stake);
    } else {
        value_is_conserved(creator, stake, calls.drop_last());
        let before = start.after_all(calls.drop_last());
        let call = calls.last();
        if call.error(before.game) is None {
            accepted_call_keeps_well_formed(before.game, call);
            escrow_follows_flow(before.game, call);
        }
    }
}

/// Nobody takes a share of a drawn pot twice: once a claim of `who` has been
/// accepted, every further claim of `who` is refused.
pub proof fn share_is_claimed_once(game: GameModel, who: PlayerId)
    requires
        game.draw_claim_error(who) is None,
    ensures
        game.draw_claimed(who).draw_claim_error(who) is Some,
{
}

/// A drawn pot is split without loss. When the two players of a drawn,
/// unclaimed match each claim once, in either order, the first receives half
/// of the pot rounded down, the second the rest, the two amounts add up to
/// the pot, odd or even, and the match is then settled with an empty escrow.
pub proof fn draw_split_is_exact(game: GameModel, first: PlayerId, second: PlayerId)
    requires
        game.inv(),
        game.state == GameState::Draw,
        game.draw_claimant is None,
        game.is_player(first),
        game.is_player(second),
        first != second,
    ensures
        game.draw_claim_error(first) is None,
        game.draw_claimed(first).draw_claim_error(second) is None,
        game.draw_payout(first).disbursed() == game.stake_total / 2,
        game.draw_claimed(first).draw_payout(second).disbursed() == game.stake_total - game.stake_total / 2,
        game.draw_payout(first).disbursed() + game.draw_claimed(first).draw_payout(second).disbursed()
            == game.stake_total,
        game.draw_claimed(first).draw_claimed(second).state == GameState::Settled,
        game.draw_claimed(first).draw_claimed(second).stake_total == 0,
        game.draw_claimed(first).draw_claim_error(first) == Some(ErrorCode::StakeAlreadyClaimed),
{
}

} // verus!
