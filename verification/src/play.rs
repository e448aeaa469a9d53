use vstd::prelude::*;
use crate::board::{check_draw, check_win, cells, PlayerMark};
use crate::effect::Effect;
use crate::error::ErrorCode;
use crate::game::{Game, GameState};
use crate::history::Call;
use crate::identity::PlayerId;
use crate::laws::accepted_call_keeps_well_formed;
use crate::rules::{create_error, created};

verus! {

/// Opens a match: `player_one` puts `stake_amount` into escrow and waits for
/// an opponent. A zero stake is refused.
pub fn create_game(player_one: PlayerId, stake_amount: u64) -> (r: Result<(Game, Effect), ErrorCode>)
    ensures
        match create_error(stake_amount as nat) {
            Some(e) => r == Err::<(Game, Effect), ErrorCode>(e),
            None => r matches Ok((game, effect)) && game@ == created(player_one, stake_amount as nat)
                && effect == (Effect::Deposit { from: player_one, amount: stake_amount })
                && game@.inv(),
        },
{
    if stake_amount == 0 {
        return Err(ErrorCode::ZeroStakeNotAllowed);
    }
    let game = Game {
        player_one,
        player_two: None,
        turn: player_one,
        board: [[None; 3]; 3],
        state: GameState::WaitingForSecondPlayer,
        stake_total: stake_amount,
        winner: None,
        draw_claimant: None,
    };
    assert(game@.cells =~= created(player_one, stake_amount as nat).cells);
    Ok((game, Effect::Deposit { from: player_one, amount: stake_amount }))
}

/// Seats `player_two` opposite the creator. The newcomer must not be the
/// creator and must match the escrowed stake exactly; the stake then goes
/// into escrow and play begins.
pub fn join_game(game: &mut Game, player_two: PlayerId, stake_amount: u64) -> (r: Result<Effect, ErrorCode>)
    requires
        old(game)@.join_error(player_two, stake_amount as nat) is None ==> old(game).stake_total
            + stake_amount <= u64::MAX,
    ensures
        match old(game)@.join_error(player_two, stake_amount as nat) {
            Some(e) => r == Err::<Effect, ErrorCode>(e) && *final(game) == *old(game),
            None => r == Ok::<Effect, ErrorCode>(Effect::Deposit { from: player_two, amount: stake_amount })
                && final(game)@ == old(game)@.joined(player_two, stake_amount as nat),
        },
        old(game)@.inv() ==> final(game)@.inv(),
{
    if game.state != GameState::WaitingForSecondPlayer {
        return Err(ErrorCode::GameAlreadyStartedOrFull);
    }
    if player_two.same(&game.player_one) {
        return Err(ErrorCode::CannotJoinOwnGame);
    }
    if stake_amount != game.stake_total {
        return Err(ErrorCode::StakeMismatch);
    }
    game.player_two = Some(player_two);
    game.state = GameState::Playing;
    game.stake_total = game.stake_total + stake_amount;
    Ok(Effect::Deposit { from: player_two, amount: stake_amount })
}

/// Withdraws the creator `player_one` from a match that nobody has joined:
/// the escrow goes back and the record is destroyed.
pub fn leave_game(game: &mut Game, player_one: PlayerId) -> (r: Result<Effect, ErrorCode>)
    ensures
        match old(game)@.leave_error(player_one) {
            Some(e) => r == Err::<Effect, ErrorCode>(e) && *final(game) == *old(game),
            None => r matches Ok(effect) && effect@ == old(game)@.full_payout(player_one)
                && final(game)@ == old(game)@.paid_out(),
        },
        old(game)@.inv() ==> final(game)@.inv(),
{
    if game.state != GameState::WaitingForSecondPlayer {
        return Err(ErrorCode::GameAlreadyStartedOrFull);
    }
    if !player_one.same(&game.player_one) {
        return Err(ErrorCode::NotAPlayer);
    }
    let effect = Effect::Payout {
        to: player_one,
        amount: game.stake_total,
        close_to: Some(game.player_one),
    };
    game.stake_total = 0;
    game.state = GameState::Settled;
    Ok(effect)
}

/// Marks the cell at `row`, `col` for `player`, whose turn it must be, and
/// evaluates the board at once: a completed line of the mover's mark ends
/// the match in the mover's favour; otherwise a full board is a draw;
/// otherwise the turn passes to the opponent. No value moves.
pub fn make_move(game: &mut Game, player: PlayerId, row: u8, col: u8) -> (r: Result<Effect, ErrorCode>)
    ensures
        match old(game)@.move_error(player, row as int, col as int) {
            Some(e) => r == Err::<Effect, ErrorCode>(e) && *final(game) == *old(game),
            None => r == Ok::<Effect, ErrorCode>(Effect::Nothing) && final(game)@ == old(game)@.moved(
                player,
                row as int,
                col as int,
            ),
        },
        old(game)@.inv() ==> final(game)@.inv(),
{
    if game.state != GameState::Playing {
        return Err(ErrorCode::GameNotActive);
    }
    let other = game.opponent(&player);
    let mark = if player.same(&game.player_one) {
        PlayerMark::X
    } else if other.is_some() {
        PlayerMark::O
    } else {
        return Err(ErrorCode::NotAPlayer);
    };
    if !game.turn.same(&player) {
        return Err(ErrorCode::NotYourTurn);
    }
    if row >= 3 || col >= 3 {
        return Err(ErrorCode::InvalidMoveCoordinates);
    }
    if game.board[row as usize][col as usize].is_some() {
        return Err(ErrorCode::CellAlreadyOccupied);
    }
    game.board[row as usize][col as usize] = Some(mark);
    proof {
        assert(cells(game.board) =~= old(game)@.cells.update(3 * row + col, Some(mark)));
        if old(game)@.inv() {
            accepted_call_keeps_well_formed(old(game)@, Call::Move { who: player, row: row as int, col: col as int });
        }
    }
    if check_win(&game.board, mark) {
        game.winner = Some(player);
        game.state = GameState::Ended;
    } else if check_draw(&game.board) {
        game.state = GameState::Draw;
    } else {
        match other {
            Some(next) => {
                game.turn = next;
            },
            None => {},
        }
    }
    Ok(Effect::Nothing)
}

/// Concedes the match for `player`: the whole escrow goes to the opponent
/// and the record is destroyed, whatever stands on the board.
pub fn forfeit(game: &mut Game, player: PlayerId) -> (r: Result<Effect, ErrorCode>)
    ensures
        match old(game)@.forfeit_error(player) {
            Some(e) => r == Err::<Effect, ErrorCode>(e) && *final(game) == *old(game),
            None => r matches Ok(effect) && effect@ == old(game)@.full_payout(
                old(game)@.opponent(player).unwrap(),
            ) && final(game)@ == old(game)@.paid_out(),
        },
        old(game)@.inv() ==> final(game)@.inv(),
{
    if game.state != GameState::Playing {
        return Err(ErrorCode::GameNotActive);
    }
    match game.opponent(&player) {
        None => Err(ErrorCode::NotAPlayer),
        Some(other) => {
            let effect = Effect::Payout {
                to: other,
                amount: game.stake_total,
                close_to: Some(game.player_one),
            };
            game.stake_total = 0;
            game.state = GameState::Settled;
            Ok(effect)
        },
    }
}

} // verus!
