use sol_xos::{
    claim_draw_stake, claim_winnings, create_game, forfeit, join_game, leave_game, make_move, Effect,
    ErrorCode, Game, GameState, PlayerId, PlayerMark,
};

fn ann() -> PlayerId {
    PlayerId::new([7u8; 32])
}

fn ben() -> PlayerId {
    PlayerId::new([9u8; 32])
}

fn eve() -> PlayerId {
    let mut bytes = [7u8; 32];
    bytes[31] = 8;
    PlayerId::new(bytes)
}

fn waiting() -> Game {
    create_game(ann(), 10).unwrap().0
}

fn playing() -> Game {
    let mut game = waiting();
    join_game(&mut game, ben(), 10).unwrap();
    game
}

fn moves(game: &mut Game, cells: &[u8]) {
    for (n, cell) in cells.iter().enumerate() {
        let who = if n % 2 == 0 { ann() } else { ben() };
        make_move(game, who, cell / 3, cell % 3).unwrap();
    }
}

fn won_by_ann() -> Game {
    let mut game = playing();
    moves(&mut game, &[0, 3, 1, 4, 2]);
    game
}

fn drawn() -> Game {
    let mut game = playing();
    moves(&mut game, &[0, 1, 2, 4, 3, 5, 7, 6, 8]);
    game
}

#[test]
fn zero_stake_is_refused() {
    assert_eq!(create_game(ann(), 0), Err(ErrorCode::ZeroStakeNotAllowed));
    assert!(create_game(ann(), 1).is_ok());
    assert!(create_game(ann(), u64::MAX).is_ok());
}

#[test]
fn join_after_start_is_refused() {
    let mut game = playing();
    let before = game;
    assert_eq!(join_game(&mut game, eve(), 20), Err(ErrorCode::GameAlreadyStartedOrFull));
    assert_eq!(join_game(&mut game, eve(), 10), Err(ErrorCode::GameAlreadyStartedOrFull));
    assert_eq!(game, before);
    let mut over = won_by_ann();
    assert_eq!(join_game(&mut over, eve(), 20), Err(ErrorCode::GameAlreadyStartedOrFull));
    let mut even = drawn();
    assert_eq!(join_game(&mut even, eve(), 20), Err(ErrorCode::GameAlreadyStartedOrFull));
}

#[test]
fn creator_cannot_join_own_match() {
    let mut game = waiting();
    let before = game;
    assert_eq!(join_game(&mut game, ann(), 10), Err(ErrorCode::CannotJoinOwnGame));
    // The creator is turned away before the stake is looked at.
    assert_eq!(join_game(&mut game, ann(), 11), Err(ErrorCode::CannotJoinOwnGame));
    assert_eq!(game, before);
}

#[test]
fn mismatched_stake_is_refused_and_escrow_untouched() {
    let mut game = waiting();
    let before = game;
    assert_eq!(join_game(&mut game, ben(), 9), Err(ErrorCode::StakeMismatch));
    assert_eq!(join_game(&mut game, ben(), 11), Err(ErrorCode::StakeMismatch));
    assert_eq!(join_game(&mut game, ben(), 0), Err(ErrorCode::StakeMismatch));
    assert_eq!(join_game(&mut game, ben(), u64::MAX), Err(ErrorCode::StakeMismatch));
    assert_eq!(game, before);
    assert_eq!(game.stake_total, 10);
    assert_eq!(game.state, GameState::WaitingForSecondPlayer);
    assert_eq!(game.player_two, None);
}

#[test]
fn identities_differing_in_one_byte_are_different_players() {
    assert!(ann().same(&ann()));
    assert!(!ann().same(&eve()));
    assert!(!eve().same(&ann()));
    let mut first = [0u8; 32];
    first[0] = 1;
    assert!(!PlayerId::new(first).same(&PlayerId::new([0u8; 32])));
    let mut game = waiting();
    assert_eq!(join_game(&mut game, eve(), 10), Ok(Effect::Deposit { from: eve(), amount: 10 }));
    assert_eq!(game.player_two, Some(eve()));
}

#[test]
fn move_before_start_or_after_end_is_refused() {
    let mut game = waiting();
    let before = game;
    assert_eq!(make_move(&mut game, ann(), 0, 0), Err(ErrorCode::GameNotActive));
    assert_eq!(game, before);
    let mut over = won_by_ann();
    let before = over;
    assert_eq!(make_move(&mut over, ben(), 2, 2), Err(ErrorCode::GameNotActive));
    assert_eq!(over, before);
    let mut even = drawn();
    assert_eq!(make_move(&mut even, ann(), 0, 0), Err(ErrorCode::GameNotActive));
}

#[test]
fn move_by_a_stranger_is_refused() {
    let mut game = playing();
    let before = game;
    assert_eq!(make_move(&mut game, eve(), 0, 0), Err(ErrorCode::NotAPlayer));
    // A stranger is turned away before the coordinates are looked at.
    assert_eq!(make_move(&mut game, eve(), 9, 9), Err(ErrorCode::NotAPlayer));
    assert_eq!(game, before);
}

#[test]
fn move_out_of_turn_is_refused() {
    let mut game = playing();
    let before = game;
    assert_eq!(make_move(&mut game, ben(), 0, 0), Err(ErrorCode::NotYourTurn));
    assert_eq!(game, before);
    make_move(&mut game, ann(), 0, 0).unwrap();
    let before = game;
    assert_eq!(make_move(&mut game, ann(), 1, 1), Err(ErrorCode::NotYourTurn));
    assert_eq!(game, before);
}

#[test]
fn move_off_the_board_is_refused() {
    let mut game = playing();
    let before = game;
    assert_eq!(make_move(&mut game, ann(), 3, 0), Err(ErrorCode::InvalidMoveCoordinates));
    assert_eq!(make_move(&mut game, ann(), 0, 3), Err(ErrorCode::InvalidMoveCoordinates));
    assert_eq!(make_move(&mut game, ann(), 3, 3), Err(ErrorCode::InvalidMoveCoordinates));
    assert_eq!(make_move(&mut game, ann(), 255, 255), Err(ErrorCode::InvalidMoveCoordinates));
    assert_eq!(game, before);
    assert_eq!(make_move(&mut game, ann(), 2, 2), Ok(Effect::Nothing));
    assert_eq!(game.board[2][2], Some(PlayerMark::X));
}

#[test]
fn move_onto_an_occupied_cell_is_refused_and_board_unchanged() {
    let mut game = playing();
    make_move(&mut game, ann(), 1, 1).unwrap();
    let before = game;
    // Onto the opponent's mark.
    assert_eq!(make_move(&mut game, ben(), 1, 1), Err(ErrorCode::CellAlreadyOccupied));
    assert_eq!(game, before);
    assert_eq!(game.board[1][1], Some(PlayerMark::X));
    assert_eq!(game.turn, ben());
    make_move(&mut game, ben(), 0, 0).unwrap();
    make_move(&mut game, ann(), 2, 2).unwrap();
    let before = game;
    // Onto one's own mark.
    assert_eq!(make_move(&mut game, ben(), 0, 0), Err(ErrorCode::CellAlreadyOccupied));
    assert_eq!(game.board, before.board);
    assert_eq!(game, before);
}

#[test]
fn leave_after_start_is_refused() {
    let mut game = playing();
    let before = game;
    assert_eq!(leave_game(&mut game, ann()), Err(ErrorCode::GameAlreadyStartedOrFull));
    assert_eq!(game, before);
}

#[test]
fn leave_by_anyone_but_the_creator_is_refused() {
    let mut game = waiting();
    let before = game;
    assert_eq!(leave_game(&mut game, ben()), Err(ErrorCode::NotAPlayer));
    assert_eq!(game, before);
}

#[test]
fn forfeit_outside_play_is_refused() {
    let mut game = waiting();
    assert_eq!(forfeit(&mut game, ann()), Err(ErrorCode::GameNotActive));
    let mut over = won_by_ann();
    let before = over;
    assert_eq!(forfeit(&mut over, ben()), Err(ErrorCode::GameNotActive));
    assert_eq!(over, before);
    let mut even = drawn();
    assert_eq!(forfeit(&mut even, ben()), Err(ErrorCode::GameNotActive));
}

#[test]
fn forfeit_by_a_stranger_is_refused() {
    let mut game = playing();
    let before = game;
    assert_eq!(forfeit(&mut game, eve()), Err(ErrorCode::NotAPlayer));
    assert_eq!(game, before);
}

#[test]
fn winnings_are_refused_unless_the_match_was_won() {
    let mut game = waiting();
    assert_eq!(claim_winnings(&mut game, ann()), Err(ErrorCode::GameNotEnded));
    let mut game = playing();
    let before = game;
    assert_eq!(claim_winnings(&mut game, ann()), Err(ErrorCode::GameNotEnded));
    assert_eq!(game, before);
    let mut even = drawn();
    assert_eq!(claim_winnings(&mut even, ann()), Err(ErrorCode::GameNotEnded));
}

#[test]
fn winnings_are_refused_to_anyone_but_the_winner() {
    let mut game = won_by_ann();
    let before = game;
    assert_eq!(claim_winnings(&mut game, ben()), Err(ErrorCode::NotTheWinner));
    assert_eq!(claim_winnings(&mut game, eve()), Err(ErrorCode::NotTheWinner));
    assert_eq!(game, before);
    assert_eq!(game.stake_total, 20);
}

#[test]
fn winnings_cannot_be_collected_twice() {
    let mut game = won_by_ann();
    assert_eq!(
        claim_winnings(&mut game, ann()),
        Ok(Effect::Payout { to: ann(), amount: 20, close_to: Some(ann()) })
    );
    let before = game;
    assert_eq!(claim_winnings(&mut game, ann()), Err(ErrorCode::GameNotEnded));
    assert_eq!(game, before);
}

#[test]
fn draw_share_is_refused_unless_the_match_was_drawn() {
    let mut game = playing();
    let before = game;
    assert_eq!(claim_draw_stake(&mut game, ann()), Err(ErrorCode::GameNotDraw));
    assert_eq!(game, before);
    let mut over = won_by_ann();
    assert_eq!(claim_draw_stake(&mut over, ann()), Err(ErrorCode::GameNotDraw));
}

#[test]
fn draw_share_is_refused_to_a_stranger() {
    let mut game = drawn();
    let before = game;
    assert_eq!(claim_draw_stake(&mut game, eve()), Err(ErrorCode::NotAPlayer));
    assert_eq!(game, before);
}

#[test]
fn draw_share_cannot_be_claimed_twice_by_one_player() {
    let mut game = drawn();
    assert_eq!(
        claim_draw_stake(&mut game, ann()),
        Ok(Effect::Payout { to: ann(), amount: 10, close_to: None })
    );
    let before = game;
    assert_eq!(claim_draw_stake(&mut game, ann()), Err(ErrorCode::StakeAlreadyClaimed));
    assert_eq!(game, before);
    assert_eq!(game.stake_total, 10);
    assert_eq!(
        claim_draw_stake(&mut game, ben()),
        Ok(Effect::Payout { to: ben(), amount: 10, close_to: Some(ann()) })
    );
    assert_eq!(claim_draw_stake(&mut game, ben()), Err(ErrorCode::GameNotDraw));
    assert_eq!(claim_draw_stake(&mut game, ann()), Err(ErrorCode::GameNotDraw));
}

#[test]
fn every_refusal_has_its_own_sentence() {
    let all = [
        ErrorCode::GameAlreadyStartedOrFull,
        ErrorCode::CannotJoinOwnGame,
        ErrorCode::StakeMismatch,
        ErrorCode::NotYourTurn,
        ErrorCode::InvalidMoveCoordinates,
        ErrorCode::CellAlreadyOccupied,
        ErrorCode::ZeroStakeNotAllowed,
        ErrorCode::NotAPlayer,
        ErrorCode::GameNotActive,
        ErrorCode::GameNotEnded,
        ErrorCode::GameNotDraw,
        ErrorCode::NotTheWinner,
        ErrorCode::StakeAlreadyClaimed,
    ];
    for (i, a) in all.iter().enumerate() {
        assert!(!a.message().is_empty());
        for b in all.iter().skip(i + 1) {
            assert_ne!(a.message(), b.message());
        }
    }
    assert_eq!(ErrorCode::CannotJoinOwnGame.message(), "You cannot join your own game.");
    assert_eq!(
        ErrorCode::StakeMismatch.message(),
        "The stake amount does not match the initial stake."
    );
    assert_eq!(ErrorCode::NotYourTurn.message(), "It's not your turn.");
    assert_eq!(
        ErrorCode::InvalidMoveCoordinates.message(),
        "Invalid move coordinates. Row and column must be between 0 and 2."
    );
    assert_eq!(
        ErrorCode::CellAlreadyOccupied.message(),
        "The selected cell is already occupied."
    );
    assert_eq!(ErrorCode::ZeroStakeNotAllowed.message(), "Stake amount cannot be zero.");
    assert_eq!(ErrorCode::NotAPlayer.message(), "You are not a player in this game.");
}
