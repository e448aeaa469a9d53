use vstd::prelude::*;
use crate::board::{cells, has_line, is_full, Board, PlayerMark};
use crate::identity::PlayerId;

verus! {

/// The phase of a match.
#[derive(Clone, Copy, Debug, PartialEq, Eq, Structural)]
pub enum GameState {
    /// Created and funded by the first player; nobody has joined.
    WaitingForSecondPlayer,
    /// Both stakes are in escrow and moves are being made.
    Playing,
    /// Three in a row was completed; the pot awaits the winner.
    Ended,
    /// The board filled up without a winner; the pot awaits both players.
    Draw,
    /// The escrow has been paid out in full. Nothing more can happen.
    Settled,
}

/// The record of one match.
#[derive(Clone, Copy, Debug, PartialEq, Eq)]
pub struct Game {
    pub player_one: PlayerId,
    pub player_two: Option<PlayerId>,
    /// Who must move next.
    pub turn: PlayerId,
    pub board: Board,
    pub state: GameState,
    /// What the record holds in escrow.
    pub stake_total: u64,
    pub winner: Option<PlayerId>,
    /// The player who has already taken a share of a drawn pot.
    pub draw_claimant: Option<PlayerId>,
}

/// A match as a mathematical value: the board as nine cells in row-major
/// order, the escrow as a natural number.
pub struct GameModel {
    pub player_one: PlayerId,
    pub player_two: Option<PlayerId>,
    pub turn: PlayerId,
    pub cells: Seq<Option<PlayerMark>>,
    pub state: GameState,
    pub stake_total: nat,
    pub winner: Option<PlayerId>,
    pub draw_claimant: Option<PlayerId>,
}

impl View for Game {
    type V = GameModel;

    open spec fn view(&self) -> GameModel {
        GameModel {
            player_one: self.player_one,
            player_two: self.player_two,
            turn: self.turn,
            cells: cells(self.board),
            state: self.state,
            stake_total: self.stake_total as nat,
            winner: self.winner,
            draw_claimant: self.draw_claimant,
        }
    }
}

impl GameModel {
    /// Whether `who` is one of the registered players.
    pub open spec fn is_player(self, who: PlayerId) -> bool {
        who == self.player_one || self.player_two == Some(who)
    }

    /// The registered player facing `who`, if `who` is registered and has one.
    pub open spec fn opponent(self, who: PlayerId) -> Option<PlayerId> {
        if who == self.player_one {
            self.player_two
        } else if self.player_two == Some(who) {
            Some(self.player_one)
        } else {
            None
        }
    }

    /// The mark that `who` plays: X for the first player, O for the other.
    pub open spec fn mark_of(self, who: PlayerId) -> PlayerMark {
        if who == self.player_one {
            PlayerMark::X
        } else {
            PlayerMark::O
        }
    }

    /// Whether two distinct players are registered.
    pub open spec fn seated(self) -> bool {
        self.player_two is Some && self.player_two != Some(self.player_one)
    }

    /// What holds of every match that was created and then driven only by
    /// the operations of this library.
    pub open spec fn inv(self) -> bool {
        &&& self.cells.len() == 9
        &&& match self.state {
            GameState::WaitingForSecondPlayer => {
                &&& self.player_two is None
                &&& self.turn == self.player_one
                &&& self.winner is None
                &&& self.draw_claimant is None
                &&& self.stake_total > 0
                &&& forall|i: int| 0 <= i < 9 ==> (#[trigger] self.cells[i]) is None
            },
            GameState::Playing => {
                &&& self.seated()
                &&& self.is_player(self.turn)
                &&& self.winner is None
                &&& self.draw_claimant is None
                &&& self.stake_total > 0
                &&& !has_line(self.cells, PlayerMark::X)
                &&& !has_line(self.cells, PlayerMark::O)
                &&& !is_full(self.cells)
            },
            GameState::Ended => {
                &&& self.seated()
                &&& self.winner matches Some(w)
                &&& self.is_player(w)
                &&& has_line(self.cells, self.mark_of(w))
                &&& self.draw_claimant is None
                &&& self.stake_total > 0
            },
            GameState::Draw => {
                &&& self.seated()
                &&& self.winner is None
                &&& is_full(self.cells)
                &&& !has_line(self.cells, PlayerMark::X)
                &&& !has_line(self.cells, PlayerMark::O)
                &&& self.stake_total > 0
                &&& (self.draw_claimant matches Some(c) ==> self.is_player(c))
            },
            GameState::Settled => self.stake_total == 0,
        }
    }
}

impl Game {
    /// The registered player facing `who`, if `who` is registered and has one.
    pub fn opponent(&self, who: &PlayerId) -> (other: Option<PlayerId>)
        ensures
            other == self@.opponent(*who),
    {
        if who.same(&self.player_one) {
            self.player_two
        } else {
            match self.player_two {
                Some(second) => {
                    if who.same(&second) {
                        Some(self.player_one)
                    } else {
                        None
                    }
                },
                None => None,
            }
        }
    }
}

/// A record is determined by its model: two records with the same model
/// are the same record.
pub proof fn model_determines_record(a: Game, b: Game)
    requires
        a@ == b@,
    ensures
        a == b,
{
    assert forall|r: int| 0 <= r < 3 implies a.board[r] == b.board[r] by {
        assert forall|c: int| 0 <= c < 3 implies a.board[r][c] == b.board[r][c] by {
            assert(a@.cells[3 * r + c] == a.board[r][c]);
            assert(b@.cells[3 * r + c] == b.board[r][c]);
        }
        assert(a.board[r] =~= b.board[r]);
    }
    assert(a.board =~= b.board);
}

} // verus!
