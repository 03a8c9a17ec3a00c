//! The events that the lobby and the session pool hand out, each addressed
//! to a user by the caller that delivers it.
use vstd::prelude::*;

use crate::domain::{GameId, UserId};
use crate::ttt::{TttAction, TttActionResult, TttUsers};

verus! {

/// Lobby to session pool: two tickets were paired into a new session.
#[derive(Debug, Clone, Copy, PartialEq, Eq, Structural)]
pub struct StartGame {
    pub users: TttUsers,
    pub game_id: GameId,
}

/// Lobby to a waiting user: you were paired into this session.
#[derive(Debug, Clone, Copy, PartialEq, Eq, Structural)]
pub struct NewGame(pub GameId);

/// The pairing notices of a new session: one to each player, with the same id.
pub open spec fn pair_notices(s: StartGame) -> Seq<(UserId, NewGame)> {
    seq![(s.users.0, NewGame(s.game_id)), (s.users.1, NewGame(s.game_id))]
}

impl StartGame {
    /// Tells each of the two players the id of their session.
    pub fn notices(&self) -> (r: Vec<(UserId, NewGame)>)
        ensures
            r@ == pair_notices(*self),
    {
        let mut r: Vec<(UserId, NewGame)> = Vec::new();
        r.push((self.users.0, NewGame(self.game_id)));
        r.push((self.users.1, NewGame(self.game_id)));
        assert(r@ =~= pair_notices(*self));
        r
    }
}

/// A user asks to act in a session.
#[derive(Debug, Clone, Copy, PartialEq, Eq, Structural)]
pub struct DoAction {
    pub user_id: UserId,
    pub game_id: GameId,
    pub action: TttAction,
}

/// Session pool to a player: what came of an action of `user_id`.
#[derive(Debug, Clone, Copy, PartialEq, Eq, Structural)]
pub struct ActionOutcome {
    pub user_id: UserId,
    pub game_id: GameId,
    pub result: TttActionResult,
}

/// Session pool to a player: both players have joined, the game begins.
#[derive(Debug, Clone, Copy, PartialEq, Eq, Structural)]
pub struct Fight {
    pub game_id: GameId,
}

} // verus!
