//! The coordinator between connected users, the lobby and the session pool:
//! it takes each user's request in turn and says which user is to be sent
//! which event.
use vstd::prelude::*;

use crate::domain::{GameId, UserId};
use crate::gamepool::{
    enter_game_step, game_action_step, is_playing, plays_in, session_start, DoGameActionError,
    EnterGameError, SessionModel, TttGamePool,
};
use crate::lobby::{
    add_ticket_step, find_match, is_waiting, lemma_find_match, lemma_no_self_match,
    lemma_remove_keeps, lemma_remove_waiting, lemma_without_user, unique_users, without_user,
    LobbyModel, Ticket, TttInfo, TttLobby, DEFAULT_RATING,
};
use crate::messages::{pair_notices, ActionOutcome, DoAction, Fight, NewGame};
use crate::ttt::TttWish;

verus! {

/// Why a user's ticket was refused.
#[derive(Debug, Clone, Copy, PartialEq, Eq, Structural)]
pub enum SetTicketError {
    /// The user plays in a session that has not ended.
    AlreadyPlaying,
}

/// The server's state, as values.
pub struct ServerModel {
    pub lobby: LobbyModel,
    pub pool: Map<GameId, SessionModel>,
}

/// The lobby and the pool are well formed; every session has two distinct
/// players and an id that the lobby has handed out, so no id is used twice;
/// and no user waits in the lobby while playing in a session.
pub open spec fn server_wf(m: ServerModel) -> bool {
    &&& unique_users(m.lobby.tickets)
    &&& forall|u: UserId| #[trigger] is_waiting(m.lobby.tickets, u) ==> !is_playing(m.pool, u)
    &&& forall|g: GameId| #[trigger]
        m.pool.contains_key(g) ==> {
            &&& m.pool[g].wf()
            &&& m.pool[g].users.0 != m.pool[g].users.1
            &&& g <= m.lobby.counter
        }
}

/// Sessions only leave off being played: a user playing in `p1` plays in `p`.
proof fn lemma_playing_shrinks(p: Map<GameId, SessionModel>, p1: Map<GameId, SessionModel>, u: UserId)
    requires
        forall|g: GameId|
            p1.contains_key(g) && #[trigger] plays_in(p1[g], u) ==> p.contains_key(g) && plays_in(
                p[g],
                u,
            ),
    ensures
        is_playing(p1, u) ==> is_playing(p, u),
{
    if is_playing(p1, u) {
        let g = choose|g: GameId| p1.contains_key(g) && #[trigger] plays_in(p1[g], u);
        assert(plays_in(p[g], u));
    }
}

/// The lobby and the session pool of one kind of game.
pub struct GameServer {
    lobby: TttLobby,
    gamepool: TttGamePool,
}

impl View for GameServer {
    type V = ServerModel;

    closed spec fn view(&self) -> ServerModel {
        ServerModel { lobby: self.lobby@, pool: self.gamepool@ }
    }
}

impl GameServer {
    pub closed spec fn wf(&self) -> bool {
        &&& server_wf(self@)
        &&& self.gamepool.wf()
    }

    /// No user holds a ticket in the lobby while playing in a session that
    /// has not ended.
    pub proof fn lemma_waiting_not_playing(&self, u: UserId)
        requires
            self.wf(),
        ensures
            is_waiting(self@.lobby.tickets, u) ==> !is_playing(self@.pool, u),
    {
    }

    /// No ticket waits and no session runs.
    pub fn new() -> (r: GameServer)
        ensures
            r@.lobby.tickets == Seq::<Ticket>::empty(),
            r@.lobby.counter == 0,
            r@.pool == Map::<GameId, SessionModel>::empty(),
            r.wf(),
    {
        GameServer { lobby: TttLobby::with_communication(), gamepool: TttGamePool::new() }
    }

    /// Session ids are left to hand out.
    pub fn can_pair(&self) -> (r: bool)
        ensures
            r == (self@.lobby.counter < u64::MAX),
    {
        self.lobby.game_counter() < u64::MAX
    }

    /// User `user_id` looks for an opponent with `wish`. A user who plays in
    /// a session that has not ended is refused. When the lobby pairs them,
    /// the session is registered and both players are to be told its id.
    pub fn find_pair(&mut self, user_id: UserId, wish: TttWish) -> (r: Result<
        Vec<(UserId, NewGame)>,
        SetTicketError,
    >)
        requires
            old(self).wf(),
            old(self)@.lobby.counter < u64::MAX,
        ensures
            final(self).wf(),
            is_playing(old(self)@.pool, user_id) ==> r == Err::<Vec<(UserId, NewGame)>, SetTicketError>(
                SetTicketError::AlreadyPlaying,
            ) && final(self)@ == old(self)@,
            !is_playing(old(self)@.pool, user_id) ==> r is Ok && ({
                let (l1, paired) = add_ticket_step(old(self)@.lobby, user_id, wish);
                &&& final(self)@.lobby == l1
                &&& match paired {
                    Some(s) => {
                        &&& final(self)@.pool == old(self)@.pool.insert(
                            s.game_id,
                            session_start(s.users),
                        )
                        &&& r->Ok_0@ == pair_notices(s)
                    },
                    None => final(self)@.pool == old(self)@.pool && r->Ok_0@ == Seq::<
                        (UserId, NewGame),
                    >::empty(),
                }
            }),
    {
        if self.gamepool.check_is_playing(user_id).is_some() {
            return Err(SetTicketError::AlreadyPlaying);
        }
        proof {
            lemma_no_self_match(self@.lobby, user_id, wish);
        }
        let r = match self.lobby.add_ticket(user_id, wish) {
            Some(start) => {
                let created = self.gamepool.new_game(start.game_id, start.users);
                assert(created is Ok);
                let r = start.notices();
                assert forall|g: GameId| #[trigger] self@.pool.contains_key(g) implies {
                    &&& self@.pool[g].wf()
                    &&& self@.pool[g].users.0 != self@.pool[g].users.1
                    &&& g <= self@.lobby.counter
                } by {
                    if g != start.game_id {
                        assert(old(self)@.pool.contains_key(g));
                    }
                }
                proof {
                    let ts = old(self)@.lobby.tickets;
                    let j = find_match(ts, user_id, wish, TttInfo { rating: DEFAULT_RATING }, 0);
                    lemma_find_match(ts, user_id, wish, TttInfo { rating: DEFAULT_RATING }, 0);
                    lemma_remove_keeps(ts, j);
                    lemma_without_user(ts.remove(j), user_id);
                    assert forall|u: UserId| #[trigger] is_waiting(self@.lobby.tickets, u) implies !is_playing(
                        self@.pool,
                        u,
                    ) by {
                        lemma_remove_waiting(ts, j, u);
                        assert forall|g: GameId|
                            self@.pool.contains_key(g) && #[trigger] plays_in(self@.pool[g], u) implies old(
                            self,
                        )@.pool.contains_key(g) && plays_in(old(self)@.pool[g], u) by {
                            assert(g != start.game_id);
                        }
                        lemma_playing_shrinks(old(self)@.pool, self@.pool, u);
                    }
                }
                r
            },
            None => {
                assert forall|g: GameId| #[trigger] self@.pool.contains_key(g) implies {
                    &&& self@.pool[g].wf()
                    &&& self@.pool[g].users.0 != self@.pool[g].users.1
                    &&& g <= self@.lobby.counter
                } by {
                    assert(old(self)@.pool.contains_key(g));
                }
                proof {
                    let ts = old(self)@.lobby.tickets;
                    lemma_without_user(ts, user_id);
                    let before = without_user(ts, user_id);
                    assert forall|u: UserId| #[trigger] is_waiting(self@.lobby.tickets, u) implies !is_playing(
                        self@.pool,
                        u,
                    ) by {
                        if u != user_id {
                            let a = choose|a: int|
                                0 <= a < self@.lobby.tickets.len() && self@.lobby.tickets[a].user_id == u;
                            assert(a < before.len());
                            assert(before[a].user_id == u);
                            assert(is_waiting(before, u));
                            assert(is_waiting(ts, u));
                        } else {
                            assert(!is_playing(old(self)@.pool, user_id));
                        }
                    }
                }
                Vec::new()
            },
        };
        Ok(r)
    }

    /// User `user_id` joins session `game_id`; once both players have, both
    /// are to be told that the game begins.
    pub fn join_to_game(&mut self, user_id: UserId, game_id: GameId) -> (r: Result<
        Vec<(UserId, Fight)>,
        EnterGameError,
    >)
        requires
            old(self).wf(),
        ensures
            final(self).wf(),
            final(self)@.lobby == old(self)@.lobby,
            ({
                let (p1, res) = enter_game_step(old(self)@.pool, game_id, user_id);
                &&& final(self)@.pool == p1
                &&& match r {
                    Ok(v) => res == Ok::<Seq<(UserId, Fight)>, EnterGameError>(v@),
                    Err(e) => res == Err::<Seq<(UserId, Fight)>, EnterGameError>(e),
                }
            }),
    {
        let r = self.gamepool.enter_game(game_id, user_id);
        assert forall|g: GameId| #[trigger] self@.pool.contains_key(g) implies {
            &&& self@.pool[g].wf()
            &&& self@.pool[g].users.0 != self@.pool[g].users.1
            &&& g <= self@.lobby.counter
        } by {
            assert(old(self)@.pool.contains_key(g));
        }
        assert forall|u: UserId| #[trigger] is_waiting(self@.lobby.tickets, u) implies !is_playing(
            self@.pool,
            u,
        ) by {
            assert forall|g: GameId|
                self@.pool.contains_key(g) && #[trigger] plays_in(self@.pool[g], u) implies old(
                self,
            )@.pool.contains_key(g) && plays_in(old(self)@.pool[g], u) by {
                assert(old(self)@.pool.contains_key(g));
            }
            lemma_playing_shrinks(old(self)@.pool, self@.pool, u);
        }
        r
    }

    /// Hands an action to its session; says who is to be told what came of it.
    pub fn do_action(&mut self, msg: DoAction) -> (r: Result<
        Vec<(UserId, ActionOutcome)>,
        DoGameActionError,
    >)
        requires
            old(self).wf(),
        ensures
            final(self).wf(),
            final(self)@.lobby == old(self)@.lobby,
            ({
                let (p1, res) = game_action_step(old(self)@.pool, msg.game_id, msg.user_id, msg.action);
                &&& final(self)@.pool == p1
                &&& match r {
                    Ok(v) => res == Ok::<Seq<(UserId, ActionOutcome)>, DoGameActionError>(v@),
                    Err(e) => res == Err::<Seq<(UserId, ActionOutcome)>, DoGameActionError>(e),
                }
            }),
    {
        let r = self.gamepool.do_game_action(msg.game_id, msg.user_id, msg.action);
        assert forall|g: GameId| #[trigger] self@.pool.contains_key(g) implies {
            &&& self@.pool[g].wf()
            &&& self@.pool[g].users.0 != self@.pool[g].users.1
            &&& g <= self@.lobby.counter
        } by {
            assert(old(self)@.pool.contains_key(g));
        }
        assert forall|u: UserId| #[trigger] is_waiting(self@.lobby.tickets, u) implies !is_playing(
            self@.pool,
            u,
        ) by {
            assert forall|g: GameId|
                self@.pool.contains_key(g) && #[trigger] plays_in(self@.pool[g], u) implies old(
                self,
            )@.pool.contains_key(g) && plays_in(old(self)@.pool[g], u) by {
                assert(old(self)@.pool.contains_key(g));
            }
            lemma_playing_shrinks(old(self)@.pool, self@.pool, u);
        }
        r
    }
}

} // verus!
