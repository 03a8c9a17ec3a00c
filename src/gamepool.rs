//! The session pool: every paired session, waiting for both players to join,
//! then running their game and saying who is to be told each outcome.
use std::collections::HashMap;
use vstd::prelude::*;

use crate::domain::{GameId, UserId};
use crate::engine::{engine_start, react_step, EngineModel, TttEngine};
use crate::messages::{ActionOutcome, Fight};
use crate::ttt::{TttAction, TttActionResult, TttUsers};

verus! {

broadcast use vstd::std_specs::hash::group_hash_axioms;

/// A session, as values.
pub struct SessionModel {
    pub engine: EngineModel,
    pub users: TttUsers,
    /// Which of the two users has joined.
    pub entered: (bool, bool),
    /// A win or a draw has been reached.
    pub finished: bool,
}

impl SessionModel {
    pub open spec fn wf(self) -> bool {
        &&& self.engine.wf()
        &&& self.engine.players == self.users
        &&& (self.finished ==> self.is_ready())
    }

    /// Both users have joined.
    pub open spec fn is_ready(self) -> bool {
        self.entered.0 && self.entered.1
    }

    /// How many users have joined: never more than the two players.
    pub open spec fn entered_count(self) -> nat {
        (if self.entered.0 {
            1nat
        } else {
            0nat
        }) + (if self.entered.1 {
            1nat
        } else {
            0nat
        })
    }
}

/// A result that ends the game.
pub open spec fn is_final(r: TttActionResult) -> bool {
    r is Win || r is Draw
}

/// A session just paired, waiting for both users.
pub open spec fn session_start(users: TttUsers) -> SessionModel {
    SessionModel { engine: engine_start(users), users, entered: (false, false), finished: false }
}

/// Why a session could not be created.
#[derive(Debug, Clone, Copy, PartialEq, Eq, Structural)]
pub enum NewGameError {
    DuplicateGame,
}

/// Why a user could not join a session.
#[derive(Debug, Clone, Copy, PartialEq, Eq, Structural)]
pub enum EnterGameError {
    /// No session has this id.
    BadGame,
    /// The user is not one of the session's two players.
    BadUser,
    /// The user has joined already.
    AlreadyEntered,
}

/// Why an action was refused before it reached the game.
#[derive(Debug, Clone, Copy, PartialEq, Eq, Structural)]
pub enum DoGameActionError {
    /// No session has this id.
    BadGame,
    /// Not both players have joined yet.
    NotReady,
    /// The game has ended.
    Finished,
}

/// The pool after `new_game(g, users)`, and its result.
pub open spec fn new_game_step(p: Map<GameId, SessionModel>, g: GameId, users: TttUsers) -> (
    Map<GameId, SessionModel>,
    Result<(), NewGameError>,
) {
    if p.contains_key(g) {
        (p, Err(NewGameError::DuplicateGame))
    } else {
        (p.insert(g, session_start(users)), Ok(()))
    }
}

/// The session after user `u` asks to join it.
pub open spec fn join_step(s: SessionModel, u: UserId) -> (SessionModel, Result<(), EnterGameError>) {
    if u != s.users.0 && u != s.users.1 {
        (s, Err(EnterGameError::BadUser))
    } else if (u == s.users.0 && s.entered.0) || (u != s.users.0 && s.entered.1) {
        (s, Err(EnterGameError::AlreadyEntered))
    } else {
        let entered = if u == s.users.0 {
            (true, s.entered.1)
        } else {
            (s.entered.0, true)
        };
        (SessionModel { engine: s.engine, users: s.users, entered, finished: s.finished }, Ok(()))
    }
}

/// The pool after `enter_game(g, u)`, and who is told that the game begins.
pub open spec fn enter_game_step(p: Map<GameId, SessionModel>, g: GameId, u: UserId) -> (
    Map<GameId, SessionModel>,
    Result<Seq<(UserId, Fight)>, EnterGameError>,
) {
    if !p.contains_key(g) {
        (p, Err(EnterGameError::BadGame))
    } else {
        let (s1, joined) = join_step(p[g], u);
        match joined {
            Err(e) => (p, Err(e)),
            Ok(_) => {
                let notices = if s1.is_ready() {
                    seq![(s1.users.0, Fight { game_id: g }), (s1.users.1, Fight { game_id: g })]
                } else {
                    Seq::empty()
                };
                (p.insert(g, s1), Ok(notices))
            },
        }
    }
}

/// Who is told the outcome of an action: everyone in the session, but only
/// the actor when the action was refused.
pub open spec fn recipients(s: SessionModel, o: ActionOutcome) -> Seq<(UserId, ActionOutcome)> {
    if o.result == TttActionResult::ImpossibleAction {
        seq![(o.user_id, o)]
    } else {
        seq![(s.users.0, o), (s.users.1, o)]
    }
}

/// The pool after `do_game_action(g, u, a)`, and the outcomes to deliver.
pub open spec fn game_action_step(
    p: Map<GameId, SessionModel>,
    g: GameId,
    u: UserId,
    a: TttAction,
) -> (Map<GameId, SessionModel>, Result<Seq<(UserId, ActionOutcome)>, DoGameActionError>) {
    if !p.contains_key(g) {
        (p, Err(DoGameActionError::BadGame))
    } else {
        let s = p[g];
        if !s.is_ready() {
            (p, Err(DoGameActionError::NotReady))
        } else if s.finished {
            (p, Err(DoGameActionError::Finished))
        } else {
            let (e, r) = react_step(s.engine, u, a);
            let s1 = SessionModel {
                engine: e,
                users: s.users,
                entered: s.entered,
                finished: is_final(r),
            };
            let o = ActionOutcome { user_id: u, game_id: g, result: r };
            (p.insert(g, s1), Ok(recipients(s, o)))
        }
    }
}

/// A session never has a third player join: once both have joined, every
/// further join is refused and changes nothing.
pub proof fn lemma_no_third_observer(p: Map<GameId, SessionModel>, g: GameId, u: UserId)
    requires
        p.contains_key(g),
        p[g].is_ready(),
    ensures
        enter_game_step(p, g, u).1 is Err,
        enter_game_step(p, g, u).0 == p,
        p[g].entered_count() == 2,
{
}

/// Turns alternate: after an accepted action of `u` the turn is the other
/// player's, and a next action of `u` is refused, told to `u` alone, and
/// changes nothing.
pub proof fn lemma_turn_alternation(
    p: Map<GameId, SessionModel>,
    g: GameId,
    u: UserId,
    a: TttAction,
    next: TttAction,
)
    requires
        p.contains_key(g),
        p[g].wf(),
        p[g].users.0 != p[g].users.1,
    ensures
        ({
            let (p1, r1) = game_action_step(p, g, u, a);
            r1 matches Ok(notices) && notices[0].1.result is Action ==> {
                &&& p[g].engine.current == u
                &&& p1[g].engine.current == p[g].users.other(u)
                &&& p1[g].engine.current != u
                &&& game_action_step(p1, g, u, next) == (
                    p1,
                    Ok::<Seq<(UserId, ActionOutcome)>, DoGameActionError>(
                        seq![(u, ActionOutcome { user_id: u, game_id: g, result: TttActionResult::ImpossibleAction })],
                    ),
                )
            }
        }),
{
    let (p1, r1) = game_action_step(p, g, u, a);
    if r1 matches Ok(notices) && notices[0].1.result is Action {
        assert(p1.insert(g, p1[g]) =~= p1);
    }
}

/// Once a win or a draw is reached the session is finished, and every later
/// action is refused, changes nothing and is told to nobody.
pub proof fn lemma_terminal_state(
    p: Map<GameId, SessionModel>,
    g: GameId,
    u: UserId,
    a: TttAction,
    later_user: UserId,
    later: TttAction,
)
    requires
        p.contains_key(g),
        p[g].wf(),
    ensures
        p[g].finished ==> game_action_step(p, g, later_user, later) == (
            p,
            Err::<Seq<(UserId, ActionOutcome)>, DoGameActionError>(DoGameActionError::Finished),
        ),
        ({
            let (p1, r1) = game_action_step(p, g, u, a);
            r1 matches Ok(notices) && is_final(notices[0].1.result) ==> {
                &&& p1[g].finished
                &&& game_action_step(p1, g, later_user, later) == (
                    p1,
                    Err::<Seq<(UserId, ActionOutcome)>, DoGameActionError>(DoGameActionError::Finished),
                )
            }
        }),
{
}

/// One session: its game, its players, who has joined, and whether it has ended.
pub struct TttGameState {
    engine: TttEngine,
    users: TttUsers,
    entered: [bool; 2],
    finished: bool,
}

impl View for TttGameState {
    type V = SessionModel;

    closed spec fn view(&self) -> SessionModel {
        SessionModel {
            engine: self.engine@,
            users: self.users,
            entered: (self.entered[0], self.entered[1]),
            finished: self.finished,
        }
    }
}

impl TttGameState {
    /// A session just paired, waiting for both users.
    pub fn waiting(users: TttUsers) -> (r: TttGameState)
        ensures
            r@ == session_start(users),
            r@.wf(),
    {
        TttGameState {
            engine: TttEngine::for_users(users),
            users,
            entered: [false, false],
            finished: false,
        }
    }

    /// Both users have joined.
    pub fn is_ready(&self) -> (r: bool)
        ensures
            r == self@.is_ready(),
    {
        self.entered[0] && self.entered[1]
    }

    /// Marks `user_id` as joined, if they are a player who has not joined yet.
    pub fn add_user(&mut self, user_id: UserId) -> (r: Result<(), EnterGameError>)
        ensures
            (final(self)@, r) == join_step(old(self)@, user_id),
    {
        if !self.users.contains(user_id) {
            return Err(EnterGameError::BadUser);
        }
        let index: usize = if user_id == self.users.first() {
            0
        } else {
            1
        };
        if self.entered[index] {
            return Err(EnterGameError::AlreadyEntered);
        }
        self.entered[index] = true;
        Ok(())
    }
}

/// Whether user `u` is one of the players of session `s`, which has not ended.
pub open spec fn plays_in(s: SessionModel, u: UserId) -> bool {
    !s.finished && (u == s.users.0 || u == s.users.1)
}

/// Whether user `u` plays in a session of the pool that has not ended.
pub open spec fn is_playing(p: Map<GameId, SessionModel>, u: UserId) -> bool {
    exists|g: GameId| p.contains_key(g) && #[trigger] plays_in(p[g], u)
}

/// A session that a user plays in.
#[derive(Debug, Clone, Copy, PartialEq, Eq, Structural)]
pub struct GameInfo {
    pub game_id: GameId,
    pub users: TttUsers,
}

/// Every session, by id.
pub struct GamePool {
    games: HashMap<GameId, TttGameState>,
    /// The ids of the sessions, in order of creation.
    ids: Vec<GameId>,
}

/// The session pool of tic-tac-toe games.
pub type TttGamePool = GamePool;

impl View for GamePool {
    type V = Map<GameId, SessionModel>;

    closed spec fn view(&self) -> Map<GameId, SessionModel> {
        self.games@.map_values(|g: TttGameState| g@)
    }
}

impl GamePool {
    /// Every session is well formed.
    pub open spec fn wf(&self) -> bool {
        &&& forall|g: GameId| #[trigger] self@.contains_key(g) ==> self@[g].wf()
        &&& self.ids_wf()
    }

    /// The list of ids holds exactly the sessions' ids.
    pub closed spec fn ids_wf(&self) -> bool {
        forall|g: GameId| #[trigger] self.games@.contains_key(g) <==> self.ids@.contains(g)
    }

    pub fn new() -> (r: GamePool)
        ensures
            r@ == Map::<GameId, SessionModel>::empty(),
            r.wf(),
    {
        let r = GamePool { games: HashMap::new(), ids: Vec::new() };
        assert(r@ =~= Map::<GameId, SessionModel>::empty());
        r
    }

    /// Registers the session `game_id` of `users`, to wait for both of them.
    pub fn new_game(&mut self, game_id: GameId, users: TttUsers) -> (r: Result<(), NewGameError>)
        requires
            old(self).wf(),
        ensures
            final(self).wf(),
            (final(self)@, r) == new_game_step(old(self)@, game_id, users),
    {
        if self.games.contains_key(&game_id) {
            return Err(NewGameError::DuplicateGame);
        }
        let state = TttGameState::waiting(users);
        self.games.insert(game_id, state);
        self.ids.push(game_id);
        assert(self@ =~= old(self)@.insert(game_id, session_start(users)));
        assert forall|g: GameId| #[trigger] self.games@.contains_key(g) <==> self.ids@.contains(g) by {
            if g != game_id {
                if old(self).ids@.contains(g) {
                    let k = choose|k: int| 0 <= k < old(self).ids@.len() && old(self).ids@[k] == g;
                    assert(self.ids@[k] == g);
                }
                if self.ids@.contains(g) {
                    let k = choose|k: int| 0 <= k < self.ids@.len() && self.ids@[k] == g;
                    assert(old(self).ids@[k] == g);
                }
            } else {
                assert(self.ids@[self.ids@.len() - 1] == g);
            }
        }
        Ok(())
    }

    /// Records that `user_id` has joined the session `game_id`; once both
    /// players have, both are to be told that the game begins.
    pub fn enter_game(&mut self, game_id: GameId, user_id: UserId) -> (r: Result<
        Vec<(UserId, Fight)>,
        EnterGameError,
    >)
        requires
            old(self).wf(),
        ensures
            final(self).wf(),
            ({
                let (p1, res) = enter_game_step(old(self)@, game_id, user_id);
                &&& final(self)@ == p1
                &&& match r {
                    Ok(v) => res == Ok::<Seq<(UserId, Fight)>, EnterGameError>(v@),
                    Err(e) => res == Err::<Seq<(UserId, Fight)>, EnterGameError>(e),
                }
            }),
    {
        let removed = self.games.remove(&game_id);
        match removed {
            None => {
                assert(self@ =~= old(self)@);
                Err(EnterGameError::BadGame)
            },
            Some(state) => {
                let mut state = state;
                let ghost s0 = state@;
                assert(s0 == old(self)@[game_id]);
                let added = state.add_user(user_id);
                let ready = state.is_ready();
                let users = state.users;
                self.games.insert(game_id, state);
                match added {
                    Err(e) => {
                        assert(state@ == s0);
                        assert(self@ =~= old(self)@);
                        Err(e)
                    },
                    Ok(()) => {
                        assert(self@ =~= old(self)@.insert(game_id, state@));
                        let mut notices: Vec<(UserId, Fight)> = Vec::new();
                        if ready {
                            notices.push((users.0, Fight { game_id }));
                            notices.push((users.1, Fight { game_id }));
                        }
                        assert(notices@ =~= enter_game_step(old(self)@, game_id, user_id).1->Ok_0);
                        Ok(notices)
                    },
                }
            },
        }
    }

    /// How many sessions the pool holds.
    pub fn get_games_stats(&self) -> (r: (usize,))
        ensures
            r.0 == self@.len(),
    {
        assert(self@.dom() =~= self.games@.dom());
        (self.games.len(),)
    }

    /// A session that `user_id` plays in and that has not ended, if any.
    pub fn check_is_playing(&self, user_id: UserId) -> (r: Option<GameInfo>)
        requires
            self.wf(),
        ensures
            match r {
                Some(info) => {
                    &&& self@.contains_key(info.game_id)
                    &&& plays_in(self@[info.game_id], user_id)
                    &&& info.users == self@[info.game_id].users
                },
                None => !is_playing(self@, user_id),
            },
    {
        let mut i: usize = 0;
        while i < self.ids.len()
            invariant
                self.wf(),
                i <= self.ids@.len(),
                forall|k: int|
                    0 <= k < i ==> !plays_in(#[trigger] self@[self.ids@[k]], user_id),
            decreases self.ids@.len() - i,
        {
            let game_id = self.ids[i];
            assert(self.ids@.contains(game_id));
            match self.games.get(&game_id) {
                Some(state) => {
                    if !state.finished && state.users.contains(user_id) {
                        return Some(GameInfo { game_id, users: state.users });
                    }
                },
                None => {},
            }
            i = i + 1;
        }
        assert forall|g: GameId| self@.contains_key(g) implies !#[trigger] plays_in(self@[g], user_id) by {
            assert(self.ids@.contains(g));
            let k = choose|k: int| 0 <= k < self.ids@.len() && self.ids@[k] == g;
            assert(!plays_in(self@[self.ids@[k]], user_id));
        }
        None
    }

    /// Hands the action of `user_id` to the game of session `game_id`, if
    /// both players have joined and the game has not ended, and says who is
    /// to be told what came of it.
    pub fn do_game_action(&mut self, game_id: GameId, user_id: UserId, action: TttAction) -> (r:
        Result<Vec<(UserId, ActionOutcome)>, DoGameActionError>)
        requires
            old(self).wf(),
        ensures
            final(self).wf(),
            ({
                let (p1, res) = game_action_step(old(self)@, game_id, user_id, action);
                &&& final(self)@ == p1
                &&& match r {
                    Ok(v) => res == Ok::<Seq<(UserId, ActionOutcome)>, DoGameActionError>(v@),
                    Err(e) => res == Err::<Seq<(UserId, ActionOutcome)>, DoGameActionError>(e),
                }
            }),
    {
        let removed = self.games.remove(&game_id);
        match removed {
            None => {
                assert(self@ =~= old(self)@);
                Err(DoGameActionError::BadGame)
            },
            Some(state) => {
                let mut state = state;
                assert(state@ == old(self)@[game_id]);
                if !state.is_ready() {
                    self.games.insert(game_id, state);
                    assert(self@ =~= old(self)@);
                    return Err(DoGameActionError::NotReady);
                }
                if state.finished {
                    self.games.insert(game_id, state);
                    assert(self@ =~= old(self)@);
                    return Err(DoGameActionError::Finished);
                }
                let result = state.engine.react(user_id, action);
                state.finished = match result {
                    TttActionResult::Win(_) | TttActionResult::Draw => true,
                    _ => false,
                };
                let users = state.users;
                self.games.insert(game_id, state);
                assert(self@ =~= game_action_step(old(self)@, game_id, user_id, action).0);
                let outcome = ActionOutcome { user_id, game_id, result };
                let mut deliveries: Vec<(UserId, ActionOutcome)> = Vec::new();
                if result == TttActionResult::ImpossibleAction {
                    deliveries.push((user_id, outcome));
                } else {
                    deliveries.push((users.0, outcome));
                    deliveries.push((users.1, outcome));
                }
                assert(deliveries@ =~= game_action_step(old(self)@, game_id, user_id, action).1->Ok_0);
                Ok(deliveries)
            },
        }
    }
}

} // verus!
