//! The lobby: tickets of users waiting for an opponent, paired as soon as a
//! compatible one arrives.
use vstd::prelude::*;

use crate::domain::{GameId, Id, UserId, Wish};
use crate::messages::StartGame;
use crate::ttt::{TttSign, TttUsers, TttWish};

verus! {

/// The widest gap in rating, exclusive, between two players that are paired.
pub const RATING_DIFFERENCE_THRESHOLD: u32 = 20;

/// The rating that every ticket is given.
pub const DEFAULT_RATING: u32 = 1000;

/// What the lobby knows of a waiting player beside their wish.
#[derive(Debug, Clone, Copy, PartialEq, Eq, Structural)]
pub struct TttInfo {
    pub rating: u32,
}

impl TttInfo {
    /// The two ratings differ by less than the threshold.
    pub open spec fn close_to(self, other: TttInfo) -> bool {
        let d = self.rating as int - other.rating as int;
        -(RATING_DIFFERENCE_THRESHOLD as int) < d < RATING_DIFFERENCE_THRESHOLD as int
    }

    pub fn is_match(&self, other: TttInfo) -> (r: bool)
        ensures
            r == self.close_to(other),
    {
        let rating_difference = if self.rating < other.rating {
            other.rating - self.rating
        } else {
            self.rating - other.rating
        };
        rating_difference < RATING_DIFFERENCE_THRESHOLD
    }
}

/// A waiting user's request.
#[derive(Debug, Clone, Copy, PartialEq, Eq, Structural)]
pub struct Ticket {
    pub user_id: UserId,
    pub wish: TttWish,
    pub info: TttInfo,
}

impl Ticket {
    /// The ticket of `user_id` with `wish`, at the rating every ticket is given.
    pub fn new(user_id: UserId, wish: TttWish) -> (r: Ticket)
        ensures
            r == (Ticket { user_id, wish, info: TttInfo { rating: DEFAULT_RATING } }),
    {
        Ticket { user_id, wish, info: TttInfo { rating: DEFAULT_RATING } }
    }
}

/// Whether a newcomer `u` with `w` and `i` can be paired with waiting ticket `t`.
pub open spec fn compatible(t: Ticket, u: UserId, w: TttWish, i: TttInfo) -> bool {
    &&& t.user_id != u
    &&& w.matches(&t.wish)
    &&& i.close_to(t.info)
}

/// Index of the first ticket at or after `from` that the newcomer can be
/// paired with; `ts.len()` when there is none.
pub open spec fn find_match(ts: Seq<Ticket>, u: UserId, w: TttWish, i: TttInfo, from: int) -> int
    decreases ts.len() - from,
{
    if from < 0 || from >= ts.len() {
        ts.len() as int
    } else if compatible(ts[from], u, w, i) {
        from
    } else {
        find_match(ts, u, w, i, from + 1)
    }
}

/// Index of the first ticket at or after `from` of user `u`; `ts.len()`
/// when there is none.
pub open spec fn find_user(ts: Seq<Ticket>, u: UserId, from: int) -> int
    decreases ts.len() - from,
{
    if from < 0 || from >= ts.len() {
        ts.len() as int
    } else if ts[from].user_id == u {
        from
    } else {
        find_user(ts, u, from + 1)
    }
}

/// The tickets without the one of user `u`.
pub open spec fn without_user(ts: Seq<Ticket>, u: UserId) -> Seq<Ticket> {
    let k = find_user(ts, u, 0);
    if k < ts.len() {
        ts.remove(k)
    } else {
        ts
    }
}

/// The players of a new session: the one who wished for crosses first.
pub open spec fn seat_users(u: UserId, w: TttWish, partner: UserId) -> TttUsers {
    if w.sign == TttSign::Xs {
        TttUsers(u, partner)
    } else {
        TttUsers(partner, u)
    }
}

/// No user holds two tickets.
pub open spec fn unique_users(ts: Seq<Ticket>) -> bool {
    forall|a: int, b: int|
        0 <= a < ts.len() && 0 <= b < ts.len() && a != b ==> ts[a].user_id != ts[b].user_id
}

/// Whether user `u` holds a ticket.
pub open spec fn is_waiting(ts: Seq<Ticket>, u: UserId) -> bool {
    exists|k: int| 0 <= k < ts.len() && ts[k].user_id == u
}

/// A lobby, as values: the waiting tickets in order of arrival, and the id
/// of the last session it paired.
pub struct LobbyModel {
    pub tickets: Seq<Ticket>,
    pub counter: GameId,
}

/// The lobby after user `u` submits wish `w`, and the session it paired, if
/// any. The first waiting ticket that is compatible is paired and leaves,
/// with any earlier ticket of `u`; the newcomer does not wait. With none,
/// the newcomer's ticket replaces any earlier one of `u`.
pub open spec fn add_ticket_step(l: LobbyModel, u: UserId, w: TttWish) -> (LobbyModel, Option<StartGame>) {
    let info = TttInfo { rating: DEFAULT_RATING };
    let ts = l.tickets;
    let j = find_match(ts, u, w, info, 0);
    if j < ts.len() {
        let g = (l.counter + 1) as GameId;
        (
            LobbyModel { tickets: without_user(ts.remove(j), u), counter: g },
            Some(StartGame { users: seat_users(u, w, ts[j].user_id), game_id: g }),
        )
    } else {
        (
            LobbyModel {
                tickets: without_user(ts, u).push(Ticket { user_id: u, wish: w, info }),
                counter: l.counter,
            },
            None,
        )
    }
}

pub proof fn lemma_find_match(ts: Seq<Ticket>, u: UserId, w: TttWish, i: TttInfo, from: int)
    requires
        0 <= from <= ts.len(),
    ensures
        from <= find_match(ts, u, w, i, from) <= ts.len(),
        find_match(ts, u, w, i, from) < ts.len() ==> compatible(
            ts[find_match(ts, u, w, i, from)],
            u,
            w,
            i,
        ),
        forall|k: int| from <= k < find_match(ts, u, w, i, from) ==> !compatible(ts[k], u, w, i),
    decreases ts.len() - from,
{
    if from < ts.len() && !compatible(ts[from], u, w, i) {
        lemma_find_match(ts, u, w, i, from + 1);
    }
}

pub proof fn lemma_find_user(ts: Seq<Ticket>, u: UserId, from: int)
    requires
        0 <= from <= ts.len(),
    ensures
        from <= find_user(ts, u, from) <= ts.len(),
        find_user(ts, u, from) < ts.len() ==> ts[find_user(ts, u, from)].user_id == u,
        forall|k: int| from <= k < find_user(ts, u, from) ==> ts[k].user_id != u,
    decreases ts.len() - from,
{
    if from < ts.len() && ts[from].user_id != u {
        lemma_find_user(ts, u, from + 1);
    }
}

/// Taking one ticket out keeps the others, in order.
pub proof fn lemma_remove_keeps(ts: Seq<Ticket>, k: int)
    requires
        0 <= k < ts.len(),
    ensures
        ts.remove(k).len() == ts.len() - 1,
        forall|a: int| 0 <= a < k ==> ts.remove(k)[a] == ts[a],
        forall|a: int| k <= a < ts.len() - 1 ==> ts.remove(k)[a] == ts[a + 1],
        unique_users(ts) ==> unique_users(ts.remove(k)),
        unique_users(ts) ==> forall|a: int|
            0 <= a < ts.len() - 1 ==> ts.remove(k)[a].user_id != ts[k].user_id,
{
}

/// A user waiting after one ticket is taken out waited before, and is not
/// the one whose ticket was taken out.
pub proof fn lemma_remove_waiting(ts: Seq<Ticket>, k: int, v: UserId)
    requires
        0 <= k < ts.len(),
        unique_users(ts),
        is_waiting(ts.remove(k), v),
    ensures
        is_waiting(ts, v),
        v != ts[k].user_id,
{
    lemma_remove_keeps(ts, k);
    let r = ts.remove(k);
    let a = choose|a: int| 0 <= a < r.len() && r[a].user_id == v;
    if a < k {
        assert(ts[a].user_id == v);
    } else {
        assert(ts[a + 1].user_id == v);
    }
}

/// Without the ticket of `u`, no ticket of `u` is left, and the others stay.
pub proof fn lemma_without_user(ts: Seq<Ticket>, u: UserId)
    requires
        unique_users(ts),
    ensures
        unique_users(without_user(ts, u)),
        !is_waiting(without_user(ts, u), u),
        forall|v: UserId| v != u ==> (is_waiting(without_user(ts, u), v) <==> is_waiting(ts, v)),
        !is_waiting(ts, u) ==> without_user(ts, u) == ts,
{
    lemma_find_user(ts, u, 0);
    let k = find_user(ts, u, 0);
    if k < ts.len() {
        lemma_remove_keeps(ts, k);
        let r = ts.remove(k);
        assert forall|v: UserId| v != u implies (is_waiting(r, v) <==> is_waiting(ts, v)) by {
            if is_waiting(ts, v) {
                let a = choose|a: int| 0 <= a < ts.len() && ts[a].user_id == v;
                if a < k {
                    assert(r[a].user_id == v);
                } else {
                    assert(a != k);
                    assert(r[a - 1].user_id == v);
                }
            }
            if is_waiting(r, v) {
                let a = choose|a: int| 0 <= a < r.len() && r[a].user_id == v;
                if a < k {
                    assert(ts[a].user_id == v);
                } else {
                    assert(ts[a + 1].user_id == v);
                }
            }
        }
    } else {
        assert(!is_waiting(ts, u));
    }
}

/// Two users with matching wishes, neither of them waiting and neither
/// compatible with any waiting ticket, submit one after the other, in either
/// order: the first one waits, the second one pairs them into exactly one
/// session, whose single id both of them are given; the other tickets stay.
pub proof fn lemma_pair_in_either_order(l: LobbyModel, a: UserId, wa: TttWish, b: UserId, wb: TttWish)
    requires
        unique_users(l.tickets),
        l.counter < u64::MAX,
        a != b,
        wa.matches(&wb),
        !is_waiting(l.tickets, a),
        !is_waiting(l.tickets, b),
        forall|k: int|
            0 <= k < l.tickets.len() ==> !compatible(
                l.tickets[k],
                a,
                wa,
                TttInfo { rating: DEFAULT_RATING },
            ) && !compatible(l.tickets[k], b, wb, TttInfo { rating: DEFAULT_RATING }),
    ensures
        ({
            let (l1, r1) = add_ticket_step(l, a, wa);
            let (l2, r2) = add_ticket_step(l1, b, wb);
            &&& r1 is None
            &&& r2 == Some(StartGame { users: seat_users(b, wb, a), game_id: (l.counter + 1) as GameId })
            &&& l2 == LobbyModel { tickets: l.tickets, counter: (l.counter + 1) as GameId }
        }),
        ({
            let (l1, r1) = add_ticket_step(l, b, wb);
            let (l2, r2) = add_ticket_step(l1, a, wa);
            &&& r1 is None
            &&& r2 == Some(StartGame { users: seat_users(a, wa, b), game_id: (l.counter + 1) as GameId })
            &&& l2 == LobbyModel { tickets: l.tickets, counter: (l.counter + 1) as GameId }
        }),
        seat_users(b, wb, a) == TttUsers(a, b) || seat_users(b, wb, a) == TttUsers(b, a),
        seat_users(a, wa, b) == TttUsers(a, b) || seat_users(a, wa, b) == TttUsers(b, a),
{
    lemma_wait_then_pair(l, a, wa, b, wb);
    lemma_wait_then_pair(l, b, wb, a, wa);
}

proof fn lemma_wait_then_pair(l: LobbyModel, a: UserId, wa: TttWish, b: UserId, wb: TttWish)
    requires
        unique_users(l.tickets),
        l.counter < u64::MAX,
        a != b,
        wa.matches(&wb),
        !is_waiting(l.tickets, a),
        !is_waiting(l.tickets, b),
        forall|k: int|
            0 <= k < l.tickets.len() ==> !compatible(
                l.tickets[k],
                a,
                wa,
                TttInfo { rating: DEFAULT_RATING },
            ) && !compatible(l.tickets[k], b, wb, TttInfo { rating: DEFAULT_RATING }),
    ensures
        ({
            let (l1, r1) = add_ticket_step(l, a, wa);
            let (l2, r2) = add_ticket_step(l1, b, wb);
            &&& r1 is None
            &&& r2 == Some(StartGame { users: seat_users(b, wb, a), game_id: (l.counter + 1) as GameId })
            &&& l2 == LobbyModel { tickets: l.tickets, counter: (l.counter + 1) as GameId }
        }),
{
    let info = TttInfo { rating: DEFAULT_RATING };
    let ts = l.tickets;
    lemma_find_match(ts, a, wa, info, 0);
    lemma_without_user(ts, a);
    let ta = Ticket { user_id: a, wish: wa, info };
    let ts1 = ts.push(ta);
    assert(add_ticket_step(l, a, wa).0.tickets == ts1);
    lemma_find_match(ts1, b, wb, info, 0);
    assert(compatible(ts1[ts.len() as int], b, wb, info));
    let j = find_match(ts1, b, wb, info, 0);
    assert(j == ts.len()) by {
        if j < ts.len() {
            assert(ts1[j] == ts[j]);
        }
    }
    assert(ts1.remove(j) =~= ts);
    lemma_without_user(ts, b);
}

/// A ticket never pairs its user with themselves, resubmitted or not: the
/// two players of a paired session differ, the submitter is one of them, and
/// afterwards the submitter holds no ticket.
pub proof fn lemma_no_self_match(l: LobbyModel, u: UserId, w: TttWish)
    requires
        unique_users(l.tickets),
        l.counter < u64::MAX,
    ensures
        ({
            let (l1, r) = add_ticket_step(l, u, w);
            r matches Some(sg) ==> {
                &&& sg.users.0 != sg.users.1
                &&& (sg.users.0 == u || sg.users.1 == u)
                &&& !is_waiting(l1.tickets, u)
            }
        }),
{
    let info = TttInfo { rating: DEFAULT_RATING };
    let ts = l.tickets;
    lemma_find_match(ts, u, w, info, 0);
    let j = find_match(ts, u, w, info, 0);
    if j < ts.len() {
        lemma_remove_keeps(ts, j);
        lemma_without_user(ts.remove(j), u);
    }
}

/// The waiting tickets and the id of the last session paired.
pub struct TttLobby {
    tickets: Vec<Ticket>,
    game_counter: GameId,
}

impl View for TttLobby {
    type V = LobbyModel;

    closed spec fn view(&self) -> LobbyModel {
        LobbyModel { tickets: self.tickets@, counter: self.game_counter }
    }
}

/// Index of the first ticket of `u`, or the number of tickets.
fn position_of_user(tickets: &Vec<Ticket>, u: UserId) -> (r: usize)
    ensures
        r == find_user(tickets@, u, 0),
{
    let mut k: usize = 0;
    while k < tickets.len()
        invariant
            k <= tickets@.len(),
            find_user(tickets@, u, 0) == find_user(tickets@, u, k as int),
        decreases tickets@.len() - k,
    {
        if tickets[k].user_id == u {
            return k;
        }
        k = k + 1;
    }
    k
}

/// Takes out the ticket of `u`, if there is one.
fn remove_user(tickets: &mut Vec<Ticket>, u: UserId)
    ensures
        final(tickets)@ == without_user(old(tickets)@, u),
{
    let k = position_of_user(tickets, u);
    if k < tickets.len() {
        tickets.remove(k);
    }
}

impl TttLobby {
    /// No user holds two tickets.
    pub open spec fn wf(&self) -> bool {
        unique_users(self@.tickets)
    }

    /// An empty lobby that has paired no session yet.
    pub fn with_communication() -> (r: TttLobby)
        ensures
            r@.tickets == Seq::<Ticket>::empty(),
            r@.counter == 0,
            r.wf(),
    {
        TttLobby { tickets: Vec::new(), game_counter: GameId::new() }
    }

    /// The id of the last session paired; 0 before the first.
    pub fn game_counter(&self) -> (r: GameId)
        ensures
            r == self@.counter,
    {
        self.game_counter
    }

    /// Index of the first ticket that a newcomer can be paired with, or the
    /// number of tickets.
    fn find_partner(&self, u: UserId, w: TttWish, info: TttInfo) -> (r: usize)
        ensures
            r == find_match(self@.tickets, u, w, info, 0),
    {
        let mut j: usize = 0;
        while j < self.tickets.len()
            invariant
                j <= self@.tickets.len(),
                find_match(self@.tickets, u, w, info, 0) == find_match(
                    self@.tickets,
                    u,
                    w,
                    info,
                    j as int,
                ),
            decreases self@.tickets.len() - j,
        {
            let t = self.tickets[j];
            if t.user_id != u && w.is_match(&t.wish) && info.is_match(t.info) {
                return j;
            }
            j = j + 1;
        }
        j
    }

    /// Pairs user `new_user_id` with the first waiting ticket that suits them,
    /// or leaves their ticket waiting.
    pub fn add_ticket(&mut self, new_user_id: UserId, new_wish: TttWish) -> (r: Option<StartGame>)
        requires
            old(self).wf(),
            old(self)@.counter < u64::MAX,
        ensures
            final(self).wf(),
            (final(self)@, r) == add_ticket_step(old(self)@, new_user_id, new_wish),
    {
        let new_ticket = Ticket::new(new_user_id, new_wish);
        let new_info = new_ticket.info;
        let j = self.find_partner(new_user_id, new_wish, new_info);
        proof {
            lemma_find_match(self@.tickets, new_user_id, new_wish, new_info, 0);
        }
        if j < self.tickets.len() {
            let partner = self.tickets.remove(j);
            proof {
                lemma_remove_keeps(old(self)@.tickets, j as int);
            }
            remove_user(&mut self.tickets, new_user_id);
            proof {
                lemma_without_user(old(self)@.tickets.remove(j as int), new_user_id);
            }
            self.game_counter.inc();
            let users = if new_wish.sign == TttSign::Xs {
                TttUsers(new_user_id, partner.user_id)
            } else {
                TttUsers(partner.user_id, new_user_id)
            };
            Some(StartGame { users, game_id: self.game_counter })
        } else {
            remove_user(&mut self.tickets, new_user_id);
            proof {
                lemma_without_user(old(self)@.tickets, new_user_id);
            }
            let ghost before = self@.tickets;
            self.tickets.push(new_ticket);
            assert forall|a: int, b: int|
                0 <= a < self@.tickets.len() && 0 <= b < self@.tickets.len() && a != b implies
                self@.tickets[a].user_id != self@.tickets[b].user_id by {
                if a == before.len() as int {
                    assert(!(before[b].user_id == new_user_id));
                } else if b == before.len() as int {
                    assert(!(before[a].user_id == new_user_id));
                }
            }
            None
        }
    }
}

} // verus!
