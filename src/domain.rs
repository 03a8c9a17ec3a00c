//! Identifiers of users and of game sessions, and what every kind of game
//! provides to matchmaking.
use vstd::prelude::*;

verus! {

/// A connected user, as the transport layer numbers them.
pub type UserId = u64;

/// A game session; the lobby numbers them from 1 upwards and never reuses one.
pub type GameId = u64;

/// A counter that hands out identifiers in increasing order.
pub trait Id: Sized {
    /// The number that the identifier stands for.
    spec fn id_value(&self) -> nat;

    /// Whether a next identifier exists.
    spec fn has_next(&self) -> bool;

    /// The identifier before the first one handed out.
    fn new() -> (r: Self)
        ensures
            r.id_value() == 0,
    ;

    /// Moves on to the next identifier.
    fn inc(&mut self)
        requires
            old(self).has_next(),
        ensures
            final(self).id_value() == old(self).id_value() + 1,
    ;
}

impl Id for u64 {
    open spec fn id_value(&self) -> nat {
        *self as nat
    }

    open spec fn has_next(&self) -> bool {
        *self < u64::MAX
    }

    fn new() -> (r: u64) {
        0
    }

    fn inc(&mut self) {
        *self = *self + 1;
    }
}

/// What a waiting user asks of an opponent.
pub trait Wish: Sized {
    /// Whether a user with this wish can be paired with one with `other`.
    spec fn matches(&self, other: &Self) -> bool;

    fn is_match(&self, other: &Self) -> (r: bool)
        ensures
            r == self.matches(other),
    ;
}

} // verus!
