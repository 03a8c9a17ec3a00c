//! The values that tic-tac-toe games are played with: wishes, actions,
//! results, the pair of players, and their text form in the protocol.
use vstd::prelude::*;
use vstd::string::StringExecFns;

use crate::domain::{UserId, Wish};
use crate::query::{attrs_of, lemma_attrs_len, parse_attrs, texts};
use crate::text::{decimal, decimal_text, number_of, parse_number, same_text};

verus! {

/// The side a player plays: crosses or noughts.
#[derive(Debug, Clone, Copy, PartialEq, Eq, Structural)]
pub enum TttSign {
    Xs,
    Os,
}

impl TttSign {
    /// The other side.
    pub fn opposite(self) -> (r: TttSign)
        ensures
            r != self,
    {
        match self {
            TttSign::Xs => TttSign::Os,
            TttSign::Os => TttSign::Xs,
        }
    }
}

/// What a waiting player asks of an opponent: the side they want to play.
#[derive(Debug, Clone, Copy, PartialEq, Eq, Structural)]
pub struct TttWish {
    pub sign: TttSign,
}

/// A wish text that names no side.
#[derive(Debug, Clone, Copy, PartialEq, Eq, Structural)]
pub enum TttWishErr {
    InvalidWish,
}

impl Wish for TttWish {
    /// Two wishes match when they ask for different sides.
    open spec fn matches(&self, other: &TttWish) -> bool {
        self.sign != other.sign
    }

    fn is_match(&self, other: &TttWish) -> (r: bool) {
        self.sign != other.sign
    }
}

impl TttWish {
    /// The wish that `s` writes: `Xs` or `Os`.
    pub open spec fn of_text(s: Seq<char>) -> Result<TttWish, TttWishErr> {
        if s == "Xs"@ {
            Ok(TttWish { sign: TttSign::Xs })
        } else if s == "Os"@ {
            Ok(TttWish { sign: TttSign::Os })
        } else {
            Err(TttWishErr::InvalidWish)
        }
    }

    pub fn parse(s: &str) -> (r: Result<TttWish, TttWishErr>)
        ensures
            r == TttWish::of_text(s@),
    {
        if same_text(s, "Xs") {
            Ok(TttWish { sign: TttSign::Xs })
        } else if same_text(s, "Os") {
            Ok(TttWish { sign: TttSign::Os })
        } else {
            Err(TttWishErr::InvalidWish)
        }
    }
}

/// A mark put on the board, at a column and a row from 0 to 2.
#[derive(Debug, Clone, Copy, PartialEq, Eq, Structural)]
pub struct TttMove {
    pub col: u8,
    pub row: u8,
}

/// What a player may do on their turn.
#[derive(Debug, Clone, Copy, PartialEq, Eq, Structural)]
pub enum TttAction {
    Surrender,
    ProposeDraw,
    ApplyDraw,
    Move(TttMove),
}

/// Why an action text could not be read.
#[derive(Debug, Clone, Copy, PartialEq, Eq, Structural)]
pub enum TttActionErr {
    InvalidAction,
    InvalidMove,
}

/// What came of an action; every player of the session is told the same.
#[derive(Debug, Clone, Copy, PartialEq, Eq, Structural)]
pub enum TttActionResult {
    Win(UserId),
    Action(TttAction),
    Draw,
    ImpossibleAction,
}

/// The action that a text `action:<name>` or `move:<col>,<row>` writes.
pub open spec fn action_of(s: Seq<char>) -> Result<TttAction, TttActionErr> {
    match attrs_of(s, ':', 2) {
        Err(_) => Err(TttActionErr::InvalidAction),
        Ok(a) => {
            if a[0] == "action"@ {
                if a[1] == "surrender"@ {
                    Ok(TttAction::Surrender)
                } else if a[1] == "propose_draw"@ {
                    Ok(TttAction::ProposeDraw)
                } else if a[1] == "apply_draw"@ {
                    Ok(TttAction::ApplyDraw)
                } else {
                    Err(TttActionErr::InvalidAction)
                }
            } else if a[0] == "move"@ {
                match attrs_of(a[1], ',', 2) {
                    Err(_) => Err(TttActionErr::InvalidMove),
                    Ok(p) => match (number_of(p[0], 255), number_of(p[1], 255)) {
                        (Some(col), Some(row)) => Ok(
                            TttAction::Move(TttMove { col: col as u8, row: row as u8 }),
                        ),
                        _ => Err(TttActionErr::InvalidMove),
                    },
                }
            } else {
                Err(TttActionErr::InvalidAction)
            }
        },
    }
}

/// The text of a move: `<col>,<row>`.
pub open spec fn move_text(m: TttMove) -> Seq<char> {
    decimal(m.col as nat) + ","@ + decimal(m.row as nat)
}

/// The text of an action, as clients write it after `action:` or `move:`.
pub open spec fn action_text(a: TttAction) -> Seq<char> {
    match a {
        TttAction::Surrender => "surrender"@,
        TttAction::ProposeDraw => "propose_draw"@,
        TttAction::ApplyDraw => "apply_draw"@,
        TttAction::Move(m) => move_text(m),
    }
}

/// The text of a result in an action event.
pub open spec fn result_text(r: TttActionResult) -> Seq<char> {
    match r {
        TttActionResult::Win(u) => "win_of/"@ + decimal(u as nat),
        TttActionResult::Action(a) => action_text(a),
        TttActionResult::Draw => "draw"@,
        TttActionResult::ImpossibleAction => "impossible_action"@,
    }
}

/// The kind of an action error, as a client is told it.
pub open spec fn action_error_kind(e: TttActionErr) -> Seq<char> {
    match e {
        TttActionErr::InvalidAction => "invalid_action"@,
        TttActionErr::InvalidMove => "invalid_move"@,
    }
}

impl TttActionErr {
    /// The error kind that a client is told.
    pub fn kind(&self) -> (r: &'static str)
        ensures
            r@ == action_error_kind(*self),
    {
        match self {
            TttActionErr::InvalidAction => "invalid_action",
            TttActionErr::InvalidMove => "invalid_move",
        }
    }
}

impl TttMove {
    pub fn to_text(&self) -> (r: String)
        ensures
            r@ == move_text(*self),
    {
        let mut r = decimal_text(self.col as u64);
        r.append(",");
        let row = decimal_text(self.row as u64);
        r.append(row.as_str());
        r
    }
}

impl TttAction {
    /// Reads `action:surrender`, `action:propose_draw`, `action:apply_draw`
    /// or `move:<col>,<row>`.
    pub fn parse(src: &str) -> (r: Result<TttAction, TttActionErr>)
        ensures
            r == action_of(src@),
    {
        proof {
            lemma_attrs_len(src@, ':', 2);
        }
        match parse_attrs(src, ':', 2) {
            Err(_) => Err(TttActionErr::InvalidAction),
            Ok(attrs) => {
                assert(texts(attrs@)[0] == attrs@[0]@);
                assert(texts(attrs@)[1] == attrs@[1]@);
                let kind = attrs[0];
                let arg = attrs[1];
                if same_text(kind, "action") {
                    if same_text(arg, "surrender") {
                        Ok(TttAction::Surrender)
                    } else if same_text(arg, "propose_draw") {
                        Ok(TttAction::ProposeDraw)
                    } else if same_text(arg, "apply_draw") {
                        Ok(TttAction::ApplyDraw)
                    } else {
                        Err(TttActionErr::InvalidAction)
                    }
                } else if same_text(kind, "move") {
                    proof {
                        lemma_attrs_len(arg@, ',', 2);
                    }
                    match parse_attrs(arg, ',', 2) {
                        Err(_) => Err(TttActionErr::InvalidMove),
                        Ok(pos) => {
                            assert(texts(pos@)[0] == pos@[0]@);
                            assert(texts(pos@)[1] == pos@[1]@);
                            match (parse_number(pos[0], 255), parse_number(pos[1], 255)) {
                                (Some(col), Some(row)) => Ok(
                                    TttAction::Move(TttMove { col: col as u8, row: row as u8 }),
                                ),
                                _ => Err(TttActionErr::InvalidMove),
                            }
                        },
                    }
                } else {
                    Err(TttActionErr::InvalidAction)
                }
            },
        }
    }

    pub fn to_text(&self) -> (r: String)
        ensures
            r@ == action_text(*self),
    {
        match self {
            TttAction::Surrender => String::from_str("surrender"),
            TttAction::ProposeDraw => String::from_str("propose_draw"),
            TttAction::ApplyDraw => String::from_str("apply_draw"),
            TttAction::Move(m) => m.to_text(),
        }
    }
}

impl TttActionResult {
    pub fn to_text(&self) -> (r: String)
        ensures
            r@ == result_text(*self),
    {
        match self {
            TttActionResult::Win(u) => {
                let mut r = String::from_str("win_of/");
                let id = decimal_text(*u);
                r.append(id.as_str());
                r
            },
            TttActionResult::Action(a) => a.to_text(),
            TttActionResult::Draw => String::from_str("draw"),
            TttActionResult::ImpossibleAction => String::from_str("impossible_action"),
        }
    }
}

/// The two players of a session; the first one plays crosses and moves first.
#[derive(Debug, Clone, Copy, PartialEq, Eq, Structural)]
pub struct TttUsers(pub UserId, pub UserId);

impl TttUsers {
    /// The player who moves after `u`.
    pub open spec fn other(self, u: UserId) -> UserId {
        if u == self.0 {
            self.1
        } else {
            self.0
        }
    }

    pub fn contains(&self, user_id: UserId) -> (r: bool)
        ensures
            r == (user_id == self.0 || user_id == self.1),
    {
        self.0 == user_id || self.1 == user_id
    }

    pub fn first(&self) -> (r: UserId)
        ensures
            r == self.0,
    {
        self.0
    }

    pub fn second(&self) -> (r: UserId)
        ensures
            r == self.1,
    {
        self.1
    }

    /// The player whose turn follows that of `current_player`.
    pub fn next(&self, current_player: UserId) -> (r: UserId)
        ensures
            r == self.other(current_player),
    {
        if current_player == self.first() {
            self.second()
        } else {
            self.first()
        }
    }
}

} // verus!
