//! The text protocol between a client and the server: the commands a client
//! sends (`/find?Xs`, `/join?1`, `/action?1:move:0,0`) and the events and
//! errors it is sent back.
use vstd::prelude::*;
use vstd::string::StringExecFns;

use crate::domain::GameId;
use crate::messages::{ActionOutcome, Fight, NewGame};
use crate::query::{attrs_of, lemma_attrs_len, parse_attrs, parse_query, query_of, texts, ParseQueryError};
use crate::text::{decimal, decimal_text, number_of, parse_number, same_text};
use crate::ttt::{action_error_kind, action_of, result_text, TttAction, TttActionErr, TttWish};

verus! {

/// A client's request.
#[derive(Debug, Clone, Copy, PartialEq, Eq, Structural)]
pub enum Command {
    /// Wait for an opponent with this wish.
    Find(TttWish),
    /// Join this session, paired before.
    Join(GameId),
    /// Act in this session.
    Action(GameId, TttAction),
}

/// Why a client's text is not a command.
#[derive(Debug, Clone, Copy, PartialEq, Eq, Structural)]
pub enum CommandError {
    InvalidQuery(ParseQueryError),
    UndefinedCommand,
    InvalidWish,
    InvalidGameId,
    InvalidAttrs,
    InvalidAction(TttActionErr),
}

/// The command that the text `s` writes.
pub open spec fn command_of(s: Seq<char>) -> Result<Command, CommandError> {
    match query_of(s) {
        Err(e) => Err(CommandError::InvalidQuery(e)),
        Ok((cmd, attrs)) => {
            if cmd == "/find"@ {
                match TttWish::of_text(attrs) {
                    Ok(w) => Ok(Command::Find(w)),
                    Err(_) => Err(CommandError::InvalidWish),
                }
            } else if cmd == "/join"@ {
                match number_of(attrs, u64::MAX as nat) {
                    Some(g) => Ok(Command::Join(g as GameId)),
                    None => Err(CommandError::InvalidGameId),
                }
            } else if cmd == "/action"@ {
                match attrs_of(attrs, ':', 2) {
                    Err(_) => Err(CommandError::InvalidAttrs),
                    Ok(p) => match number_of(p[0], u64::MAX as nat) {
                        None => Err(CommandError::InvalidGameId),
                        Some(g) => match action_of(p[1]) {
                            Ok(a) => Ok(Command::Action(g as GameId, a)),
                            Err(e) => Err(CommandError::InvalidAction(e)),
                        },
                    },
                }
            } else {
                Err(CommandError::UndefinedCommand)
            }
        },
    }
}

/// Reads a client's command.
pub fn parse_command(src: &str) -> (r: Result<Command, CommandError>)
    ensures
        r == command_of(src@),
{
    match parse_query(src) {
        Err(e) => Err(CommandError::InvalidQuery(e)),
        Ok((cmd, attrs)) => {
            if same_text(cmd, "/find") {
                match TttWish::parse(attrs) {
                    Ok(w) => Ok(Command::Find(w)),
                    Err(_) => Err(CommandError::InvalidWish),
                }
            } else if same_text(cmd, "/join") {
                match parse_number(attrs, u64::MAX) {
                    Some(g) => Ok(Command::Join(g)),
                    None => Err(CommandError::InvalidGameId),
                }
            } else if same_text(cmd, "/action") {
                proof {
                    lemma_attrs_len(attrs@, ':', 2);
                }
                match parse_attrs(attrs, ':', 2) {
                    Err(_) => Err(CommandError::InvalidAttrs),
                    Ok(p) => {
                        assert(texts(p@)[0] == p@[0]@);
                        assert(texts(p@)[1] == p@[1]@);
                        match parse_number(p[0], u64::MAX) {
                            None => Err(CommandError::InvalidGameId),
                            Some(g) => match TttAction::parse(p[1]) {
                                Ok(a) => Ok(Command::Action(g, a)),
                                Err(e) => Err(CommandError::InvalidAction(e)),
                            },
                        }
                    },
                }
            } else {
                Err(CommandError::UndefinedCommand)
            }
        },
    }
}

/// The name of a query error, as the client is told it.
pub open spec fn query_error_name(e: ParseQueryError) -> Seq<char> {
    match e {
        ParseQueryError::InvalidFormat => "InvalidFormat"@,
        ParseQueryError::EmptyQuery => "EmptyQuery"@,
        ParseQueryError::EmptyAttrs => "EmptyAttrs"@,
    }
}

/// The error reply to a text that is not a command.
pub open spec fn error_text(e: CommandError) -> Seq<char> {
    match e {
        CommandError::InvalidQuery(q) => "/error/invalid_query:"@ + query_error_name(q),
        CommandError::UndefinedCommand => "/error/undefined_command"@,
        CommandError::InvalidWish => "/error/invalid_wish"@,
        CommandError::InvalidGameId => "/error/invalid_game_id"@,
        CommandError::InvalidAttrs => "/error/invalid_attrs"@,
        CommandError::InvalidAction(a) => "/error/"@ + action_error_kind(a),
    }
}

/// The event that tells a user which session they were paired into.
pub open spec fn new_game_text(m: NewGame) -> Seq<char> {
    "/event/new_game/"@ + decimal(m.0 as nat)
}

/// The event that tells a player that both players have joined.
pub open spec fn fight_text(m: Fight) -> Seq<char> {
    "/event/fight/"@ + decimal(m.game_id as nat)
}

/// The event that tells a player what came of an action.
pub open spec fn action_outcome_text(o: ActionOutcome) -> Seq<char> {
    "/event/action/"@ + decimal(o.game_id as nat) + "/"@ + decimal(o.user_id as nat) + "/"@
        + result_text(o.result)
}

impl CommandError {
    pub fn to_text(&self) -> (r: String)
        ensures
            r@ == error_text(*self),
    {
        match self {
            CommandError::InvalidQuery(q) => {
                let mut r = String::from_str("/error/invalid_query:");
                let name = match q {
                    ParseQueryError::InvalidFormat => "InvalidFormat",
                    ParseQueryError::EmptyQuery => "EmptyQuery",
                    ParseQueryError::EmptyAttrs => "EmptyAttrs",
                };
                r.append(name);
                r
            },
            CommandError::UndefinedCommand => String::from_str("/error/undefined_command"),
            CommandError::InvalidWish => String::from_str("/error/invalid_wish"),
            CommandError::InvalidGameId => String::from_str("/error/invalid_game_id"),
            CommandError::InvalidAttrs => String::from_str("/error/invalid_attrs"),
            CommandError::InvalidAction(a) => {
                let mut r = String::from_str("/error/");
                r.append(a.kind());
                r
            },
        }
    }
}

impl NewGame {
    pub fn to_text(&self) -> (r: String)
        ensures
            r@ == new_game_text(*self),
    {
        let mut r = String::from_str("/event/new_game/");
        let id = decimal_text(self.0);
        r.append(id.as_str());
        r
    }
}

impl Fight {
    pub fn to_text(&self) -> (r: String)
        ensures
            r@ == fight_text(*self),
    {
        let mut r = String::from_str("/event/fight/");
        let id = decimal_text(self.game_id);
        r.append(id.as_str());
        r
    }
}

impl ActionOutcome {
    pub fn to_text(&self) -> (r: String)
        ensures
            r@ == action_outcome_text(*self),
    {
        let mut r = String::from_str("/event/action/");
        let game = decimal_text(self.game_id);
        r.append(game.as_str());
        r.append("/");
        let user = decimal_text(self.user_id);
        r.append(user.as_str());
        r.append("/");
        let result = self.result.to_text();
        r.append(result.as_str());
        r
    }
}

} // verus!
