//! Matchmaking and turn-based session server core: the lobby that pairs
//! waiting tickets, the session pool that runs tic-tac-toe games between
//! paired users, and the text protocol spoken with connected clients.
pub mod chess;
pub mod domain;
pub mod engine;
pub mod gamepool;
pub mod lobby;
pub mod messages;
pub mod protocol;
pub mod query;
pub mod server;
pub mod text;
pub mod ttt;
