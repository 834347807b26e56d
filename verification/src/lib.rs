//! A two-player session hub for a 3×3 grid game.
//!
//! The hub owns the registry of connections and the board, takes connection
//! events and raw text payloads, and answers each event with the list of
//! messages to push to the connections.

pub mod board;
pub mod json;
pub mod packets;
pub mod codec;
pub mod messages;
pub mod hub;
pub mod server;
