//! Network message definitions. On the wire every message is one line of
//! JSON; the encoding itself is done by the front end.

use vstd::prelude::*;

use crate::game::ShipKind;
use crate::menu::{trim_whitespace, trimmed};

verus! {

/// A single message exchanged between host and client over TCP.
#[derive(Debug, Clone, PartialEq)]
pub enum Message {
    /// First message after TCP connect. Both sides send their display name.
    Hello { name: String },
    /// Sent after a player finishes placing all ships.
    /// The game begins once both sides have sent `Ready`.
    Ready,
    /// Fire a shot at the opponent's grid at column `x`, row `y` (zero-indexed).
    Fire { x: u8, y: u8 },
    /// Response to a `Fire` message.
    /// - `hit`: whether the shot struck a ship.
    /// - `sunk`: if the hit just sunk a ship, which kind it was.
    FireResult { x: u8, y: u8, hit: bool, sunk: Option<ShipKind> },
    /// Announces the game is over. `winner` is the winning player's name.
    GameOver { winner: String },
    /// One player requests a rematch after the game ends.
    Rematch,
    /// Clean disconnect: the peer is leaving.
    Disconnect,
    /// In-game chat message.
    Chat { text: String },
}

/// Why the name exchange at the start of a connection failed.
#[derive(Debug, Clone, Copy, PartialEq, Eq, Structural)]
pub enum HandshakeError {
    /// The peer answered with something other than `Hello`.
    UnexpectedMessage,
    /// The peer closed the connection before answering.
    PeerDisconnected,
}

impl HandshakeError {
    /// The human-readable description of the failure.
    pub fn message(self) -> (r: &'static str)
        ensures
            r@ == match self {
                HandshakeError::UnexpectedMessage => "Expected Hello message during handshake"@,
                HandshakeError::PeerDisconnected => "Peer disconnected during handshake"@,
            },
    {
        match self {
            HandshakeError::UnexpectedMessage => "Expected Hello message during handshake",
            HandshakeError::PeerDisconnected => "Peer disconnected during handshake",
        }
    }
}

/// Decide the outcome of the handshake from the peer's first reply
/// (`None` when the peer closed the connection): the opponent's name when it
/// said `Hello`, an error otherwise.
pub fn handshake_reply(reply: Option<Message>) -> (r: Result<String, HandshakeError>)
    ensures
        match reply {
            Some(Message::Hello { name }) => r == Ok::<String, HandshakeError>(name),
            Some(_) => r == Err::<String, HandshakeError>(HandshakeError::UnexpectedMessage),
            None => r == Err::<String, HandshakeError>(HandshakeError::PeerDisconnected),
        },
{
    match reply {
        Some(Message::Hello { name }) => Ok(name),
        Some(_) => Err(HandshakeError::UnexpectedMessage),
        None => Err(HandshakeError::PeerDisconnected),
    }
}


/// The payload of one line read from the connection: `None` when nothing
/// was read (the peer closed the connection), otherwise the line without its
/// surrounding whitespace (the trailing newline included).
pub fn line_payload(bytes_read: usize, line: &str) -> (r: Option<&str>)
    ensures
        bytes_read == 0 ==> r is None,
        bytes_read != 0 ==> (r matches Some(t) && t@ == trimmed(line@)),
{
    if bytes_read == 0 {
        None
    } else {
        Some(trim_whitespace(line))
    }
}

} // verus!
