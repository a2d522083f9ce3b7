//! What a WebSocket hands to its owner: messages and connection events.

use vstd::prelude::*;

verus! {

/// A WebSocket message.
#[derive(Clone, Debug)]
pub enum WsMessage {
    /// Binary message.
    Binary(Vec<u8>),
    /// Text message.
    Text(String),
    /// Incoming message of unknown type. It cannot be sent.
    Unknown(String),
    /// A ping. Only native sockets show it.
    Ping(Vec<u8>),
    /// A pong. Only native sockets show it.
    Pong(Vec<u8>),
}

/// Something happening with the connection.
#[derive(Clone, Debug)]
pub enum WsEvent {
    /// The connection has been established, and messages can be sent.
    Opened,
    /// A message has been received.
    Message(WsMessage),
    /// An error occurred.
    Error(String),
    /// The connection has been closed.
    Closed,
}

} // verus!
