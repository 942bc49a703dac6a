//! The WebSocket echo server: what it says to each message. Listening and
//! sending are the caller's.

use vstd::prelude::*;

verus! {

/// A WebSocket message.
#[derive(Clone, Debug, PartialEq, Eq)]
pub enum Message {
    Text(String),
    Binary(Vec<u8>),
    /// A close message. What a close message carries is not kept.
    Close,
    Ping(Vec<u8>),
    Pong(Vec<u8>),
}

/// The address on which the server listens: the one configured, or else
/// `0.0.0.0:5115`.
pub fn listen_address(configured: Option<String>) -> (address: String)
    ensures
        address@ == crate::text::text_or(configured, "0.0.0.0:5115"@),
{
    crate::text::or_text(configured, "0.0.0.0:5115")
}

/// A connection is accepted if the client offers the protocol
/// `rust-websocket`.
pub open spec fn offers(protocols: Seq<String>) -> bool {
    exists|i: int| 0 <= i < protocols.len() && (#[trigger] protocols[i])@ == "rust-websocket"@
}

/// Whether a connection that offers these protocols is accepted.
pub fn accepts(protocols: &Vec<String>) -> (accepted: bool)
    ensures
        accepted == offers(protocols@),
{
    let wanted = "rust-websocket".to_string();
    let mut i: usize = 0;
    while i < protocols.len()
        invariant
            i <= protocols@.len(),
            wanted@ == "rust-websocket"@,
            forall|j: int| 0 <= j < i ==> (#[trigger] protocols@[j])@ != "rust-websocket"@,
        decreases protocols@.len() - i,
    {
        if protocols[i] == wanted {
            return true;
        }
        i = i + 1;
    }
    false
}

/// The message that greets a client that was accepted.
pub fn greeting() -> (message: Message)
    ensures
        message matches Message::Text(text) && text@ == "Websocket successfully connected."@,
{
    Message::Text("Websocket successfully connected.".to_string())
}

/// What the server sends back for a message, and whether it goes on
/// listening on the connection: a close is answered with a close and ends
/// the connection, a ping is answered with a pong that carries the same
/// data, and any other message is sent back as it came.
pub fn reply(message: Message) -> (answer: (Message, bool))
    ensures
        answer.0 == match message {
            Message::Close => Message::Close,
            Message::Ping(data) => Message::Pong(data),
            other => other,
        },
        answer.1 == !(message is Close),
{
    match message {
        Message::Close => (Message::Close, false),
        Message::Ping(data) => (Message::Pong(data), true),
        other => (other, true),
    }
}

} // verus!
