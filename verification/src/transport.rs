use vstd::prelude::*;

use crate::session::{CloseReason, IncomingMessage};

verus! {

/// Represents the kinds of message that can be sent or received over a
/// transport connection.
#[derive(Clone, Debug)]
pub enum TransportMessage {
    /// A text message containing UTF-8 encoded string data.
    Text(String),
    /// A binary message containing raw byte data.
    Binary(Vec<u8>),
    /// A ping control frame with optional payload data, used for keep-alive checks.
    Ping(Vec<u8>),
    /// A pong control frame with optional payload data, sent in response to a ping.
    Pong(Vec<u8>),
    /// A close control frame indicating connection termination, with optional reason string.
    Close(Option<String>),
}

/// The transport form of a client message: the same payload, and for a
/// close message only the description of its reason.
pub open spec fn transport_of(msg: IncomingMessage) -> TransportMessage {
    match msg {
        IncomingMessage::Text(t) => TransportMessage::Text(t),
        IncomingMessage::Binary(b) => TransportMessage::Binary(b),
        IncomingMessage::Ping(b) => TransportMessage::Ping(b),
        IncomingMessage::Pong(b) => TransportMessage::Pong(b),
        IncomingMessage::Close(r) => TransportMessage::Close(
            match r {
                Some(reason) => reason.description,
                None => None,
            },
        ),
    }
}

impl TransportMessage {
    /// Converts a message received from the WebSocket into its transport
    /// form, as the WebSocket transport hands it to a handler.
    pub fn from_incoming(msg: IncomingMessage) -> (t: TransportMessage)
        ensures
            t == transport_of(msg),
            msg matches IncomingMessage::Text(x) ==> t == TransportMessage::Text(x),
            msg matches IncomingMessage::Binary(b) ==> t == TransportMessage::Binary(b),
            msg matches IncomingMessage::Ping(b) ==> t == TransportMessage::Ping(b),
            msg matches IncomingMessage::Pong(b) ==> t == TransportMessage::Pong(b),
            msg matches IncomingMessage::Close(r) ==> t == TransportMessage::Close(
                match r {
                    Some(reason) => reason.description,
                    None => None,
                },
            ),
    {
        match msg {
            IncomingMessage::Text(t) => TransportMessage::Text(t),
            IncomingMessage::Binary(b) => TransportMessage::Binary(b),
            IncomingMessage::Ping(b) => TransportMessage::Ping(b),
            IncomingMessage::Pong(b) => TransportMessage::Pong(b),
            IncomingMessage::Close(r) => TransportMessage::Close(
                match r {
                    Some(reason) => reason.description,
                    None => None,
                },
            ),
        }
    }
}

/// The conversion keeps each message's kind and payload: a pong stays a
/// pong with the same bytes (likewise text, binary data and pings), and a
/// close keeps its description.
pub proof fn law_conversion_keeps_kind_and_payload(x: String, b: Vec<u8>, reason: CloseReason)
    ensures
        transport_of(IncomingMessage::Text(x)) == TransportMessage::Text(x),
        transport_of(IncomingMessage::Binary(b)) == TransportMessage::Binary(b),
        transport_of(IncomingMessage::Ping(b)) == TransportMessage::Ping(b),
        transport_of(IncomingMessage::Pong(b)) == TransportMessage::Pong(b),
        transport_of(IncomingMessage::Close(Some(reason))) == TransportMessage::Close(reason.description),
        transport_of(IncomingMessage::Close(None)) == TransportMessage::Close(None),
{
}

/// Two different messages other than close frames never convert to the same
/// transport message: the conversion loses nothing but a close code.
pub proof fn law_conversion_injective(a: IncomingMessage, b: IncomingMessage)
    requires
        !(a is Close),
        !(b is Close),
        transport_of(a) == transport_of(b),
    ensures
        a == b,
{
}

} // verus!
