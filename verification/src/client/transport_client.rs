use vstd::prelude::*;

use crate::address::Address;
use crate::constants::SERVER_HANDSHAKE_MESSAGE;
use crate::transport::{decode, TextEvent, TransportEvent};
use crate::utils::{ascii, ascii_text, lossy_utf8};

verus! {

/// What a client on a connection-keeping transport reports.
#[derive(Debug, PartialEq, Eq)]
pub enum TransportClientEvent {
    /// The server answered the handshake.
    Connection(Address),
    /// The server sent a text message.
    Message(Address, String),
    /// The server timed out.
    Disconnection(Address),
    /// Something went wrong; the text says what.
    Error(String),
}

/// The error text for a connection from a host that is not the server.
pub open spec fn unknown_host_text() -> Seq<char> {
    "Client Socket has received a packet from an unknown host!"@
}

/// The error text for a datagram from a host that is not the server.
pub open spec fn unknown_sender_text() -> Seq<char> {
    "Unknown sender."@
}

/// What a decoded transport event means to a client of the server at
/// `server`: a message from the server is its connection when it is the server
/// handshake and a message otherwise; a message from another host, or a
/// connection, is an error; a timeout is a disconnection.
pub fn client_event_of_text(server: Address, event: TextEvent) -> (client_event: TransportClientEvent)
    ensures
        match event {
            TextEvent::Connect(_) => client_event matches TransportClientEvent::Error(text)
                && text@ == unknown_host_text(),
            TextEvent::Message(address, text) => if address == server {
                if text@ == SERVER_HANDSHAKE_MESSAGE@ {
                    client_event == TransportClientEvent::Connection(address)
                } else {
                    client_event == TransportClientEvent::Message(address, text)
                }
            } else {
                client_event matches TransportClientEvent::Error(error) && error@
                    == unknown_sender_text()
            },
            TextEvent::Timeout(address) => client_event
                == TransportClientEvent::Disconnection(address),
        },
{
    match event {
        TextEvent::Connect(_) => {
            TransportClientEvent::Error(
                "Client Socket has received a packet from an unknown host!".to_owned(),
            )
        },
        TextEvent::Message(address, text) => {
            if address == server {
                if text == SERVER_HANDSHAKE_MESSAGE.to_owned() {
                    TransportClientEvent::Connection(address)
                } else {
                    TransportClientEvent::Message(address, text)
                }
            } else {
                TransportClientEvent::Error("Unknown sender.".to_owned())
            }
        },
        TextEvent::Timeout(address) => TransportClientEvent::Disconnection(address),
    }
}

/// What a transport event means to a client of the server at `server`: a
/// datagram from the server is its connection when its text is the server
/// handshake and a message otherwise; a datagram from another host, or a
/// connection, is an error; a timeout is a disconnection.
pub fn client_event_of(server: Address, event: TransportEvent) -> (client_event: TransportClientEvent)
    ensures
        match event {
            TransportEvent::Connect(_) => client_event matches TransportClientEvent::Error(text)
                && text@ == unknown_host_text(),
            TransportEvent::Packet(address, payload) => (ascii(payload@) ==> lossy_utf8(payload@)
                == ascii_text(payload@)) && if address == server {
                if lossy_utf8(payload@) == SERVER_HANDSHAKE_MESSAGE@ {
                    client_event == TransportClientEvent::Connection(address)
                } else {
                    client_event matches TransportClientEvent::Message(from, text) && from == address
                        && text@ == lossy_utf8(payload@)
                }
            } else {
                client_event matches TransportClientEvent::Error(text) && text@
                    == unknown_sender_text()
            },
            TransportEvent::Timeout(address) => client_event
                == TransportClientEvent::Disconnection(address),
        },
{
    client_event_of_text(server, decode(event))
}

} // verus!
