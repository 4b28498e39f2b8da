use vstd::prelude::*;

use crate::address::Address;
use crate::transport::TransportEvent;
use crate::utils::{ascii, ascii_text, lossy_utf8, utf8_lossy};

verus! {

/// What a server on a connection-keeping transport reports about its clients.
#[derive(Debug, PartialEq, Eq)]
pub enum ClientEvent {
    Connection(Address),
    Disconnection(Address),
    Message(Address, String),
    Tick,
    /// Reading the transport's events failed.
    Error,
}

/// The client event that a transport event stands for: a new peer is a
/// connection, a datagram is a message of the text its bytes decode to, a
/// timed-out peer is a disconnection.
pub fn client_event_of(event: TransportEvent) -> (client_event: ClientEvent)
    ensures
        match event {
            TransportEvent::Connect(address) => client_event == ClientEvent::Connection(address),
            TransportEvent::Packet(address, payload) => client_event matches ClientEvent::Message(
                from,
                text,
            ) && from == address && text@ == lossy_utf8(payload@) && (ascii(payload@) ==> text@
                == ascii_text(payload@)),
            TransportEvent::Timeout(address) => client_event == ClientEvent::Disconnection(address),
        },
{
    match event {
        TransportEvent::Connect(address) => ClientEvent::Connection(address),
        TransportEvent::Packet(address, payload) => {
            ClientEvent::Message(address, utf8_lossy(payload.as_slice()))
        },
        TransportEvent::Timeout(address) => ClientEvent::Disconnection(address),
    }
}

/// What the callback-driven server does about a client event.
#[derive(Debug, PartialEq, Eq)]
pub enum ListenAction {
    /// Send the server handshake to the new client, then run the connection callback.
    HandshakeThenConnect(Address),
    /// Run the receive callback with this message from this client.
    Receive(Address, String),
    /// Run no callback.
    Ignore,
}

/// The action of the callback-driven server on a client event: a new client
/// is answered with the server handshake and handed to the connection
/// callback; a message goes to the receive callback; anything else, a
/// disconnection among them, runs no callback.
pub fn listen_action(event: ClientEvent) -> (action: ListenAction)
    ensures
        match event {
            ClientEvent::Connection(address) => action == ListenAction::HandshakeThenConnect(address),
            ClientEvent::Message(address, text) => action == ListenAction::Receive(address, text),
            _ => action == ListenAction::Ignore,
        },
{
    match event {
        ClientEvent::Connection(address) => ListenAction::HandshakeThenConnect(address),
        ClientEvent::Message(address, text) => ListenAction::Receive(address, text),
        _ => ListenAction::Ignore,
    }
}

} // verus!
