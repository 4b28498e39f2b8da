use vstd::prelude::*;

use crate::address::Address;
use crate::utils::{ascii, ascii_text, lossy_utf8, utf8_lossy};

verus! {

/// An event of a transport that keeps its own connections: a peer appeared,
/// sent a datagram, or timed out.
#[derive(Debug, PartialEq, Eq)]
pub enum TransportEvent {
    Connect(Address),
    Packet(Address, Vec<u8>),
    Timeout(Address),
}

/// A transport event with its datagram decoded to text.
#[derive(Debug, PartialEq, Eq)]
pub enum TextEvent {
    Connect(Address),
    Message(Address, String),
    Timeout(Address),
}

/// The transport event with its datagram's bytes decoded as UTF-8, invalid
/// sequences replaced.
pub fn decode(event: TransportEvent) -> (text_event: TextEvent)
    ensures
        match event {
            TransportEvent::Connect(address) => text_event == TextEvent::Connect(address),
            TransportEvent::Packet(address, payload) => text_event matches TextEvent::Message(
                from,
                text,
            ) && from == address && text@ == lossy_utf8(payload@) && (ascii(payload@) ==> text@
                == ascii_text(payload@)),
            TransportEvent::Timeout(address) => text_event == TextEvent::Timeout(address),
        },
{
    match event {
        TransportEvent::Connect(address) => TextEvent::Connect(address),
        TransportEvent::Packet(address, payload) => TextEvent::Message(
            address,
            utf8_lossy(payload.as_slice()),
        ),
        TransportEvent::Timeout(address) => TextEvent::Timeout(address),
    }
}

} // verus!
