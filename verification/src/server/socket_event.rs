use vstd::prelude::*;

use crate::address::Address;
use crate::server::packet::Packet;

verus! {

/// What a server socket reports to its user.
#[derive(Debug)]
pub enum SocketEvent {
    /// A client sent data.
    Packet(Packet),
    /// A client completed the handshake.
    Connection(Address),
    /// A client was silent too long and was dropped.
    Disconnection(Address),
    /// The tick interval passed.
    Tick,
}

/// Why a server socket could not report an event.
#[derive(Clone, Copy, Debug, PartialEq, Eq, Structural)]
pub enum ServerSocketError {
    /// Reading from or writing to the socket failed.
    Wrapped,
    /// A packet could not be sent to this peer.
    SendError(Address),
}

} // verus!
