use vstd::prelude::*;

verus! {

/// The first byte of every datagram exchanged between client and server.
#[derive(Clone, Copy, Debug, PartialEq, Eq, Structural)]
pub enum MessageHeader {
    ServerHandshake,
    ClientHandshake,
    Heartbeat,
    Data,
    Unknown,
}

/// Largest datagram payload the sockets read at once.
pub const DEFAULT_MTU: u16 = 1452;

/// Text a client sends to open a connection, on transports that carry text.
pub const CLIENT_HANDSHAKE_MESSAGE: &'static str = "client-handshake-request";

/// Text a server answers a client handshake with, on transports that carry text.
pub const SERVER_HANDSHAKE_MESSAGE: &'static str = "server-handshake-response";

/// How many receive calls an unconnected client lets pass between two handshakes.
pub const HANDSHAKE_RESEND_INTERVAL: u16 = 100;

/// The byte that stands for a header on the wire.
pub open spec fn header_byte(header: MessageHeader) -> u8 {
    match header {
        MessageHeader::ServerHandshake => 0,
        MessageHeader::ClientHandshake => 1,
        MessageHeader::Heartbeat => 2,
        MessageHeader::Data => 3,
        MessageHeader::Unknown => 255,
    }
}

/// The header that a byte read off the wire stands for.
pub open spec fn header_of_byte(byte: u8) -> MessageHeader {
    if byte == 0 {
        MessageHeader::ServerHandshake
    } else if byte == 1 {
        MessageHeader::ClientHandshake
    } else if byte == 2 {
        MessageHeader::Heartbeat
    } else if byte == 3 {
        MessageHeader::Data
    } else {
        MessageHeader::Unknown
    }
}

impl MessageHeader {
    /// The wire byte of this header.
    pub fn to_u8(self) -> (byte: u8)
        ensures
            byte == header_byte(self),
    {
        match self {
            MessageHeader::ServerHandshake => 0,
            MessageHeader::ClientHandshake => 1,
            MessageHeader::Heartbeat => 2,
            MessageHeader::Data => 3,
            MessageHeader::Unknown => 255,
        }
    }
}

impl From<u8> for MessageHeader {
    fn from(orig: u8) -> (header: MessageHeader) {
        match orig {
            0 => MessageHeader::ServerHandshake,
            1 => MessageHeader::ClientHandshake,
            2 => MessageHeader::Heartbeat,
            3 => MessageHeader::Data,
            _ => MessageHeader::Unknown,
        }
    }
}

impl vstd::std_specs::convert::FromSpecImpl<u8> for MessageHeader {
    open spec fn obeys_from_spec() -> bool {
        true
    }

    open spec fn from_spec(orig: u8) -> MessageHeader {
        header_of_byte(orig)
    }
}

/// Decoding the wire byte of any header gives that header back.
pub proof fn lemma_header_round_trip(header: MessageHeader)
    ensures
        header_of_byte(header_byte(header)) == header,
{
}

/// A byte decodes to a header whose wire byte is that same byte exactly
/// when it is one of the five bytes that the headers use.
pub proof fn lemma_byte_round_trip(byte: u8)
    ensures
        (header_byte(header_of_byte(byte)) == byte) <==> (byte <= 3 || byte == 255),
{
}

} // verus!
