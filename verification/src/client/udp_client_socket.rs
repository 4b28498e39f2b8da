use vstd::prelude::*;

use crate::address::Address;
use crate::client::socket_event::{connection_step, ClientSocketError, SocketEvent};
use crate::constants::{header_of_byte, MessageHeader, HANDSHAKE_RESEND_INTERVAL};
use crate::utils::{ascii, ascii_text, lossy_utf8, utf8_lossy, without_front, StringUtils};

verus! {

/// What a receive call of an unconnected client does first.
#[derive(Clone, Copy, Debug, PartialEq, Eq, Structural)]
pub enum ReceiveStep {
    /// Send a client handshake to the server, then call `handshake_sent`.
    SendHandshake,
    /// Read one datagram, then hand it to `datagram_received`.
    Receive,
}

/// The text of the error for a datagram that does not come from the server.
pub open spec fn unknown_sender_text() -> Seq<char> {
    "Unknown sender."@
}

/// The connection logic of the UDP client: the server's address, whether the
/// server has answered the handshake, and how many receive calls remain before
/// the handshake is sent again.
///
/// A receive call runs `begin_receive`, then, as the step it returns says,
/// either sends a handshake and calls `handshake_sent`, or reads one datagram
/// and calls `datagram_received` (or reports the failed read).
#[derive(Clone, Copy, Debug)]
pub struct UdpClientSocket {
    address: Address,
    connected: bool,
    timeout: u16,
}

impl UdpClientSocket {
    /// The server's address.
    pub closed spec fn server(&self) -> Address {
        self.address
    }

    /// Whether the server has answered the handshake.
    pub closed spec fn is_connected(&self) -> bool {
        self.connected
    }

    /// Receive calls that remain before the handshake is sent again.
    pub closed spec fn countdown(&self) -> u16 {
        self.timeout
    }

    /// A client of the server at `server_address`, not yet connected, that
    /// sends its handshake on the first receive call.
    pub fn connect(server_address: Address) -> (socket: Self)
        ensures
            socket.server() == server_address,
            !socket.is_connected(),
            socket.countdown() == 0,
    {
        UdpClientSocket { address: server_address, connected: false, timeout: 0 }
    }

    /// Starts a receive call. An unconnected client whose countdown has run out
    /// asks for a handshake; one still counting down counts one call off; a
    /// connected client goes straight to reading.
    pub fn begin_receive(&mut self) -> (step: ReceiveStep)
        ensures
            connection_step(old(self).is_connected(), final(self).is_connected(), false),
            final(self).server() == old(self).server(),
            final(self).is_connected() == old(self).is_connected(),
            step == if !old(self).is_connected() && old(self).countdown() == 0 {
                ReceiveStep::SendHandshake
            } else {
                ReceiveStep::Receive
            },
            final(self).countdown() == if !old(self).is_connected() && old(self).countdown() > 0 {
                (old(self).countdown() - 1) as u16
            } else {
                old(self).countdown()
            },
    {
        if !self.connected {
            if self.timeout > 0 {
                self.timeout = self.timeout - 1;
            } else {
                return ReceiveStep::SendHandshake;
            }
        }
        ReceiveStep::Receive
    }

    /// Ends a receive call whose handshake went out: the countdown restarts and
    /// nothing is reported.
    pub fn handshake_sent(&mut self) -> (event: SocketEvent)
        ensures
            connection_step(old(self).is_connected(), final(self).is_connected(), false),
            event == SocketEvent::NoEvent,
            final(self).server() == old(self).server(),
            final(self).is_connected() == old(self).is_connected(),
            final(self).countdown() == HANDSHAKE_RESEND_INTERVAL,
    {
        self.timeout = HANDSHAKE_RESEND_INTERVAL;
        SocketEvent::NoEvent
    }

    /// Ends a receive call that read a datagram of `payload` from `from`. A
    /// datagram not from the server is an error. From the server, by its first
    /// byte: a server handshake connects an unconnected client and reports the
    /// connection; data reports the message that the payload decodes to, past
    /// its first character; anything else reports nothing.
    pub fn datagram_received(&mut self, from: Address, payload: &[u8]) -> (result: Result<
        SocketEvent,
        ClientSocketError,
    >)
        requires
            from == old(self).server() ==> payload@.len() >= 1,
        ensures
            connection_step(
                old(self).is_connected(),
                final(self).is_connected(),
                result == Ok::<SocketEvent, ClientSocketError>(SocketEvent::Connection),
            ),
            final(self).server() == old(self).server(),
            final(self).countdown() == old(self).countdown(),
            from != old(self).server() ==> (result matches Err(ClientSocketError::Message(text))
                && text@ == unknown_sender_text() && final(self).is_connected() == old(
                self,
            ).is_connected()),
            from == old(self).server() ==> {
                let header = header_of_byte(payload@[0]);
                &&& final(self).is_connected() == (old(self).is_connected() || header
                    == MessageHeader::ServerHandshake)
                &&& header == MessageHeader::ServerHandshake ==> result == if old(
                    self,
                ).is_connected() {
                    Ok::<SocketEvent, ClientSocketError>(SocketEvent::NoEvent)
                } else {
                    Ok::<SocketEvent, ClientSocketError>(SocketEvent::Connection)
                }
                &&& header == MessageHeader::Data ==> (result matches Ok(SocketEvent::Message(text))
                    && text@ == without_front(lossy_utf8(payload@), 1) && (ascii(payload@) ==> text@
                    == ascii_text(payload@.subrange(1, payload@.len() as int))))
                &&& (header != MessageHeader::ServerHandshake && header != MessageHeader::Data)
                    ==> result == Ok::<SocketEvent, ClientSocketError>(SocketEvent::NoEvent)
            },
    {
        if from == self.address {
            let header = MessageHeader::from(payload[0]);
            match header {
                MessageHeader::ServerHandshake => {
                    if !self.connected {
                        self.connected = true;
                        return Ok(SocketEvent::Connection);
                    }
                },
                MessageHeader::Data => {
                    let text = utf8_lossy(payload).trim_front(1);
                    proof {
                        if ascii(payload@) {
                            assert(ascii_text(payload@).subrange(1, payload@.len() as int) == ascii_text(
                                payload@.subrange(1, payload@.len() as int),
                            ));
                        }
                    }
                    return Ok(SocketEvent::Message(text));
                },
                _ => {},
            }
            Ok(SocketEvent::NoEvent)
        } else {
            Err(ClientSocketError::Message("Unknown sender.".to_owned()))
        }
    }

    /// The server's address.
    pub fn server_address(&self) -> (address: Address)
        ensures
            address == self.server(),
    {
        self.address
    }
}

} // verus!
