use vstd::prelude::*;

use std::collections::VecDeque;

use crate::address::Address;
use crate::client::socket_event::{connection_step, SocketEvent};
use crate::constants::{HANDSHAKE_RESEND_INTERVAL, SERVER_HANDSHAKE_MESSAGE};

verus! {

/// What a receive call of the WebRTC client hands back.
#[derive(Debug, PartialEq, Eq)]
pub enum Received {
    /// Send the client handshake text on the data channel; nothing is reported.
    SendHandshake,
    /// Report this event.
    Event(SocketEvent),
}

/// How many server handshakes stand at the front of `queue`, before its first
/// other message.
pub open spec fn leading_handshakes(queue: Seq<String>) -> nat
    decreases queue.len(),
{
    if queue.len() == 0 {
        0
    } else if queue[0]@ == SERVER_HANDSHAKE_MESSAGE@ {
        1 + leading_handshakes(queue.drop_first())
    } else {
        0
    }
}

/// There are never more leading handshakes than messages.
pub proof fn lemma_leading_handshakes_bounded(queue: Seq<String>)
    ensures
        leading_handshakes(queue) <= queue.len(),
    decreases queue.len(),
{
    if queue.len() > 0 && queue[0]@ == SERVER_HANDSHAKE_MESSAGE@ {
        lemma_leading_handshakes_bounded(queue.drop_first());
    }
}

/// The connection logic of the WebRTC client: the server's address, the text
/// messages that arrived on the data channel and wait to be reported, whether the
/// server has answered the handshake, and how many receive calls remain before
/// the handshake is sent again.
#[derive(Debug)]
pub struct WebrtcClientSocket {
    address: Address,
    message_queue: VecDeque<String>,
    connected: bool,
    timeout: u16,
}

impl WebrtcClientSocket {
    /// The server's address.
    pub closed spec fn server(&self) -> Address {
        self.address
    }

    /// Messages waiting to be reported, first to last.
    pub closed spec fn queue(&self) -> Seq<String> {
        self.message_queue@
    }

    /// Whether the server has answered the handshake.
    pub closed spec fn is_connected(&self) -> bool {
        self.connected
    }

    /// Receive calls that remain before the handshake is sent again.
    pub closed spec fn countdown(&self) -> u16 {
        self.timeout
    }

    /// A client of the server at `server_address`, not yet connected, with no
    /// messages waiting.
    pub fn connect(server_address: Address) -> (socket: Self)
        ensures
            socket.server() == server_address,
            socket.queue() == Seq::<String>::empty(),
            !socket.is_connected(),
            socket.countdown() == 0,
    {
        WebrtcClientSocket {
            address: server_address,
            message_queue: VecDeque::new(),
            connected: false,
            timeout: 0,
        }
    }

    /// Queues a text message that arrived on the data channel.
    pub fn push_message(&mut self, message: String)
        ensures
            final(self).queue() == old(self).queue().push(message),
            final(self).server() == old(self).server(),
            final(self).is_connected() == old(self).is_connected(),
            final(self).countdown() == old(self).countdown(),
    {
        self.message_queue.push_back(message);
    }

    /// One receive call. An unconnected client whose countdown has run out
    /// restarts it and asks for the handshake to be sent. Otherwise (an
    /// unconnected client counting one call off) waiting messages are reported:
    /// an unconnected client reports the first one, where a server handshake
    /// connects it and is reported as the connection; a connected client passes
    /// over leading server handshakes and reports the first other message. With
    /// nothing to report, nothing is reported.
    pub fn receive(&mut self) -> (received: Received)
        ensures
            connection_step(
                old(self).is_connected(),
                final(self).is_connected(),
                received == Received::Event(SocketEvent::Connection),
            ),
            final(self).server() == old(self).server(),
            ({
                let q = old(self).queue();
                if !old(self).is_connected() && old(self).countdown() == 0 {
                    &&& received == Received::SendHandshake
                    &&& final(self).countdown() == HANDSHAKE_RESEND_INTERVAL
                    &&& final(self).queue() == q
                    &&& !final(self).is_connected()
                } else if !old(self).is_connected() {
                    &&& final(self).countdown() == (old(self).countdown() - 1) as u16
                    &&& q.len() == 0 ==> {
                        &&& received == Received::Event(SocketEvent::NoEvent)
                        &&& final(self).queue() == q
                        &&& !final(self).is_connected()
                    }
                    &&& q.len() > 0 ==> final(self).queue() == q.drop_first()
                    &&& (q.len() > 0 && q[0]@ == SERVER_HANDSHAKE_MESSAGE@) ==> {
                        &&& received == Received::Event(SocketEvent::Connection)
                        &&& final(self).is_connected()
                    }
                    &&& (q.len() > 0 && q[0]@ != SERVER_HANDSHAKE_MESSAGE@) ==> {
                        &&& received == Received::Event(SocketEvent::Message(q[0]))
                        &&& !final(self).is_connected()
                    }
                } else {
                    let k = leading_handshakes(q);
                    &&& final(self).countdown() == old(self).countdown()
                    &&& final(self).is_connected()
                    &&& k == q.len() ==> {
                        &&& received == Received::Event(SocketEvent::NoEvent)
                        &&& final(self).queue() == Seq::<String>::empty()
                    }
                    &&& k < q.len() ==> {
                        &&& received == Received::Event(SocketEvent::Message(q[k as int]))
                        &&& final(self).queue() == q.subrange(k + 1int, q.len() as int)
                    }
                }
            }),
    {
        if !self.connected {
            if self.timeout > 0 {
                self.timeout = self.timeout - 1;
            } else {
                self.timeout = HANDSHAKE_RESEND_INTERVAL;
                return Received::SendHandshake;
            }
        }
        let handshake = SERVER_HANDSHAKE_MESSAGE.to_owned();
        let ghost q = self.message_queue@;
        let ghost was_connected = self.connected;
        let ghost countdown = self.timeout;
        let ghost mut skipped: int = 0;
        proof {
            lemma_leading_handshakes_bounded(q);
        }
        loop
            invariant
                handshake@ == SERVER_HANDSHAKE_MESSAGE@,
                q == old(self).message_queue@,
                was_connected == old(self).connected,
                !was_connected ==> old(self).timeout > 0 && countdown == old(self).timeout - 1,
                was_connected ==> countdown == old(self).timeout,
                self.address == old(self).address,
                self.timeout == countdown,
                self.connected == was_connected,
                skipped > 0 ==> was_connected,
                0 <= skipped <= q.len(),
                self.message_queue@ == q.subrange(skipped, q.len() as int),
                was_connected ==> leading_handshakes(q) == skipped + leading_handshakes(
                    self.message_queue@,
                ),
            ensures
                self.address == old(self).address,
                self.timeout == countdown,
            decreases self.message_queue@.len(),
        {
            let ghost before = self.message_queue@;
            match self.message_queue.pop_front() {
                None => {
                    return Received::Event(SocketEvent::NoEvent);
                },
                Some(message) => {
                    proof {
                        assert(before[0] == message);
                        assert(before.drop_first() == q.subrange(skipped + 1, q.len() as int));
                        assert(q[skipped] == message);
                    }
                    if message == handshake {
                        if !self.connected {
                            self.connected = true;
                            return Received::Event(SocketEvent::Connection);
                        }
                        proof {
                            skipped = skipped + 1;
                        }
                    } else {
                        return Received::Event(SocketEvent::Message(message));
                    }
                },
            }
        }
    }

    /// The server's address.
    pub fn server_address(&self) -> (address: Address)
        ensures
            address == self.server(),
    {
        self.address
    }
}

} // verus!
