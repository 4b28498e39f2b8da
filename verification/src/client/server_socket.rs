use vstd::prelude::*;

use std::collections::VecDeque;

use crate::address::Address;
use crate::constants::SERVER_HANDSHAKE_MESSAGE;
use crate::transport::{decode, TextEvent, TransportEvent};
use crate::utils::{ascii, ascii_text, lossy_utf8};

verus! {

/// Which user callback a client on a connection-keeping transport runs for an
/// event.
#[derive(Debug, PartialEq, Eq)]
pub enum ClientCallback {
    /// The connection callback: the server answered the handshake.
    OnConnection,
    /// The receive callback, with the message the server sent.
    OnReceive(String),
    /// The disconnection callback: the server timed out.
    OnDisconnection,
    /// No callback runs.
    Ignored,
}

/// How a callback goes with the connected flag before and after the event:
/// the connection callback only when an unconnected server connects, the
/// disconnection callback only when a connected one disconnects, and otherwise
/// the flag is unchanged.
pub open spec fn callback_step(before: bool, after: bool, callback: ClientCallback) -> bool {
    match callback {
        ClientCallback::OnConnection => !before && after,
        ClientCallback::OnDisconnection => before && !after,
        _ => after == before,
    }
}

/// Whether a callback is the connection or the disconnection callback.
pub open spec fn is_transition(callback: ClientCallback) -> bool {
    callback is OnConnection || callback is OnDisconnection
}

/// Over steps that run no connection or disconnection callback, the connected
/// flag stays as it was.
proof fn lemma_flag_steady(connected: Seq<bool>, callbacks: Seq<ClientCallback>, a: int, b: int)
    requires
        connected.len() == callbacks.len() + 1,
        forall|k: int|
            0 <= k < callbacks.len() ==> callback_step(#[trigger] connected[k], connected[k + 1], callbacks[k]),
        0 <= a <= b <= callbacks.len(),
        forall|k: int| a <= k < b ==> !is_transition(#[trigger] callbacks[k]),
    ensures
        connected[b] == connected[a],
    decreases b - a,
{
    if a < b {
        lemma_flag_steady(connected, callbacks, a, b - 1);
        assert(callback_step(connected[b - 1], connected[b], callbacks[b - 1]));
    }
}

/// Starting unconnected, the connection and disconnection callbacks alternate:
/// the first of them is a connection, and each one after is the other kind
/// than the one before it.
pub proof fn lemma_callbacks_alternate(connected: Seq<bool>, callbacks: Seq<ClientCallback>, i: int, j: int)
    requires
        connected.len() == callbacks.len() + 1,
        !connected[0],
        forall|k: int|
            0 <= k < callbacks.len() ==> callback_step(#[trigger] connected[k], connected[k + 1], callbacks[k]),
        0 <= j < callbacks.len(),
        is_transition(callbacks[j]),
        -1 <= i < j,
        i >= 0 ==> is_transition(callbacks[i]),
        forall|k: int| i < k < j ==> !is_transition(#[trigger] callbacks[k]),
    ensures
        i == -1 ==> callbacks[j] is OnConnection,
        i >= 0 ==> ((callbacks[i] is OnConnection) != (callbacks[j] is OnConnection)),
{
    lemma_flag_steady(connected, callbacks, i + 1, j);
    assert(callback_step(connected[j], connected[j + 1], callbacks[j]));
    if i >= 0 {
        assert(callback_step(connected[i], connected[i + 1], callbacks[i]));
    }
}

/// The client's view of the server: its address, whether it has answered the
/// handshake, and the messages held back until it does.
#[derive(Debug)]
pub struct ServerSocket {
    address: Address,
    connected: bool,
    send_queue: VecDeque<String>,
}

impl ServerSocket {
    /// The server's address.
    pub closed spec fn server(&self) -> Address {
        self.address
    }

    /// Whether the server has answered the handshake.
    pub closed spec fn is_connected(&self) -> bool {
        self.connected
    }

    /// Messages held back, first to last.
    pub closed spec fn queue(&self) -> Seq<String> {
        self.send_queue@
    }

    /// The server at `address`, not yet connected, with nothing held back.
    pub fn new(address: Address) -> (socket: ServerSocket)
        ensures
            socket.server() == address,
            !socket.is_connected(),
            socket.queue() == Seq::<String>::empty(),
    {
        ServerSocket { address, connected: false, send_queue: VecDeque::new() }
    }

    /// The server's address.
    pub fn server_address(&self) -> (address: Address)
        ensures
            address == self.server(),
    {
        self.address
    }

    /// Holds `msg` back until the server is connected.
    pub fn add_to_send_queue(&mut self, msg: &str)
        ensures
            final(self).queue().len() == old(self).queue().len() + 1,
            final(self).queue().drop_last() == old(self).queue(),
            final(self).queue().last()@ == msg@,
            final(self).server() == old(self).server(),
            final(self).is_connected() == old(self).is_connected(),
    {
        self.send_queue.push_back(msg.to_owned());
    }

    /// Once connected, hands out every message held back, first to last, to be
    /// sent, and holds nothing back any more; before that, hands out nothing.
    pub fn process_send_queue(&mut self) -> (to_send: Vec<String>)
        ensures
            final(self).server() == old(self).server(),
            final(self).is_connected() == old(self).is_connected(),
            old(self).is_connected() ==> to_send@ == old(self).queue() && final(self).queue()
                == Seq::<String>::empty(),
            !old(self).is_connected() ==> to_send@ == Seq::<String>::empty() && final(self).queue()
                == old(self).queue(),
    {
        let mut to_send: Vec<String> = Vec::new();
        if !self.connected {
            return to_send;
        }
        let ghost held = self.send_queue@;
        loop
            invariant
                self.address == old(self).server(),
                self.connected == old(self).is_connected(),
                held == old(self).send_queue@,
                to_send@ + self.send_queue@ == held,
            ensures
                self.address == old(self).server(),
                self.connected == old(self).is_connected(),
                to_send@ == held,
                self.send_queue@ == Seq::<String>::empty(),
            decreases self.send_queue@.len(),
        {
            let ghost before = self.send_queue@;
            match self.send_queue.pop_front() {
                Some(msg) => {
                    to_send.push(msg);
                    proof {
                        assert(to_send@ + self.send_queue@ =~= held);
                    }
                },
                None => {
                    proof {
                        assert(to_send@ =~= held);
                    }
                    break;
                },
            }
        }
        to_send
    }

    /// What goes to the server when `msg` is sent to it: `msg` itself, at once,
    /// whether or not the server is connected.
    pub fn send(&self, msg: &str) -> (text: String)
        ensures
            text@ == msg@,
    {
        msg.to_owned()
    }

    /// How the client sends `msg`: at once (it is handed back, to be sent) if
    /// the server is connected, held back otherwise.
    pub fn send_when_connected(&mut self, msg: &str) -> (send_now: Option<String>)
        ensures
            final(self).server() == old(self).server(),
            final(self).is_connected() == old(self).is_connected(),
            old(self).is_connected() ==> {
                &&& send_now matches Some(text) && text@ == msg@
                &&& final(self).queue() == old(self).queue()
            },
            !old(self).is_connected() ==> {
                &&& send_now is None
                &&& final(self).queue().len() == old(self).queue().len() + 1
                &&& final(self).queue().drop_last() == old(self).queue()
                &&& final(self).queue().last()@ == msg@
            },
    {
        if self.connected {
            Some(self.send(msg))
        } else {
            self.add_to_send_queue(msg);
            None
        }
    }

    /// Handles a transport event whose datagram is decoded: a message from the
    /// server that is the server handshake connects an unconnected server and
    /// runs the connection callback (a repeated handshake runs none); any other
    /// message from the server runs the receive callback with it; a timeout of a
    /// connected server disconnects it and runs the disconnection callback;
    /// anything else runs no callback.
    pub fn handle_text_event(&mut self, event: TextEvent) -> (callback: ClientCallback)
        ensures
            final(self).server() == old(self).server(),
            final(self).queue() == old(self).queue(),
            callback_step(old(self).is_connected(), final(self).is_connected(), callback),
            match event {
                TextEvent::Message(from, text) => if from == old(self).server() {
                    if text@ == SERVER_HANDSHAKE_MESSAGE@ {
                        &&& final(self).is_connected()
                        &&& callback == if old(self).is_connected() {
                            ClientCallback::Ignored
                        } else {
                            ClientCallback::OnConnection
                        }
                    } else {
                        &&& final(self).is_connected() == old(self).is_connected()
                        &&& callback == ClientCallback::OnReceive(text)
                    }
                } else {
                    final(self).is_connected() == old(self).is_connected() && callback == ClientCallback::Ignored
                },
                TextEvent::Timeout(_) => {
                    &&& !final(self).is_connected()
                    &&& callback == if old(self).is_connected() {
                        ClientCallback::OnDisconnection
                    } else {
                        ClientCallback::Ignored
                    }
                },
                TextEvent::Connect(_) => final(self).is_connected() == old(self).is_connected() && callback
                    == ClientCallback::Ignored,
            },
    {
        match event {
            TextEvent::Message(from, text) => {
                if from == self.address {
                    if text == SERVER_HANDSHAKE_MESSAGE.to_owned() {
                        if !self.connected {
                            self.connected = true;
                            return ClientCallback::OnConnection;
                        }
                        ClientCallback::Ignored
                    } else {
                        ClientCallback::OnReceive(text)
                    }
                } else {
                    ClientCallback::Ignored
                }
            },
            TextEvent::Timeout(_) => {
                if self.connected {
                    self.connected = false;
                    return ClientCallback::OnDisconnection;
                }
                ClientCallback::Ignored
            },
            TextEvent::Connect(_) => ClientCallback::Ignored,
        }
    }

    /// Handles a transport event: a datagram from the server whose text is the
    /// server handshake connects an unconnected server and runs the connection
    /// callback (a repeated handshake runs none); any other datagram from the
    /// server runs the receive callback with its text; a timeout of a connected
    /// server disconnects it and runs the disconnection callback; anything else
    /// runs no callback.
    pub fn handle_event(&mut self, event: TransportEvent) -> (callback: ClientCallback)
        ensures
            final(self).server() == old(self).server(),
            final(self).queue() == old(self).queue(),
            callback_step(old(self).is_connected(), final(self).is_connected(), callback),
            match event {
                TransportEvent::Packet(from, payload) => (ascii(payload@) ==> lossy_utf8(payload@)
                    == ascii_text(payload@)) && if from == old(self).server() {
                    if lossy_utf8(payload@) == SERVER_HANDSHAKE_MESSAGE@ {
                        &&& final(self).is_connected()
                        &&& callback == if old(self).is_connected() {
                            ClientCallback::Ignored
                        } else {
                            ClientCallback::OnConnection
                        }
                    } else {
                        &&& final(self).is_connected() == old(self).is_connected()
                        &&& callback matches ClientCallback::OnReceive(text)
                        &&& text@ == lossy_utf8(payload@)
                    }
                } else {
                    final(self).is_connected() == old(self).is_connected() && callback == ClientCallback::Ignored
                },
                TransportEvent::Timeout(_) => {
                    &&& !final(self).is_connected()
                    &&& callback == if old(self).is_connected() {
                        ClientCallback::OnDisconnection
                    } else {
                        ClientCallback::Ignored
                    }
                },
                TransportEvent::Connect(_) => final(self).is_connected() == old(self).is_connected() && callback
                    == ClientCallback::Ignored,
            },
    {
        self.handle_text_event(decode(event))
    }
}

} // verus!
