//! The decisions of the ping-pong example programs: the server answers "ping"
//! with "pong"; the client answers "pong" with "ping", a bounded number of times.

use vstd::prelude::*;

use crate::client::socket_event::SocketEvent;

verus! {

/// The message the example client sends.
pub const PING_MSG: &'static str = "ping";

/// The message the example server answers with.
pub const PONG_MSG: &'static str = "pong";

/// How many "pong" messages the example client answers.
pub const MAX_REPLIES: u8 = 10;

/// The example server's answer to `message`: "pong" to "ping", nothing otherwise.
pub fn server_reply(message: &str) -> (reply: Option<String>)
    ensures
        message@ == PING_MSG@ ==> (reply matches Some(text) && text@ == PONG_MSG@),
        message@ != PING_MSG@ ==> reply is None,
{
    if message.to_owned() == PING_MSG.to_owned() {
        Some(PONG_MSG.to_owned())
    } else {
        None
    }
}

/// The example client that answers "pong" with "ping" until it has answered
/// `MAX_REPLIES` times.
#[derive(Clone, Copy, Debug)]
pub struct App {
    message_count: u8,
}

impl App {
    /// How many times the client has answered.
    pub closed spec fn replies(&self) -> u8 {
        self.message_count
    }

    /// A client that has answered nothing yet.
    pub fn new() -> (app: App)
        ensures
            app.replies() == 0,
    {
        App { message_count: 0 }
    }

    /// The message the client opens with: "ping".
    pub fn first_message(&self) -> (message: String)
        ensures
            message@ == PING_MSG@,
    {
        PING_MSG.to_owned()
    }

    /// Handles a message from the server: "pong" is answered with "ping" while
    /// fewer than `MAX_REPLIES` answers went out; anything else is not answered.
    pub fn on_message(&mut self, message: &str) -> (reply: Option<String>)
        ensures
            old(self).replies() <= MAX_REPLIES ==> final(self).replies() <= MAX_REPLIES,
            if message@ == PONG_MSG@ && old(self).replies() < MAX_REPLIES {
                &&& reply matches Some(text) && text@ == PING_MSG@
                &&& final(self).replies() == old(self).replies() + 1
            } else {
                &&& reply is None
                &&& final(self).replies() == old(self).replies()
            },
    {
        if message.to_owned() == PONG_MSG.to_owned() && self.message_count < MAX_REPLIES {
            self.message_count = self.message_count + 1;
            Some(PING_MSG.to_owned())
        } else {
            None
        }
    }
}

/// What the earlier example client sends on an event: "ping" once connected,
/// and "ping" again for every "pong".
pub fn client_reply(event: &SocketEvent) -> (reply: Option<String>)
    ensures
        match event {
            SocketEvent::Connection => reply matches Some(text) && text@ == PING_MSG@,
            SocketEvent::Message(message) => if message@ == PONG_MSG@ {
                reply matches Some(text) && text@ == PING_MSG@
            } else {
                reply is None
            },
            SocketEvent::NoEvent => reply is None,
        },
{
    match event {
        SocketEvent::Connection => Some(PING_MSG.to_owned()),
        SocketEvent::Message(message) => {
            if *message == PONG_MSG.to_owned() {
                Some(PING_MSG.to_owned())
            } else {
                None
            }
        },
        SocketEvent::NoEvent => None,
    }
}

} // verus!
