//! The server side: packets and events, and the UDP server's connection logic.

pub mod packet;
pub mod socket_event;
pub mod udp_server_socket;
pub mod udp_server_pass;
pub mod client_event;
pub mod webrtc_server_socket;

use vstd::prelude::*;

verus! {

/// The placeholder server of the early API: every hook is accepted and does
/// nothing yet.
#[derive(Clone, Copy, Debug, PartialEq, Eq, Structural)]
pub struct Server {}

impl Server {
    /// A server.
    pub fn new() -> (server: Server)
        ensures
            server == (Server {}),
    {
        Server {}
    }

    /// Accepts a connection hook; the server is unchanged.
    pub fn on_connect<F: Fn()>(&mut self, func: F)
        ensures
            *final(self) == *old(self),
    {
    }

    /// Accepts a disconnection hook; the server is unchanged.
    pub fn on_disconnect<F: Fn()>(&mut self, func: F)
        ensures
            *final(self) == *old(self),
    {
    }

    /// The server is unchanged.
    pub fn add_object(&mut self)
        ensures
            *final(self) == *old(self),
    {
    }

    /// The server is unchanged.
    pub fn remove_object(&mut self)
        ensures
            *final(self) == *old(self),
    {
    }

    /// The server is unchanged.
    pub fn send_message(&mut self)
        ensures
            *final(self) == *old(self),
    {
    }

    /// The server is unchanged.
    pub fn receive_message(&mut self)
        ensures
            *final(self) == *old(self),
    {
    }

    /// The server is unchanged.
    pub fn update(&mut self)
        ensures
            *final(self) == *old(self),
    {
    }
}

} // verus!
