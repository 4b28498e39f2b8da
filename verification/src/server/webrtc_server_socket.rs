use vstd::prelude::*;

use crate::address::Address;
use crate::server::client_event::ClientEvent;
use crate::server::packet::Packet;
use crate::server::socket_event::{ServerSocketError, SocketEvent};

verus! {

/// The HTTP method of a request to the session endpoint.
#[derive(Clone, Copy, Debug, PartialEq, Eq, Structural)]
pub enum Method {
    Get,
    Post,
    Other,
}

/// How the session endpoint answers an HTTP request.
#[derive(Clone, Copy, Debug, PartialEq, Eq, Structural)]
pub enum Route {
    /// Serve the example page.
    Index,
    /// Open a WebRTC session from the offer in the request body.
    NewSession,
    /// Answer 404.
    NotFound,
}

/// The route of a request to the server's session endpoint: a POST to
/// `/new_rtc_session` opens a session, anything else is not found.
pub fn route_session_request(path: &str, method: Method) -> (route: Route)
    ensures
        route == if path@ == "/new_rtc_session"@ && method == Method::Post {
            Route::NewSession
        } else {
            Route::NotFound
        },
{
    if path.to_owned() == "/new_rtc_session".to_owned() && method == Method::Post {
        Route::NewSession
    } else {
        Route::NotFound
    }
}

/// The route of a request to the example server, which also serves its page:
/// the root path, or a GET of `/index.html`, is the page; a POST to
/// `/new_rtc_session` opens a session; anything else is not found.
pub fn route_example_request(path: &str, method: Method) -> (route: Route)
    ensures
        route == if path@ == "/"@ || (path@ == "/index.html"@ && method == Method::Get) {
            Route::Index
        } else if path@ == "/new_rtc_session"@ && method == Method::Post {
            Route::NewSession
        } else {
            Route::NotFound
        },
{
    let path = path.to_owned();
    if path == "/".to_owned() || (path == "/index.html".to_owned() && method == Method::Get) {
        Route::Index
    } else if path == "/new_rtc_session".to_owned() && method == Method::Post {
        Route::NewSession
    } else {
        Route::NotFound
    }
}

/// The URL a browser client posts its session offer to, for a server at
/// `address` (`host:port`).
pub fn session_url(address: &str) -> (url: String)
    ensures
        url@ == "http://"@ + address@ + "/new_rtc_session"@,
{
    let mut url = "http://".to_owned();
    url.append(address);
    url.append("/new_rtc_session");
    url
}

/// What the receive loop of the WebRTC server woke up with.
#[derive(Debug)]
pub enum Wakeup {
    /// A packet arrived from a client.
    FromClient(Packet),
    /// Reading from the clients failed.
    ReadFailed,
    /// A packet handed over by the user went out to its client.
    Sent,
    /// A packet handed over by the user could not be sent to this client.
    SendFailed(Address),
    /// The tick interval passed.
    PeriodicTimer,
}

/// A message to or from a client; a message without text stands for the
/// client itself, as in a connection or disconnection notice.
#[derive(Debug, PartialEq, Eq)]
pub struct ClientMessage {
    pub address: Address,
    pub message: Option<String>,
}

/// What the event loop of the callback-driven WebRTC server woke up for.
#[derive(Debug, PartialEq, Eq)]
pub enum Next {
    /// A client connected or disconnected, or another client event arrived.
    IncomingEvent(ClientEvent),
    /// The user handed over a message to send.
    OutgoingMessage(ClientMessage),
    /// The periodic timer fired.
    PeriodicTimer,
}

/// What the callback-driven WebRTC server does about what it woke up for.
#[derive(Debug, PartialEq, Eq)]
pub enum Dispatch {
    /// Run the connection callback with this notice.
    OnConnection(ClientMessage),
    /// Run the disconnection callback with this notice.
    OnDisconnection(ClientMessage),
    /// Send this text to this client, as a text message.
    SendText(Address, String),
    /// Nothing to do.
    Ignore,
}

/// The dispatch of one wake-up: a connection or disconnection runs the matching
/// callback with a notice for that client; an outgoing message with text is
/// sent to its client; an outgoing message without text, the timer and any
/// other event need nothing.
pub fn process(next: Next) -> (dispatch: Dispatch)
    ensures
        match next {
            Next::IncomingEvent(ClientEvent::Connection(address)) => dispatch == Dispatch::OnConnection(
                ClientMessage { address, message: None },
            ),
            Next::IncomingEvent(ClientEvent::Disconnection(address)) => dispatch
                == Dispatch::OnDisconnection(ClientMessage { address, message: None }),
            Next::OutgoingMessage(ClientMessage { address, message: Some(text) }) => dispatch
                == Dispatch::SendText(address, text),
            _ => dispatch == Dispatch::Ignore,
        },
{
    match next {
        Next::IncomingEvent(event) => match event {
            ClientEvent::Connection(address) => Dispatch::OnConnection(
                ClientMessage { address, message: None },
            ),
            ClientEvent::Disconnection(address) => Dispatch::OnDisconnection(
                ClientMessage { address, message: None },
            ),
            _ => Dispatch::Ignore,
        },
        Next::OutgoingMessage(outgoing) => match outgoing.message {
            Some(text) => Dispatch::SendText(outgoing.address, text),
            None => Dispatch::Ignore,
        },
        Next::PeriodicTimer => Dispatch::Ignore,
    }
}

/// No address occurs twice in `clients`.
pub open spec fn no_duplicates(clients: Seq<Address>) -> bool {
    forall|i: int, j: int|
        0 <= i < clients.len() && 0 <= j < clients.len() && i != j ==> clients[i] != clients[j]
}

/// The clients the WebRTC server has heard from, each once, in the order it
/// first heard from them.
#[derive(Debug)]
pub struct WebrtcServerSocket {
    clients: Vec<Address>,
}

impl WebrtcServerSocket {
    /// The clients heard from so far.
    pub closed spec fn clients(&self) -> Seq<Address> {
        self.clients@
    }

    /// A server that has heard from nobody.
    pub fn new() -> (socket: Self)
        ensures
            socket.clients() == Seq::<Address>::empty(),
    {
        WebrtcServerSocket { clients: Vec::new() }
    }

    /// Handles a packet received from a client: its sender is added to the
    /// clients if it was not among them, and the packet is reported.
    pub fn packet_received(&mut self, packet: Packet) -> (event: SocketEvent)
        requires
            no_duplicates(old(self).clients()),
        ensures
            no_duplicates(final(self).clients()),
            final(self).clients() == if old(self).clients().contains(packet@.0) {
                old(self).clients()
            } else {
                old(self).clients().push(packet@.0)
            },
            event == SocketEvent::Packet(packet),
    {
        let address = packet.address();
        let mut i: usize = 0;
        let mut known = false;
        while i < self.clients.len()
            invariant
                i <= self.clients@.len(),
                self.clients@ == old(self).clients@,
                known == exists|j: int| 0 <= j < i && self.clients@[j] == address,
            decreases self.clients@.len() - i,
        {
            if self.clients[i] == address {
                known = true;
            }
            i = i + 1;
        }
        if !known {
            self.clients.push(address);
        }
        proof {
            if known {
                let j = choose|j: int| 0 <= j < old(self).clients@.len() && self.clients@[j] == address;
                assert(old(self).clients@.contains(address));
            } else {
                assert(!old(self).clients@.contains(address));
            }
        }
        SocketEvent::Packet(packet)
    }

    /// One wake-up of the receive loop: a packet from a client is reported (its
    /// sender is remembered); a failed read or send is reported as an error;
    /// the timer reports a tick; a packet that went out reports nothing, and
    /// the loop waits again.
    pub fn handle_wakeup(&mut self, wakeup: Wakeup) -> (result: Option<Result<SocketEvent, ServerSocketError>>)
        requires
            no_duplicates(old(self).clients()),
        ensures
            no_duplicates(final(self).clients()),
            match wakeup {
                Wakeup::FromClient(packet) => {
                    &&& final(self).clients() == if old(self).clients().contains(packet@.0) {
                        old(self).clients()
                    } else {
                        old(self).clients().push(packet@.0)
                    }
                    &&& result == Some(Ok::<SocketEvent, ServerSocketError>(SocketEvent::Packet(packet)))
                },
                Wakeup::ReadFailed => final(self).clients() == old(self).clients() && result == Some(
                    Err::<SocketEvent, ServerSocketError>(ServerSocketError::Wrapped),
                ),
                Wakeup::Sent => final(self).clients() == old(self).clients() && result is None,
                Wakeup::SendFailed(address) => final(self).clients() == old(self).clients() && result
                    == Some(Err::<SocketEvent, ServerSocketError>(ServerSocketError::SendError(address))),
                Wakeup::PeriodicTimer => final(self).clients() == old(self).clients() && result == Some(
                    Ok::<SocketEvent, ServerSocketError>(SocketEvent::Tick),
                ),
            },
    {
        match wakeup {
            Wakeup::FromClient(packet) => Some(Ok(self.packet_received(packet))),
            Wakeup::ReadFailed => Some(Err(ServerSocketError::Wrapped)),
            Wakeup::Sent => None,
            Wakeup::SendFailed(address) => Some(Err(ServerSocketError::SendError(address))),
            Wakeup::PeriodicTimer => Some(Ok(SocketEvent::Tick)),
        }
    }

    /// The clients heard from, in the order first heard from.
    pub fn get_clients(&self) -> (clients: Vec<Address>)
        ensures
            clients@ == self.clients(),
    {
        self.clients.clone()
    }
}

} // verus!
