use naia_socket::address::Address;
use naia_socket::client::packet::Packet;
use naia_socket::client::server_socket::{ClientCallback, ServerSocket};
use naia_socket::client::socket_event::{ClientSocketError, SocketEvent};
use naia_socket::client::transport_client::{client_event_of, client_event_of_text, TransportClientEvent};
use naia_socket::client::udp_client_socket::{ReceiveStep, UdpClientSocket};
use naia_socket::client::webrtc_client_socket::{Received, WebrtcClientSocket};
use naia_socket::constants::{HANDSHAKE_RESEND_INTERVAL, SERVER_HANDSHAKE_MESSAGE};
use naia_socket::example::{client_reply, server_reply, App, MAX_REPLIES};
use naia_socket::transport::{decode, TextEvent, TransportEvent};

fn server_address() -> Address {
    Address::V4 { ipv4: 0xc0a8_0105, port: 14191 }
}

#[test]
fn packet_keeps_payload() {
    let packet = Packet::new(vec![1, 2, 3]);
    assert_eq!(packet.payload(), &[1, 2, 3]);
}

#[test]
fn udp_client_resends_handshake_every_interval() {
    let mut socket = UdpClientSocket::connect(server_address());
    assert_eq!(socket.begin_receive(), ReceiveStep::SendHandshake);
    assert_eq!(socket.handshake_sent(), SocketEvent::NoEvent);
    for _ in 0..HANDSHAKE_RESEND_INTERVAL {
        assert_eq!(socket.begin_receive(), ReceiveStep::Receive);
    }
    assert_eq!(socket.begin_receive(), ReceiveStep::SendHandshake);
    assert_eq!(HANDSHAKE_RESEND_INTERVAL, 100);
}

#[test]
fn udp_client_connects_on_server_handshake() {
    let mut socket = UdpClientSocket::connect(server_address());
    assert_eq!(socket.begin_receive(), ReceiveStep::SendHandshake);
    socket.handshake_sent();
    assert_eq!(socket.begin_receive(), ReceiveStep::Receive);
    assert_eq!(socket.datagram_received(server_address(), &[0]), Ok(SocketEvent::Connection));
    assert_eq!(socket.datagram_received(server_address(), &[0]), Ok(SocketEvent::NoEvent));
    for _ in 0..300 {
        assert_eq!(socket.begin_receive(), ReceiveStep::Receive);
    }
    assert_eq!(socket.server_address(), server_address());
}

#[test]
fn udp_client_reads_data_messages() {
    let mut socket = UdpClientSocket::connect(server_address());
    assert_eq!(
        socket.datagram_received(server_address(), &[3, b'p', b'o', b'n', b'g']),
        Ok(SocketEvent::Message("pong".to_string()))
    );
    assert_eq!(
        socket.datagram_received(server_address(), &[3, 0xff, b'a']),
        Ok(SocketEvent::Message("\u{fffd}a".to_string()))
    );
    assert_eq!(socket.datagram_received(server_address(), &[3]), Ok(SocketEvent::Message(String::new())));
    assert_eq!(socket.datagram_received(server_address(), &[2, 1]), Ok(SocketEvent::NoEvent));
}

#[test]
fn udp_client_refuses_unknown_sender() {
    let mut socket = UdpClientSocket::connect(server_address());
    let stranger = Address::V4 { ipv4: 1, port: 1 };
    assert_eq!(
        socket.datagram_received(stranger, &[0]),
        Err(ClientSocketError::Message("Unknown sender.".to_string()))
    );
    assert_eq!(socket.datagram_received(stranger, &[]), Err(ClientSocketError::Message("Unknown sender.".to_string())));
    assert_eq!(socket.datagram_received(server_address(), &[0]), Ok(SocketEvent::Connection));
}

#[test]
fn webrtc_client_handshake_and_messages() {
    let mut socket = WebrtcClientSocket::connect(server_address());
    assert_eq!(socket.receive(), Received::SendHandshake);
    socket.push_message("early".to_string());
    assert_eq!(socket.receive(), Received::Event(SocketEvent::Message("early".to_string())));
    assert_eq!(socket.receive(), Received::Event(SocketEvent::NoEvent));
    socket.push_message(SERVER_HANDSHAKE_MESSAGE.to_string());
    socket.push_message(SERVER_HANDSHAKE_MESSAGE.to_string());
    socket.push_message("hello".to_string());
    assert_eq!(socket.receive(), Received::Event(SocketEvent::Connection));
    assert_eq!(socket.receive(), Received::Event(SocketEvent::Message("hello".to_string())));
    assert_eq!(socket.receive(), Received::Event(SocketEvent::NoEvent));
    socket.push_message(SERVER_HANDSHAKE_MESSAGE.to_string());
    assert_eq!(socket.receive(), Received::Event(SocketEvent::NoEvent));
    assert_eq!(socket.server_address(), server_address());
}

#[test]
fn webrtc_client_counts_down_before_resending() {
    let mut socket = WebrtcClientSocket::connect(server_address());
    assert_eq!(socket.receive(), Received::SendHandshake);
    for _ in 0..100 {
        assert_eq!(socket.receive(), Received::Event(SocketEvent::NoEvent));
    }
    assert_eq!(socket.receive(), Received::SendHandshake);
}

#[test]
fn transport_client_events() {
    let server = server_address();
    let stranger = Address::V4 { ipv4: 9, port: 9 };
    assert_eq!(
        client_event_of(server, TransportEvent::Packet(server, SERVER_HANDSHAKE_MESSAGE.as_bytes().to_vec())),
        TransportClientEvent::Connection(server)
    );
    assert_eq!(
        client_event_of(server, TransportEvent::Packet(server, b"pong".to_vec())),
        TransportClientEvent::Message(server, "pong".to_string())
    );
    assert_eq!(
        client_event_of(server, TransportEvent::Packet(stranger, b"pong".to_vec())),
        TransportClientEvent::Error("Unknown sender.".to_string())
    );
    assert_eq!(
        client_event_of(server, TransportEvent::Connect(stranger)),
        TransportClientEvent::Error("Client Socket has received a packet from an unknown host!".to_string())
    );
    assert_eq!(
        client_event_of(server, TransportEvent::Timeout(server)),
        TransportClientEvent::Disconnection(server)
    );
}

#[test]
fn server_socket_holds_messages_until_connected() {
    let server = server_address();
    let mut socket = ServerSocket::new(server);
    assert_eq!(socket.send_when_connected("one"), None);
    socket.add_to_send_queue("two");
    assert!(socket.process_send_queue().is_empty());
    let handshake = TransportEvent::Packet(server, SERVER_HANDSHAKE_MESSAGE.as_bytes().to_vec());
    assert_eq!(socket.handle_event(handshake), ClientCallback::OnConnection);
    assert_eq!(socket.process_send_queue(), vec!["one".to_string(), "two".to_string()]);
    assert!(socket.process_send_queue().is_empty());
    assert_eq!(socket.send_when_connected("three"), Some("three".to_string()));
}

#[test]
fn server_socket_callbacks() {
    let server = server_address();
    let mut socket = ServerSocket::new(server);
    let handshake = || TransportEvent::Packet(server, SERVER_HANDSHAKE_MESSAGE.as_bytes().to_vec());
    assert_eq!(socket.handle_event(TransportEvent::Timeout(server)), ClientCallback::Ignored);
    assert_eq!(socket.handle_event(handshake()), ClientCallback::OnConnection);
    assert_eq!(socket.handle_event(handshake()), ClientCallback::Ignored);
    assert_eq!(
        socket.handle_event(TransportEvent::Packet(server, b"hi".to_vec())),
        ClientCallback::OnReceive("hi".to_string())
    );
    assert_eq!(
        socket.handle_event(TransportEvent::Packet(Address::V4 { ipv4: 2, port: 2 }, b"hi".to_vec())),
        ClientCallback::Ignored
    );
    assert_eq!(socket.handle_event(TransportEvent::Connect(server)), ClientCallback::Ignored);
    assert_eq!(socket.handle_event(TransportEvent::Timeout(server)), ClientCallback::OnDisconnection);
    assert_eq!(socket.handle_event(TransportEvent::Timeout(server)), ClientCallback::Ignored);
}

#[test]
fn example_server_answers_ping() {
    assert_eq!(server_reply("ping"), Some("pong".to_string()));
    assert_eq!(server_reply("pong"), None);
    assert_eq!(server_reply(""), None);
}

#[test]
fn example_client_answers_ten_pongs() {
    let mut app = App::new();
    assert_eq!(app.first_message(), "ping");
    assert_eq!(app.on_message("hello"), None);
    for _ in 0..MAX_REPLIES {
        assert_eq!(app.on_message("pong"), Some("ping".to_string()));
    }
    assert_eq!(app.on_message("pong"), None);
}

#[test]
fn early_example_client_replies() {
    assert_eq!(client_reply(&SocketEvent::Connection), Some("ping".to_string()));
    assert_eq!(client_reply(&SocketEvent::Message("pong".to_string())), Some("ping".to_string()));
    assert_eq!(client_reply(&SocketEvent::Message("ping".to_string())), None);
    assert_eq!(client_reply(&SocketEvent::NoEvent), None);
}

#[test]
fn server_socket_send_goes_out_at_once() {
    let socket = ServerSocket::new(server_address());
    assert_eq!(socket.send("now"), "now".to_string());
}

#[test]
fn decoded_events() {
    let server = server_address();
    assert_eq!(decode(TransportEvent::Connect(server)), TextEvent::Connect(server));
    assert_eq!(decode(TransportEvent::Timeout(server)), TextEvent::Timeout(server));
    assert_eq!(
        decode(TransportEvent::Packet(server, vec![b'h', 0xff])),
        TextEvent::Message(server, "h\u{fffd}".to_string())
    );
    assert_eq!(
        client_event_of_text(server, TextEvent::Message(server, SERVER_HANDSHAKE_MESSAGE.to_string())),
        TransportClientEvent::Connection(server)
    );
    assert_eq!(
        client_event_of_text(server, TextEvent::Message(server, "hi".to_string())),
        TransportClientEvent::Message(server, "hi".to_string())
    );
    let mut socket = ServerSocket::new(server);
    assert_eq!(
        socket.handle_text_event(TextEvent::Message(server, SERVER_HANDSHAKE_MESSAGE.to_string())),
        ClientCallback::OnConnection
    );
    assert_eq!(
        socket.handle_text_event(TextEvent::Message(server, "hi".to_string())),
        ClientCallback::OnReceive("hi".to_string())
    );
    assert_eq!(socket.handle_text_event(TextEvent::Timeout(server)), ClientCallback::OnDisconnection);
}

#[test]
fn callbacks_alternate_over_a_run() {
    let server = server_address();
    let mut socket = ServerSocket::new(server);
    let handshake = || TextEvent::Message(server, SERVER_HANDSHAKE_MESSAGE.to_string());
    let events = vec![
        TextEvent::Timeout(server),
        handshake(),
        handshake(),
        TextEvent::Message(server, "x".to_string()),
        TextEvent::Timeout(server),
        TextEvent::Timeout(server),
        handshake(),
    ];
    let mut transitions = Vec::new();
    for event in events {
        match socket.handle_text_event(event) {
            ClientCallback::OnConnection => transitions.push("connect"),
            ClientCallback::OnDisconnection => transitions.push("disconnect"),
            _ => {}
        }
    }
    assert_eq!(transitions, vec!["connect", "disconnect", "connect"]);
}
