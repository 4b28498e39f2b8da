use naia_socket::address::Address;
use naia_socket::config::Config;
use naia_socket::server::client_event::{client_event_of, listen_action, ClientEvent, ListenAction};
use naia_socket::server::packet::Packet;
use naia_socket::server::socket_event::{ServerSocketError, SocketEvent};
use naia_socket::constants::MessageHeader;
use naia_socket::server::udp_server_pass::{PassAction, PassEvent, UdpServerPass};
use naia_socket::server::udp_server_socket::UdpServerSocket;
use naia_socket::server::webrtc_server_socket::{
    process, route_example_request, route_session_request, session_url, ClientMessage, Dispatch, Method, Next,
    Route, Wakeup, WebrtcServerSocket,
};
use naia_socket::server::Server;
use naia_socket::transport::TransportEvent;

fn client(port: u16) -> Address {
    Address::V4 { ipv4: 0x7f00_0001, port }
}

fn server_at_zero() -> UdpServerSocket {
    let config = Config {
        idle_connection_timeout: 1_000,
        heartbeat_interval: 200,
        receive_buffer_max_size: 1452,
        socket_event_buffer_size: 1024,
    };
    UdpServerSocket::new(Some(config), 50, 0)
}

fn connect(server: &mut UdpServerSocket, address: Address, now: u64) {
    assert!(server.datagram_received(address, &[1], now));
    server.handshake_replied(address, now);
}

#[test]
fn handshake_registers_and_reports_connection_once() {
    let mut server = server_at_zero();
    let a = client(4000);
    assert!(server.datagram_received(a, &[1], 10));
    server.handshake_replied(a, 10);
    match server.take_output() {
        Some(Ok(SocketEvent::Connection(address))) => assert_eq!(address, a),
        _ => panic!("expected a connection"),
    }
    assert!(server.take_output().is_none());
    assert!(server.datagram_received(a, &[1], 20));
    server.handshake_replied(a, 20);
    assert!(server.take_output().is_none());
    assert_eq!(server.get_clients(), vec![a]);
    assert!(server.has_client(a));
    assert!(!server.has_client(client(4001)));
}

#[test]
fn data_becomes_packet_without_header() {
    let mut server = server_at_zero();
    let a = client(4000);
    assert!(!server.datagram_received(a, &[3, 104, 105], 5));
    match server.take_output() {
        Some(Ok(SocketEvent::Packet(packet))) => {
            assert_eq!(packet.address(), a);
            assert_eq!(packet.payload(), &[104, 105]);
        }
        _ => panic!("expected a packet"),
    }
    assert!(!server.datagram_received(a, &[3], 6));
    match server.take_output() {
        Some(Ok(SocketEvent::Packet(packet))) => assert!(packet.payload().is_empty()),
        _ => panic!("expected an empty packet"),
    }
}

#[test]
fn heartbeat_and_other_headers_report_nothing() {
    let mut server = server_at_zero();
    let a = client(4000);
    assert!(!server.datagram_received(a, &[2], 5));
    assert!(!server.datagram_received(a, &[0], 5));
    assert!(!server.datagram_received(a, &[77, 1, 2], 5));
    assert!(server.take_output().is_none());
    assert!(server.get_clients().is_empty());
}

#[test]
fn heartbeats_go_to_due_clients() {
    let mut server = server_at_zero();
    let a = client(4000);
    let b = client(4001);
    connect(&mut server, a, 0);
    connect(&mut server, b, 50);
    server.take_output();
    // the heartbeat timer runs at half the configured interval: 100
    assert!(server.check_heartbeats(100).is_empty());
    let targets = server.check_heartbeats(101);
    assert_eq!(targets, vec![a]);
    server.heartbeat_sent(a, 101);
    assert!(server.check_heartbeats(150).is_empty());
    let targets = server.check_heartbeats(202);
    assert_eq!(targets, vec![a, b]);
}

#[test]
fn silent_client_is_dropped_and_reported() {
    let mut server = server_at_zero();
    let a = client(4000);
    let b = client(4001);
    connect(&mut server, a, 0);
    connect(&mut server, b, 0);
    server.take_output();
    assert!(!server.datagram_received(b, &[2], 900));
    let targets = server.check_heartbeats(1_001);
    assert_eq!(targets, vec![b]);
    server.check_disconnects_and_tick(1_001);
    // the tick timer (50) rings too, and its tick replaces the disconnection
    match server.take_output() {
        Some(Ok(SocketEvent::Tick)) => {}
        _ => panic!("expected a tick"),
    }
    assert_eq!(server.get_clients(), vec![b]);
}

#[test]
fn disconnection_reported_when_tick_is_quiet() {
    let config = Config {
        idle_connection_timeout: 1_000,
        heartbeat_interval: 200,
        receive_buffer_max_size: 1452,
        socket_event_buffer_size: 1024,
    };
    let mut server = UdpServerSocket::new(Some(config), 1_000_000, 0);
    let a = client(4000);
    connect(&mut server, a, 0);
    server.take_output();
    assert!(server.check_heartbeats(1_001).is_empty());
    server.check_disconnects_and_tick(1_001);
    match server.take_output() {
        Some(Ok(SocketEvent::Disconnection(address))) => assert_eq!(address, a),
        _ => panic!("expected a disconnection"),
    }
    assert!(server.get_clients().is_empty());
    server.check_disconnects_and_tick(1_002);
    assert!(server.take_output().is_none());
}

#[test]
fn tick_reported_when_due() {
    let mut server = server_at_zero();
    server.check_disconnects_and_tick(50);
    assert!(server.take_output().is_none());
    server.check_disconnects_and_tick(51);
    match server.take_output() {
        Some(Ok(SocketEvent::Tick)) => {}
        _ => panic!("expected a tick"),
    }
    server.check_disconnects_and_tick(60);
    assert!(server.take_output().is_none());
}

#[test]
fn failure_is_reported_unless_replaced() {
    let mut server = server_at_zero();
    server.record_failure();
    match server.take_output() {
        Some(Err(ServerSocketError::Wrapped)) => {}
        _ => panic!("expected a failure"),
    }
    let a = client(4000);
    assert!(server.datagram_received(a, &[1], 5));
    server.record_failure();
    server.handshake_replied(a, 5);
    match server.take_output() {
        Some(Ok(SocketEvent::Connection(_))) => {}
        _ => panic!("the new connection replaces the failure"),
    }
}

#[test]
fn default_config_heartbeat_is_halved() {
    let mut server = UdpServerSocket::new(None, 1_000_000_000_000, 0);
    let a = client(4000);
    connect(&mut server, a, 0);
    server.take_output();
    assert!(server.check_heartbeats(2_000_000_000).is_empty());
    assert_eq!(server.check_heartbeats(2_000_000_001), vec![a]);
}

#[test]
fn transport_events_become_client_events() {
    let a = client(5000);
    assert_eq!(client_event_of(TransportEvent::Connect(a)), ClientEvent::Connection(a));
    assert_eq!(client_event_of(TransportEvent::Timeout(a)), ClientEvent::Disconnection(a));
    assert_eq!(
        client_event_of(TransportEvent::Packet(a, b"ping".to_vec())),
        ClientEvent::Message(a, "ping".to_string())
    );
    assert_eq!(
        client_event_of(TransportEvent::Packet(a, vec![0x66, 0xff, 0x6f])),
        ClientEvent::Message(a, "f\u{fffd}o".to_string())
    );
}

#[test]
fn session_routes() {
    assert_eq!(route_session_request("/new_rtc_session", Method::Post), Route::NewSession);
    assert_eq!(route_session_request("/new_rtc_session", Method::Get), Route::NotFound);
    assert_eq!(route_session_request("/", Method::Get), Route::NotFound);
    assert_eq!(route_example_request("/", Method::Post), Route::Index);
    assert_eq!(route_example_request("/index.html", Method::Get), Route::Index);
    assert_eq!(route_example_request("/index.html", Method::Post), Route::NotFound);
    assert_eq!(route_example_request("/new_rtc_session", Method::Post), Route::NewSession);
    assert_eq!(route_example_request("/other", Method::Get), Route::NotFound);
}

#[test]
fn webrtc_server_remembers_each_client_once() {
    let mut server = WebrtcServerSocket::new();
    let a = client(1);
    let b = Address::V6 { ipv6: 1, port: 2, flowinfo: 0, scope_id: 0 };
    match server.packet_received(Packet::new(a, vec![1, 2])) {
        SocketEvent::Packet(packet) => assert_eq!(packet.payload(), &[1, 2]),
        _ => panic!("expected the packet"),
    }
    server.packet_received(Packet::new(b, vec![]));
    server.packet_received(Packet::new(a, vec![3]));
    assert_eq!(server.get_clients(), vec![a, b]);
}

#[test]
fn placeholder_server_accepts_hooks() {
    let mut server = Server::new();
    server.on_connect(|| {});
    server.on_disconnect(|| {});
    server.add_object();
    server.remove_object();
    server.send_message();
    server.receive_message();
    server.update();
    assert_eq!(server, Server::new());
}

#[test]
fn webrtc_wake_ups_dispatch() {
    let a = client(7);
    assert_eq!(
        process(Next::IncomingEvent(ClientEvent::Connection(a))),
        Dispatch::OnConnection(ClientMessage { address: a, message: None })
    );
    assert_eq!(
        process(Next::IncomingEvent(ClientEvent::Disconnection(a))),
        Dispatch::OnDisconnection(ClientMessage { address: a, message: None })
    );
    assert_eq!(
        process(Next::OutgoingMessage(ClientMessage { address: a, message: Some("pong".to_string()) })),
        Dispatch::SendText(a, "pong".to_string())
    );
    assert_eq!(process(Next::OutgoingMessage(ClientMessage { address: a, message: None })), Dispatch::Ignore);
    assert_eq!(process(Next::PeriodicTimer), Dispatch::Ignore);
    assert_eq!(process(Next::IncomingEvent(ClientEvent::Tick)), Dispatch::Ignore);
}

#[test]
fn listen_actions() {
    let a = client(9);
    assert_eq!(listen_action(ClientEvent::Connection(a)), ListenAction::HandshakeThenConnect(a));
    assert_eq!(
        listen_action(ClientEvent::Message(a, "ping".to_string())),
        ListenAction::Receive(a, "ping".to_string())
    );
    assert_eq!(listen_action(ClientEvent::Disconnection(a)), ListenAction::Ignore);
    assert_eq!(listen_action(ClientEvent::Tick), ListenAction::Ignore);
}

#[test]
fn webrtc_receive_wakeups() {
    let mut server = WebrtcServerSocket::new();
    let a = client(3);
    match server.handle_wakeup(Wakeup::FromClient(Packet::new(a, vec![5]))) {
        Some(Ok(SocketEvent::Packet(packet))) => assert_eq!(packet.payload(), &[5]),
        _ => panic!("expected the packet"),
    }
    assert_eq!(server.get_clients(), vec![a]);
    assert!(matches!(server.handle_wakeup(Wakeup::ReadFailed), Some(Err(ServerSocketError::Wrapped))));
    assert!(server.handle_wakeup(Wakeup::Sent).is_none());
    match server.handle_wakeup(Wakeup::SendFailed(a)) {
        Some(Err(ServerSocketError::SendError(address))) => assert_eq!(address, a),
        _ => panic!("expected a send error"),
    }
    assert!(matches!(server.handle_wakeup(Wakeup::PeriodicTimer), Some(Ok(SocketEvent::Tick))));
    assert_eq!(server.get_clients(), vec![a]);
}

#[test]
fn session_url_of_address() {
    assert_eq!(session_url("192.168.1.5:3179"), "http://192.168.1.5:3179/new_rtc_session");
}

#[test]
fn registry_follows_handshakes_and_removals() {
    let config = Config {
        idle_connection_timeout: 1_000,
        heartbeat_interval: 200,
        receive_buffer_max_size: 1452,
        socket_event_buffer_size: 1024,
    };
    let mut server = UdpServerSocket::new(Some(config), 1_000_000, 0);
    let a = client(1);
    let b = client(2);
    connect(&mut server, a, 0);
    server.take_output();
    connect(&mut server, b, 600);
    server.take_output();
    assert_eq!(server.check_heartbeats(1_001), vec![b]);
    server.check_disconnects_and_tick(1_001);
    assert!(matches!(server.take_output(), Some(Ok(SocketEvent::Disconnection(_)))));
    assert_eq!(server.get_clients(), vec![b]);
    connect(&mut server, a, 1_100);
    assert!(matches!(server.take_output(), Some(Ok(SocketEvent::Connection(_)))));
    assert_eq!(server.get_clients(), vec![b, a]);
}

fn handshake_byte() -> u8 {
    MessageHeader::ClientHandshake.to_u8()
}

#[test]
fn receive_loop_reports_a_new_client_once() {
    let mut pass = UdpServerPass::new(server_at_zero());
    let a = client(4000);
    assert!(matches!(pass.step(PassEvent::Clock(10)), PassAction::Continue));
    assert!(matches!(pass.step(PassEvent::Continued), PassAction::Read));
    assert!(matches!(pass.step(PassEvent::Datagram(a, vec![handshake_byte()])), PassAction::SendHandshake(x) if x == a));
    assert!(matches!(pass.step(PassEvent::HandshakeSent(true)), PassAction::Continue));
    match pass.step(PassEvent::Continued) {
        PassAction::Return(Ok(SocketEvent::Connection(address))) => assert_eq!(address, a),
        _ => panic!("expected the connection"),
    }
    assert!(matches!(pass.step(PassEvent::Clock(20)), PassAction::Continue));
    assert!(matches!(pass.step(PassEvent::Continued), PassAction::Read));
    assert!(matches!(pass.step(PassEvent::Datagram(a, vec![handshake_byte()])), PassAction::SendHandshake(x) if x == a));
    assert!(matches!(pass.step(PassEvent::HandshakeSent(true)), PassAction::Continue));
    assert!(matches!(pass.step(PassEvent::Continued), PassAction::ReadClock));
    assert_eq!(pass.connection_logic().get_clients(), vec![a]);
}

#[test]
fn receive_loop_failures() {
    let mut pass = UdpServerPass::new(server_at_zero());
    let a = client(4001);
    assert!(matches!(pass.step(PassEvent::Continued), PassAction::ReadClock));
    assert!(matches!(pass.step(PassEvent::Clock(10)), PassAction::Continue));
    assert!(matches!(pass.step(PassEvent::Continued), PassAction::Read));
    assert!(matches!(pass.step(PassEvent::ReadFailed), PassAction::Continue));
    assert!(matches!(pass.step(PassEvent::Continued), PassAction::Return(Err(ServerSocketError::Wrapped))));
    assert!(matches!(pass.step(PassEvent::Clock(20)), PassAction::Continue));
    assert!(matches!(pass.step(PassEvent::Continued), PassAction::Read));
    assert!(matches!(pass.step(PassEvent::Datagram(a, vec![handshake_byte()])), PassAction::SendHandshake(_)));
    assert!(matches!(pass.step(PassEvent::HandshakeSent(false)), PassAction::Continue));
    assert!(matches!(pass.step(PassEvent::Continued), PassAction::Continue));
    match pass.step(PassEvent::Continued) {
        PassAction::Return(Ok(SocketEvent::Connection(address))) => assert_eq!(address, a),
        _ => panic!("expected the connection"),
    }
    assert_eq!(pass.connection_logic().get_clients(), vec![a]);
}

#[test]
fn receive_loop_sends_heartbeats_then_ticks() {
    let mut pass = UdpServerPass::new(server_at_zero());
    let a = client(4002);
    assert!(matches!(pass.step(PassEvent::Clock(0)), PassAction::Continue));
    assert!(matches!(pass.step(PassEvent::Continued), PassAction::Read));
    assert!(matches!(pass.step(PassEvent::Datagram(a, vec![handshake_byte()])), PassAction::SendHandshake(_)));
    assert!(matches!(pass.step(PassEvent::HandshakeSent(true)), PassAction::Continue));
    assert!(matches!(pass.step(PassEvent::Continued), PassAction::Return(Ok(SocketEvent::Connection(_)))));
    assert!(matches!(pass.step(PassEvent::Clock(150)), PassAction::SendHeartbeat(x) if x == a));
    assert!(matches!(pass.step(PassEvent::Continued), PassAction::SendHeartbeat(x) if x == a));
    assert!(matches!(pass.step(PassEvent::HeartbeatSent(true)), PassAction::Continue));
    assert!(matches!(pass.step(PassEvent::Continued), PassAction::Read));
    assert!(matches!(pass.step(PassEvent::NothingToRead), PassAction::Continue));
    assert!(matches!(pass.step(PassEvent::Continued), PassAction::Return(Ok(SocketEvent::Tick))));
}
