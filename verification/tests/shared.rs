use naia_socket::find_my_ip_address::address_candidate;
use naia_socket::config::Config;
use naia_socket::connection_manager::ConnectionManager;
use naia_socket::constants::{MessageHeader, DEFAULT_MTU};
use naia_socket::find_available_port::{first_available_port, get, get_available_port};
use naia_socket::timer::Timer;
use naia_socket::utils::StringUtils;

#[test]
fn header_from_known_bytes() {
    assert_eq!(MessageHeader::from(0), MessageHeader::ServerHandshake);
    assert_eq!(MessageHeader::from(1), MessageHeader::ClientHandshake);
    assert_eq!(MessageHeader::from(2), MessageHeader::Heartbeat);
    assert_eq!(MessageHeader::from(3), MessageHeader::Data);
    assert_eq!(MessageHeader::from(255), MessageHeader::Unknown);
}

#[test]
fn header_from_other_bytes_is_unknown() {
    for byte in 4u8..255 {
        assert_eq!(MessageHeader::from(byte), MessageHeader::Unknown);
    }
}

#[test]
fn header_round_trip() {
    let headers = [
        MessageHeader::ServerHandshake,
        MessageHeader::ClientHandshake,
        MessageHeader::Heartbeat,
        MessageHeader::Data,
        MessageHeader::Unknown,
    ];
    let bytes = [0u8, 1, 2, 3, 255];
    for (header, byte) in headers.iter().zip(bytes.iter()) {
        assert_eq!(header.to_u8(), *byte);
        assert_eq!(MessageHeader::from(header.to_u8()), *header);
    }
}

#[test]
fn default_config_values() {
    let config = Config::default();
    assert_eq!(config.idle_connection_timeout, 10_000_000_000);
    assert_eq!(config.heartbeat_interval, 4_000_000_000);
    assert_eq!(config.receive_buffer_max_size, DEFAULT_MTU as usize);
    assert_eq!(config.receive_buffer_max_size, 1452);
    assert_eq!(config.socket_event_buffer_size, 1024);
}

#[test]
fn timer_rings_only_after_duration() {
    let timer = Timer::new_at(100, 1_000);
    assert!(!timer.ringing_at(1_000));
    assert!(!timer.ringing_at(1_100));
    assert!(timer.ringing_at(1_101));
    assert!(!timer.ringing_at(500));
}

#[test]
fn timer_reset_silences_and_keeps_ringing() {
    let mut timer = Timer::new_at(10, 0);
    assert!(timer.ringing_at(11));
    assert!(timer.ringing_at(5_000));
    timer.reset_at(5_000);
    assert!(!timer.ringing_at(5_000));
    assert!(!timer.ringing_at(5_010));
    assert!(timer.ringing_at(5_011));
}

#[test]
fn timer_on_the_clock() {
    let mut long = Timer::new(3_600_000_000_000);
    assert!(!long.ringing());
    long.reset();
    assert!(!long.ringing());
    let short = Timer::new(0);
    let mut rang = false;
    for _ in 0..10_000_000 {
        if short.ringing() {
            rang = true;
            break;
        }
    }
    assert!(rang);
}

#[test]
fn connection_heartbeat_and_timeout() {
    let mut manager = ConnectionManager::new_at(1_000, 5_000, 0);
    assert!(!manager.should_send_heartbeat_at(1_000));
    assert!(manager.should_send_heartbeat_at(1_001));
    assert!(!manager.should_drop_at(5_000));
    assert!(manager.should_drop_at(5_001));
    manager.mark_sent_at(2_000);
    assert!(!manager.should_send_heartbeat_at(3_000));
    assert!(manager.should_send_heartbeat_at(3_001));
    assert!(manager.should_drop_at(5_001));
    manager.mark_heard_at(4_000);
    assert!(!manager.should_drop_at(9_000));
    assert!(manager.should_drop_at(9_001));
    assert!(manager.should_send_heartbeat_at(3_001));
}

#[test]
fn connection_on_the_clock() {
    let mut manager = ConnectionManager::new(3_600_000_000_000, 3_600_000_000_000);
    assert!(!manager.should_send_heartbeat());
    assert!(!manager.should_drop());
    manager.mark_sent();
    manager.mark_heard();
    assert!(!manager.should_send_heartbeat());
    assert!(!manager.should_drop());
    let quick = ConnectionManager::new(0, 0);
    let mut due = false;
    for _ in 0..10_000_000 {
        if quick.should_send_heartbeat() && quick.should_drop() {
            due = true;
            break;
        }
    }
    assert!(due);
}

#[test]
fn connectionless_manager() {
    let _manager = ConnectionManager::connectionless();
}

#[test]
fn trim_front_drops_characters() {
    assert_eq!(String::from("hello").trim_front(1), "ello");
    assert_eq!(String::from("hello").trim_front(0), "hello");
    assert_eq!(String::from("hello").trim_front(5), "");
    assert_eq!(String::from("hello").trim_front(9), "");
    assert_eq!(String::from("éa€b").trim_front(2), "€b");
}

#[test]
fn peek_front_reads_low_byte() {
    assert_eq!(String::from("Abc").peek_front(), 65);
    assert_eq!(String::from("\u{3}data").peek_front(), 3);
    assert_eq!(String::from("é").peek_front(), 0xE9);
    assert_eq!(String::from("€").peek_front(), 0xAC);
}

#[test]
fn push_front_then_trim() {
    let pushed = String::from("yz").push_front(b'x');
    assert_eq!(pushed, "xyz");
    assert_eq!(pushed.peek_front(), b'x');
    assert_eq!(pushed.trim_front(1), "yz");
    assert_eq!(String::new().push_front(3), "\u{3}");
}

#[test]
fn first_available_port_search() {
    assert_eq!(first_available_port(10, 20, |port| port >= 13), Some(13));
    assert_eq!(first_available_port(10, 20, |_| false), None);
    assert_eq!(first_available_port(10, 10, |_| true), None);
    assert_eq!(get(|port| port % 1000 == 0), Some(2000));
    assert_eq!(get(|_| true), Some(1025));
    assert_eq!(get(|port| port == 65535), None);
    assert_eq!(get_available_port(|port| port > 8500), Some(8501));
    assert_eq!(get_available_port(|_| false), None);
}

#[test]
fn port_search_stops_at_first_accepted() {
    let tried = std::cell::RefCell::new(Vec::new());
    let found = get_available_port(|port| {
        tried.borrow_mut().push(port);
        port == 8002
    });
    assert_eq!(found, Some(8002));
    assert_eq!(*tried.borrow(), vec![8000, 8001, 8002]);
}

#[test]
fn address_candidate_takes_first_field() {
    assert_eq!(address_candidate("192.168.1.5 172.17.0.1 \n"), "192.168.1.5");
    assert_eq!(address_candidate("\t10.0.0.1\n"), "10.0.0.1");
    assert_eq!(address_candidate("fe80::1"), "fe80::1");
    assert_eq!(address_candidate("a\tb c"), "a\tb");
    assert_eq!(address_candidate("\u{3000}x\u{a0}"), "x");
    assert_eq!(address_candidate("   \n"), "");
    assert_eq!(address_candidate(""), "");
}
