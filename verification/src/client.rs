//! The client side: packets and events, and the connection logic of the UDP
//! and WebRTC clients.

pub mod packet;
pub mod socket_event;
pub mod udp_client_socket;
pub mod webrtc_client_socket;
pub mod server_socket;
pub mod transport_client;
