//! Connection logic of a small UDP/WebRTC socket library: message headers,
//! timers, per-connection heartbeat bookkeeping and the client and server
//! protocol state machines, each verified against a contract.

pub mod constants;
pub mod config;
pub mod timer;
pub mod connection_manager;
pub mod address;
pub mod server;
pub mod utils;
pub mod client;
pub mod transport;
pub mod find_available_port;
pub mod example;
pub mod find_my_ip_address;
