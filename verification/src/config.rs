use vstd::prelude::*;

use crate::constants::DEFAULT_MTU;

verus! {


/// Settings of a socket. Durations are counted in nanoseconds.
#[derive(Clone, Copy, Debug)]
pub struct Config {
    /// How long a connection may stay silent before it is dropped.
    pub idle_connection_timeout: u64,
    /// How often a heartbeat is sent on a connection that sends nothing else.
    pub heartbeat_interval: u64,
    /// Size of the buffer a datagram is read into.
    pub receive_buffer_max_size: usize,
    /// How many socket events may wait to be handled.
    pub socket_event_buffer_size: usize,
}

/// The settings that `Config::default` gives.
pub open spec fn default_config() -> Config {
    Config {
        idle_connection_timeout: 10_000_000_000,
        heartbeat_interval: 4_000_000_000,
        receive_buffer_max_size: DEFAULT_MTU as usize,
        socket_event_buffer_size: 1024,
    }
}

impl Default for Config {
    fn default() -> (config: Self)
        ensures
            config == default_config(),
    {
        Config {
            idle_connection_timeout: 10_000_000_000,
            heartbeat_interval: 4_000_000_000,
            receive_buffer_max_size: DEFAULT_MTU as usize,
            socket_event_buffer_size: 1024,
        }
    }
}

} // verus!
