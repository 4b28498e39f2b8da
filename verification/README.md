# naia_socket

Connection logic of a small client/server socket library for games, which
carries unreliable, unordered messages over UDP (and over WebRTC data
channels in the browser). The library in `src/` holds the decisions and is
verified with Verus; the program in `app/` does the socket, process and clock
work around it and runs a ping-pong example.

- `constants`, `config`, `timer`, `connection_manager`, `address`, `utils`:
  message headers, settings (durations in nanoseconds), timers, per-connection
  heartbeat and timeout bookkeeping, peer addresses, string helpers.
- `server::udp_server_socket`: the UDP server's connection logic as steps over
  its registered clients, heartbeats, disconnections and ticks.
- `server::udp_server_pass`: the UDP server's receive loop as a machine that
  runs those steps in order, asking the program for each socket operation and
  taking back its outcome.
- `client::udp_client_socket`, `client::webrtc_client_socket`: the clients'
  handshake and receive logic.
- `client::server_socket`, `client::transport_client`, `server::client_event`:
  the meaning of events of a transport that keeps its own connections.
- `server::webrtc_server_socket`: HTTP routing of the session endpoint, the
  client list and the event dispatch of the WebRTC server.
- `find_available_port`, `find_my_ip_address`: port search and address
  selection, given the probes and outputs the program gathers.
- `example`: the ping-pong replies.
