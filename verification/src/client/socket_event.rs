use vstd::prelude::*;

verus! {

/// What a client socket reports to its user.
#[derive(Debug, PartialEq, Eq)]
pub enum SocketEvent {
    /// The server answered the handshake.
    Connection,
    /// The server sent a text message.
    Message(String),
    /// Nothing happened this time.
    NoEvent,
}

/// Why a client socket could not report an event.
#[derive(Debug, PartialEq, Eq)]
pub enum ClientSocketError {
    /// What went wrong, in words.
    Message(String),
}

/// How one step of a client goes with its connected flag: a connected client
/// stays connected, and the connection is reported only by the step that
/// connects an unconnected client.
pub open spec fn connection_step(before: bool, after: bool, reported: bool) -> bool {
    &&& before ==> after
    &&& reported ==> !before && after
}

/// Once connected, a client stays connected over any number of steps.
proof fn lemma_stays_connected(connected: Seq<bool>, reported: Seq<bool>, a: int, b: int)
    requires
        connected.len() == reported.len() + 1,
        forall|k: int|
            0 <= k < reported.len() ==> connection_step(#[trigger] connected[k], connected[k + 1], reported[k]),
        0 <= a <= b < connected.len(),
        connected[a],
    ensures
        connected[b],
    decreases b - a,
{
    if a < b {
        lemma_stays_connected(connected, reported, a, b - 1);
        assert(connection_step(connected[b - 1], connected[b], reported[b - 1]));
    }
}

/// Over any run of steps, the connection is reported at most once: after the
/// step that reports it, the client is connected at every later step and no
/// later step reports it again.
pub proof fn lemma_connection_reported_once(connected: Seq<bool>, reported: Seq<bool>, i: int, j: int)
    requires
        connected.len() == reported.len() + 1,
        forall|k: int|
            0 <= k < reported.len() ==> connection_step(#[trigger] connected[k], connected[k + 1], reported[k]),
        0 <= i < j < reported.len(),
        reported[i],
    ensures
        connected[j],
        !reported[j],
{
    assert(connection_step(connected[i], connected[i + 1], reported[i]));
    lemma_stays_connected(connected, reported, i + 1, j);
    assert(connection_step(connected[j], connected[j + 1], reported[j]));
}

} // verus!
