use vstd::prelude::*;

use crate::address::Address;
use crate::constants::{header_of_byte, MessageHeader};
use crate::server::udp_server_socket::{
    datagram_effect, disconnect_tick_effect, failure_effect, handshake_effect,
    heartbeat_check_effect, heartbeat_sent_effect, pass_targets, registered, registered_by,
    registry_step, take_effect, ReceiveResult, RegistryChange, UdpServerSocket,
    lemma_registry_history,
};

verus! {

/// Where the UDP server stands within a pass of its receive loop.
pub enum PassPhase {
    /// A pass begins once the clock has been read.
    Start,
    /// The heartbeats of the pass at `now` go out to `targets` one at a time;
    /// the one to `targets[next]` has been asked for.
    Heartbeats { now: u64, targets: Vec<Address>, next: usize },
    /// The heartbeats are done; disconnections and the tick come next.
    Ticking { now: u64 },
    /// One read from the socket has been asked for.
    Reading { now: u64 },
    /// The server handshake to `address` has been asked for.
    Replying { now: u64, address: Address },
    /// Sending the server handshake to `address` failed; its client is still to
    /// be registered.
    ReplyFailed { now: u64, address: Address },
    /// The steps of the pass are done; its result is handed out next.
    Ending,
}

/// What the socket's owner reports, answering the last action.
pub enum PassEvent {
    /// The clock reads `now` (nanoseconds since the server started).
    Clock(u64),
    /// The heartbeat asked for went out (`true`), or sending it failed.
    HeartbeatSent(bool),
    /// The step asked for needed nothing from outside.
    Continued,
    /// A datagram with this payload was read from this address.
    Datagram(Address, Vec<u8>),
    /// Nothing was waiting to be read.
    NothingToRead,
    /// The read failed.
    ReadFailed,
    /// The server handshake asked for went out (`true`), or sending it failed.
    HandshakeSent(bool),
}

/// What the server asks of the socket's owner next.
pub enum PassAction {
    /// Read the clock; answer `Clock`.
    ReadClock,
    /// Send a heartbeat to the address; answer `HeartbeatSent`.
    SendHeartbeat(Address),
    /// Nothing outside is needed; answer `Continued`.
    Continue,
    /// Read one datagram without waiting; answer `Datagram`, `NothingToRead` or
    /// `ReadFailed`.
    Read,
    /// Send the server handshake to the address; answer `HandshakeSent`.
    SendHandshake(Address),
    /// The pass has a result: the receive call hands it back.
    Return(ReceiveResult),
}

/// Whether `event` answers what `phase` asked for.
pub open spec fn answers(phase: PassPhase, event: PassEvent) -> bool {
    match phase {
        PassPhase::Start => event is Clock,
        PassPhase::Heartbeats { .. } => event is HeartbeatSent,
        PassPhase::Reading { .. } => event is Datagram || event is NothingToRead || event is ReadFailed,
        PassPhase::Replying { .. } => event is HandshakeSent,
        _ => event is Continued,
    }
}

/// The action that `phase` asks for.
pub open spec fn asked(phase: PassPhase) -> PassAction {
    match phase {
        PassPhase::Start => PassAction::ReadClock,
        PassPhase::Heartbeats { targets, next, .. } => PassAction::SendHeartbeat(targets@[next as int]),
        PassPhase::Reading { .. } => PassAction::Read,
        PassPhase::Replying { address, .. } => PassAction::SendHandshake(address),
        _ => PassAction::Continue,
    }
}

/// After a step, the server is sending the heartbeat to `targets[next]` of
/// the pass at `now`, or, past the last target, moves on to the tick.
pub open spec fn heartbeat_or_tick(phase: PassPhase, action: PassAction, now: u64, targets: Seq<Address>, next: int) -> bool {
    if next < targets.len() {
        &&& phase matches PassPhase::Heartbeats { now: n, targets: t, next: k } && n == now && t@
            == targets && k == next
        &&& action == PassAction::SendHeartbeat(targets[next])
    } else {
        &&& phase == PassPhase::Ticking { now }
        &&& action == PassAction::Continue
    }
}

/// One step of a pass, answering `event` in `phase`: the connection logic goes
/// from `before` to `after`, the pass moves to `next_phase`, and `action` is
/// asked for next.
pub open spec fn pass_step(
    before: UdpServerSocket,
    phase: PassPhase,
    event: PassEvent,
    after: UdpServerSocket,
    next_phase: PassPhase,
    action: PassAction,
) -> bool {
    match phase {
        PassPhase::Start => match event {
            PassEvent::Clock(now) => {
                &&& heartbeat_check_effect(before, after, now, pass_targets(before, now))
                &&& heartbeat_or_tick(next_phase, action, now, pass_targets(before, now), 0)
            },
            _ => false,
        },
        PassPhase::Heartbeats { now, targets, next } => match event {
            PassEvent::HeartbeatSent(sent) => {
                &&& if sent {
                    heartbeat_sent_effect(before, after, targets@[next as int], now)
                } else {
                    failure_effect(before, after)
                }
                &&& heartbeat_or_tick(next_phase, action, now, targets@, next + 1)
            },
            _ => false,
        },
        PassPhase::Ticking { now } => {
            &&& disconnect_tick_effect(before, after, now)
            &&& next_phase == PassPhase::Reading { now }
            &&& action == PassAction::Read
        },
        PassPhase::Reading { now } => match event {
            PassEvent::Datagram(address, payload) => {
                &&& datagram_effect(before, after, address, payload@, now)
                &&& if header_of_byte(payload@[0]) == MessageHeader::ClientHandshake {
                    &&& next_phase == PassPhase::Replying { now, address }
                    &&& action == PassAction::SendHandshake(address)
                } else {
                    &&& next_phase == PassPhase::Ending
                    &&& action == PassAction::Continue
                }
            },
            PassEvent::NothingToRead => {
                &&& after == before
                &&& next_phase == PassPhase::Ending
                &&& action == PassAction::Continue
            },
            _ => {
                &&& failure_effect(before, after)
                &&& next_phase == PassPhase::Ending
                &&& action == PassAction::Continue
            },
        },
        PassPhase::Replying { now, address } => {
            &&& if event == PassEvent::HandshakeSent(true) {
                &&& handshake_effect(before, after, address, now)
                &&& next_phase == PassPhase::Ending
            } else {
                &&& failure_effect(before, after)
                &&& next_phase == PassPhase::ReplyFailed { now, address }
            }
            &&& action == PassAction::Continue
        },
        PassPhase::ReplyFailed { now, address } => {
            &&& handshake_effect(before, after, address, now)
            &&& next_phase == PassPhase::Ending
            &&& action == PassAction::Continue
        },
        PassPhase::Ending => {
            &&& take_effect(before, after, before.output())
            &&& next_phase == PassPhase::Start
            &&& action == match before.output() {
                Some(result) => PassAction::Return(result),
                None => PassAction::ReadClock,
            }
        },
    }
}

/// How the registered addresses change in a step that answers `event` in
/// `phase`: the tick step removes the client of the first queued disconnection,
/// a step that completes a client handshake registers its sender, and every
/// other step keeps them.
pub open spec fn pass_change(before: UdpServerSocket, phase: PassPhase, event: PassEvent) -> RegistryChange {
    if !answers(phase, event) {
        RegistryChange::Kept
    } else {
        match phase {
            PassPhase::Ticking { .. } => if before.outstanding().len() > 0 {
                RegistryChange::Removed(before.outstanding()[0])
            } else {
                RegistryChange::Kept
            },
            PassPhase::Replying { address, .. } => if event == PassEvent::HandshakeSent(true) {
                RegistryChange::Added(address)
            } else {
                RegistryChange::Kept
            },
            PassPhase::ReplyFailed { address, .. } => RegistryChange::Added(address),
            _ => RegistryChange::Kept,
        }
    }
}

/// The receive loop of the UDP server as a machine of steps: the connection
/// logic and where the current pass stands. The socket's owner performs each
/// action asked for and answers with its outcome; a pass runs its steps in the
/// order the connection logic prescribes, and passes repeat until one has a
/// result.
pub struct UdpServerPass {
    logic: UdpServerSocket,
    phase: PassPhase,
}

impl UdpServerPass {
    /// The connection logic.
    pub closed spec fn logic(&self) -> UdpServerSocket {
        self.logic
    }

    /// Where the current pass stands.
    pub closed spec fn phase(&self) -> PassPhase {
        self.phase
    }

    /// The logic is well formed, and a heartbeat asked for is one of the pass's
    /// targets.
    pub closed spec fn wf(&self) -> bool {
        &&& self.logic.wf()
        &&& self.phase matches PassPhase::Heartbeats { targets, next, .. } ==> next < targets@.len()
    }

    /// The receive loop over `logic`, before its first pass.
    pub fn new(logic: UdpServerSocket) -> (pass: Self)
        requires
            logic.wf(),
        ensures
            pass.wf(),
            pass.logic() == logic,
            pass.phase() == PassPhase::Start,
    {
        UdpServerPass { logic, phase: PassPhase::Start }
    }

    /// The connection logic, to look up clients.
    pub fn connection_logic(&self) -> (logic: &UdpServerSocket)
        requires
            self.wf(),
        ensures
            *logic == self.logic(),
            logic.wf(),
    {
        &self.logic
    }

    /// Whether `event` answers what the current phase asked for.
    fn answered(&self, event: &PassEvent) -> (fits: bool)
        ensures
            fits == answers(self.phase(), *event),
    {
        match &self.phase {
            PassPhase::Start => matches!(event, PassEvent::Clock(_)),
            PassPhase::Heartbeats { .. } => matches!(event, PassEvent::HeartbeatSent(_)),
            PassPhase::Reading { .. } => matches!(event, PassEvent::Datagram(..) | PassEvent::NothingToRead | PassEvent::ReadFailed),
            PassPhase::Replying { .. } => matches!(event, PassEvent::HandshakeSent(_)),
            _ => matches!(event, PassEvent::Continued),
        }
    }

    /// The action that the current phase asks for.
    fn pending(&self) -> (action: PassAction)
        requires
            self.wf(),
        ensures
            action == asked(self.phase()),
    {
        match &self.phase {
            PassPhase::Start => PassAction::ReadClock,
            PassPhase::Heartbeats { targets, next, .. } => PassAction::SendHeartbeat(targets[*next]),
            PassPhase::Reading { .. } => PassAction::Read,
            PassPhase::Replying { address, .. } => PassAction::SendHandshake(*address),
            _ => PassAction::Continue,
        }
    }

    /// Takes one step: answers `event` and says what is needed next. An event
    /// that does not answer the current phase changes nothing, and the same action
    /// is asked for again.
    pub fn step(&mut self, event: PassEvent) -> (action: PassAction)
        requires
            old(self).wf(),
            event matches PassEvent::Datagram(_, payload) ==> payload@.len() >= 1,
        ensures
            final(self).wf(),
            registry_step(
                old(self).logic().clients(),
                final(self).logic().clients(),
                pass_change(old(self).logic(), old(self).phase(), event),
            ),
            if answers(old(self).phase(), event) {
                pass_step(
                    old(self).logic(),
                    old(self).phase(),
                    event,
                    final(self).logic(),
                    final(self).phase(),
                    action,
                )
            } else {
                &&& final(self).logic() == old(self).logic()
                &&& final(self).phase() == old(self).phase()
                &&& action == asked(old(self).phase())
            },
    {
        if !self.answered(&event) {
            return self.pending();
        }
        let mut phase = PassPhase::Ending;
        std::mem::swap(&mut phase, &mut self.phase);
        match phase {
            PassPhase::Start => {
                let now = match event {
                    PassEvent::Clock(now) => now,
                    _ => 0,
                };
                let targets = self.logic.check_heartbeats(now);
                if targets.len() > 0 {
                    let first = targets[0];
                    self.phase = PassPhase::Heartbeats { now, targets, next: 0 };
                    PassAction::SendHeartbeat(first)
                } else {
                    self.phase = PassPhase::Ticking { now };
                    PassAction::Continue
                }
            },
            PassPhase::Heartbeats { now, targets, next } => {
                let sent = match event {
                    PassEvent::HeartbeatSent(sent) => sent,
                    _ => false,
                };
                if sent {
                    self.logic.heartbeat_sent(targets[next], now);
                } else {
                    self.logic.record_failure();
                }
                if next < targets.len() - 1 {
                    let following = targets[next + 1];
                    self.phase = PassPhase::Heartbeats { now, targets, next: next + 1 };
                    PassAction::SendHeartbeat(following)
                } else {
                    self.phase = PassPhase::Ticking { now };
                    PassAction::Continue
                }
            },
            PassPhase::Ticking { now } => {
                self.logic.check_disconnects_and_tick(now);
                self.phase = PassPhase::Reading { now };
                PassAction::Read
            },
            PassPhase::Reading { now } => {
                match event {
                    PassEvent::Datagram(address, payload) => {
                        let reply = self.logic.datagram_received(address, payload.as_slice(), now);
                        if reply {
                            self.phase = PassPhase::Replying { now, address };
                            PassAction::SendHandshake(address)
                        } else {
                            self.phase = PassPhase::Ending;
                            PassAction::Continue
                        }
                    },
                    PassEvent::NothingToRead => {
                        self.phase = PassPhase::Ending;
                        PassAction::Continue
                    },
                    _ => {
                        self.logic.record_failure();
                        self.phase = PassPhase::Ending;
                        PassAction::Continue
                    },
                }
            },
            PassPhase::Replying { now, address } => {
                let sent = match event {
                    PassEvent::HandshakeSent(sent) => sent,
                    _ => false,
                };
                if sent {
                    self.logic.handshake_replied(address, now);
                    self.phase = PassPhase::Ending;
                } else {
                    self.logic.record_failure();
                    self.phase = PassPhase::ReplyFailed { now, address };
                }
                PassAction::Continue
            },
            PassPhase::ReplyFailed { now, address } => {
                self.logic.handshake_replied(address, now);
                self.phase = PassPhase::Ending;
                PassAction::Continue
            },
            PassPhase::Ending => {
                self.phase = PassPhase::Start;
                match self.logic.take_output() {
                    Some(result) => PassAction::Return(result),
                    None => PassAction::ReadClock,
                }
            },
        }
    }
}

/// Over any run of steps of the receive loop from a server with no clients, an
/// address is registered exactly when, among the steps that completed a client
/// handshake from it and the tick steps that took its disconnection off the
/// queue, the last was one that completed a handshake.
pub proof fn lemma_pass_registry(
    logics: Seq<UdpServerSocket>,
    phases: Seq<PassPhase>,
    events: Seq<PassEvent>,
    address: Address,
)
    requires
        logics.len() == events.len() + 1,
        phases.len() == events.len(),
        logics[0].clients().len() == 0,
        forall|k: int|
            0 <= k < events.len() ==> registry_step(
                #[trigger] logics[k].clients(),
                logics[k + 1].clients(),
                pass_change(logics[k], phases[k], events[k]),
            ),
    ensures
        registered(logics.last().clients(), address) == registered_by(
            Seq::new(events.len(), |k: int| pass_change(logics[k], phases[k], events[k])),
            address,
        ),
{
    let states = Seq::new(logics.len(), |k: int| logics[k].clients());
    let changes = Seq::new(events.len(), |k: int| pass_change(logics[k], phases[k], events[k]));
    assert forall|k: int| 0 <= k < changes.len() implies registry_step(
        #[trigger] states[k],
        states[k + 1],
        changes[k],
    ) by {
        assert(registry_step(logics[k].clients(), logics[k + 1].clients(), pass_change(logics[k], phases[k], events[k])));
    }
    lemma_registry_history(states, changes, address);
}

} // verus!
