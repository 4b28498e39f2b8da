use vstd::prelude::*;

use std::collections::VecDeque;

use crate::address::Address;
use crate::config::{default_config, Config};
use crate::connection_manager::{fresh_at, heard_at, sent_at, ConnectionManager};
use crate::constants::{header_of_byte, MessageHeader};
use crate::server::packet::Packet;
use crate::server::socket_event::{ServerSocketError, SocketEvent};
use crate::timer::Timer;

verus! {

/// One registered client: its address and the bookkeeping of its connection.
pub type ClientEntry = (Address, ConnectionManager);

/// What one pass of the receive loop hands back, once it has something.
pub type ReceiveResult = Result<SocketEvent, ServerSocketError>;

/// Whether `address` is registered among `clients`.
pub open spec fn registered(clients: Seq<ClientEntry>, address: Address) -> bool {
    exists|i: int| 0 <= i < clients.len() && #[trigger] clients[i].0 == address
}

/// No address is registered twice.
pub open spec fn distinct_addresses(clients: Seq<ClientEntry>) -> bool {
    forall|i: int, j: int|
        0 <= i < clients.len() && 0 <= j < clients.len() && i != j ==> #[trigger] clients[i].0
            != #[trigger] clients[j].0
}

/// The position of `address` among `clients` (meaningful when it is registered).
pub open spec fn slot(clients: Seq<ClientEntry>, address: Address) -> int {
    choose|i: int| 0 <= i < clients.len() && #[trigger] clients[i].0 == address
}

/// `clients` with the entry of `address` taken out, if there is one.
pub open spec fn without(clients: Seq<ClientEntry>, address: Address) -> Seq<ClientEntry> {
    if registered(clients, address) {
        clients.remove(slot(clients, address))
    } else {
        clients
    }
}

/// `after` is `clients` where the connection of `address`, if registered, has
/// been changed by `step` and every other entry is kept.
pub open spec fn updated_entry(
    clients: Seq<ClientEntry>,
    after: Seq<ClientEntry>,
    address: Address,
    step: spec_fn(ConnectionManager, ConnectionManager) -> bool,
) -> bool {
    if registered(clients, address) {
        let k = slot(clients, address);
        &&& after.len() == clients.len()
        &&& forall|i: int| 0 <= i < clients.len() && i != k ==> #[trigger] after[i] == clients[i]
        &&& after[k].0 == address
        &&& step(clients[k].1, after[k].1)
    } else {
        after == clients
    }
}

/// The addresses among `clients`, in order, whose connections have been silent
/// too long at time `now`.
pub open spec fn dropped_at(clients: Seq<ClientEntry>, now: u64) -> Seq<Address>
    decreases clients.len(),
{
    if clients.len() == 0 {
        Seq::empty()
    } else {
        let earlier = dropped_at(clients.drop_last(), now);
        if clients.last().1.timeout().rings_at(now) {
            earlier.push(clients.last().0)
        } else {
            earlier
        }
    }
}

/// The addresses among `clients`, in order, that are kept at time `now` and are
/// due a heartbeat.
pub open spec fn heartbeat_due_at(clients: Seq<ClientEntry>, now: u64) -> Seq<Address>
    decreases clients.len(),
{
    if clients.len() == 0 {
        Seq::empty()
    } else {
        let earlier = heartbeat_due_at(clients.drop_last(), now);
        let last = clients.last();
        if !last.1.timeout().rings_at(now) && last.1.heartbeat().rings_at(now) {
            earlier.push(last.0)
        } else {
            earlier
        }
    }
}

/// Taking out the entry of a registered address unregisters that address and
/// keeps every other address registered as it was.
pub proof fn lemma_without_unregisters(clients: Seq<ClientEntry>, address: Address, other: Address)
    requires
        distinct_addresses(clients),
    ensures
        !registered(without(clients, address), address),
        distinct_addresses(without(clients, address)),
        other != address ==> (registered(without(clients, address), other) == registered(
            clients,
            other,
        )),
{
    if registered(clients, address) {
        let k = slot(clients, address);
        let rest = clients.remove(k);
        assert forall|i: int| 0 <= i < rest.len() implies #[trigger] rest[i].0 != address by {
            let i0 = if i < k { i } else { i + 1 };
            assert(rest[i] == clients[i0]);
        }
        assert forall|a: int, b: int|
            0 <= a < rest.len() && 0 <= b < rest.len() && a != b implies #[trigger] rest[a].0
            != #[trigger] rest[b].0 by {
            let a0 = if a < k { a } else { a + 1 };
            let b0 = if b < k { b } else { b + 1 };
            assert(rest[a] == clients[a0]);
            assert(rest[b] == clients[b0]);
        }
        if other != address {
            if registered(clients, other) {
                let j = choose|j: int| 0 <= j < clients.len() && #[trigger] clients[j].0 == other;
                let j1 = if j < k { j } else { j - 1 };
                assert(rest[j1] == clients[j]);
            }
            if registered(rest, other) {
                let j = choose|j: int| 0 <= j < rest.len() && #[trigger] rest[j].0 == other;
                let j0 = if j < k { j } else { j + 1 };
                assert(rest[j] == clients[j0]);
            }
        }
    }
}

/// The addresses of `entries`, in order.
pub open spec fn addresses_of(entries: Seq<ClientEntry>) -> Seq<Address> {
    entries.map_values(|entry: ClientEntry| entry.0)
}

/// The clients silent too long at `now` are exactly those whose timeout timer
/// rings at `now`, every one of them, in the order they were registered.
pub proof fn lemma_dropped_are_timed_out(clients: Seq<ClientEntry>, now: u64)
    ensures
        dropped_at(clients, now) == addresses_of(
            clients.filter(|entry: ClientEntry| entry.1.timeout().rings_at(now)),
        ),
        forall|i: int|
            0 <= i < clients.len() && (#[trigger] clients[i]).1.timeout().rings_at(now)
                ==> dropped_at(clients, now).contains(clients[i].0),
    decreases clients.len(),
{
    let pred = |entry: ClientEntry| entry.1.timeout().rings_at(now);
    reveal(Seq::filter);
    if clients.len() > 0 {
        let init = clients.drop_last();
        lemma_dropped_are_timed_out(init, now);
        let kept = init.filter(pred);
        if pred(clients.last()) {
            assert(addresses_of(kept.push(clients.last())) =~= addresses_of(kept).push(clients.last().0));
        }
        assert forall|i: int|
            0 <= i < clients.len() && (#[trigger] clients[i]).1.timeout().rings_at(now)
                implies dropped_at(clients, now).contains(clients[i].0) by {
            if i < clients.len() - 1 {
                assert(clients[i] == init[i]);
                let w = choose|w: int| 0 <= w < dropped_at(init, now).len() && dropped_at(init, now)[w] == init[i].0;
                if pred(clients.last()) {
                    assert(dropped_at(clients, now)[w] == init[i].0);
                }
            } else {
                let d = dropped_at(clients, now);
                assert(d[d.len() - 1] == clients[i].0);
            }
        }
    }
}

/// The clients due a heartbeat at `now` are exactly those kept (their timeout
/// timer does not ring) whose heartbeat timer rings at `now`, every one of
/// them, in the order they were registered.
pub proof fn lemma_heartbeat_due_are_quiet(clients: Seq<ClientEntry>, now: u64)
    ensures
        heartbeat_due_at(clients, now) == addresses_of(
            clients.filter(
                |entry: ClientEntry| !entry.1.timeout().rings_at(now) && entry.1.heartbeat().rings_at(now),
            ),
        ),
        forall|i: int|
            0 <= i < clients.len() && !(#[trigger] clients[i]).1.timeout().rings_at(now)
                && clients[i].1.heartbeat().rings_at(now) ==> heartbeat_due_at(clients, now).contains(
                clients[i].0,
            ),
    decreases clients.len(),
{
    let pred = |entry: ClientEntry| !entry.1.timeout().rings_at(now) && entry.1.heartbeat().rings_at(now);
    reveal(Seq::filter);
    if clients.len() > 0 {
        let init = clients.drop_last();
        lemma_heartbeat_due_are_quiet(init, now);
        let kept = init.filter(pred);
        if pred(clients.last()) {
            assert(addresses_of(kept.push(clients.last())) =~= addresses_of(kept).push(clients.last().0));
        }
        assert forall|i: int|
            0 <= i < clients.len() && !(#[trigger] clients[i]).1.timeout().rings_at(now)
                && clients[i].1.heartbeat().rings_at(now) implies heartbeat_due_at(clients, now).contains(
            clients[i].0,
        ) by {
            if i < clients.len() - 1 {
                assert(clients[i] == init[i]);
                let w = choose|w: int|
                    0 <= w < heartbeat_due_at(init, now).len() && heartbeat_due_at(init, now)[w] == init[i].0;
                if pred(clients.last()) {
                    assert(heartbeat_due_at(clients, now)[w] == init[i].0);
                }
            } else {
                let d = heartbeat_due_at(clients, now);
                assert(d[d.len() - 1] == clients[i].0);
            }
        }
    }
}

/// Every address due a heartbeat is a registered client whose connection is
/// kept and due a heartbeat at that time, and no client is both due a heartbeat
/// and dropped.
pub proof fn lemma_heartbeat_targets(clients: Seq<ClientEntry>, now: u64, address: Address)
    ensures
        heartbeat_due_at(clients, now).contains(address) ==> exists|i: int|
            0 <= i < clients.len() && #[trigger] clients[i].0 == address
                && !clients[i].1.timeout().rings_at(now) && clients[i].1.heartbeat().rings_at(now),
        distinct_addresses(clients) ==> !(heartbeat_due_at(clients, now).contains(address)
            && dropped_at(clients, now).contains(address)),
    decreases clients.len(),
{
    if clients.len() > 0 {
        let init = clients.drop_last();
        let last = clients.last();
        lemma_heartbeat_targets(init, now, address);
        if heartbeat_due_at(clients, now).contains(address) {
            if heartbeat_due_at(init, now).contains(address) {
                let i = choose|i: int|
                    0 <= i < init.len() && #[trigger] init[i].0 == address
                        && !init[i].1.timeout().rings_at(now) && init[i].1.heartbeat().rings_at(now);
                assert(clients[i] == init[i]);
            } else {
                let n = clients.len() - 1;
                assert(clients[n] == last);
            }
        }
        if distinct_addresses(clients) {
            assert(distinct_addresses(init)) by {
                assert forall|a: int, b: int|
                    0 <= a < init.len() && 0 <= b < init.len() && a != b implies #[trigger] init[a].0
                    != #[trigger] init[b].0 by {
                    assert(init[a] == clients[a]);
                    assert(init[b] == clients[b]);
                }
            }
            lemma_addresses_of_prefix(clients, now, address);
        }
    }
}

/// Addresses that `dropped_at` or `heartbeat_due_at` lists for all but the
/// last client are registered among those clients.
proof fn lemma_listed_are_registered(clients: Seq<ClientEntry>, now: u64, address: Address)
    ensures
        dropped_at(clients, now).contains(address) ==> registered(clients, address),
        heartbeat_due_at(clients, now).contains(address) ==> registered(clients, address),
    decreases clients.len(),
{
    if clients.len() > 0 {
        let init = clients.drop_last();
        lemma_listed_are_registered(init, now, address);
        if registered(init, address) {
            let i = choose|i: int| 0 <= i < init.len() && #[trigger] init[i].0 == address;
            assert(clients[i] == init[i]);
        }
        let n = clients.len() - 1;
        assert(clients[n] == clients.last());
    }
}

/// The last client cannot be listed twice: with distinct addresses, the lists
/// for all but the last client leave out its address.
proof fn lemma_addresses_of_prefix(clients: Seq<ClientEntry>, now: u64, address: Address)
    requires
        clients.len() > 0,
        distinct_addresses(clients),
        !(heartbeat_due_at(clients.drop_last(), now).contains(address) && dropped_at(
            clients.drop_last(),
            now,
        ).contains(address)),
    ensures
        !(heartbeat_due_at(clients, now).contains(address) && dropped_at(clients, now).contains(
            address,
        )),
{
    let init = clients.drop_last();
    let last = clients.last();
    let n = clients.len() - 1;
    assert(clients[n] == last);
    lemma_listed_are_registered(init, now, address);
    if address == last.0 {
        if registered(init, address) {
            let i = choose|i: int| 0 <= i < init.len() && #[trigger] init[i].0 == address;
            assert(clients[i] == init[i]);
            assert(clients[i].0 == clients[n].0);
        }
    }
}

/// How the set of registered addresses changes in one step.
#[derive(Clone, Copy, Debug, PartialEq, Eq, Structural)]
pub enum RegistryChange {
    /// The address becomes registered (it may have been already).
    Added(Address),
    /// The address stops being registered (it may not have been).
    Removed(Address),
    /// Every address stays as it was.
    Kept,
}

/// `after` registers the addresses that `before` does, but for what `change`
/// says of its address.
pub open spec fn registry_step(before: Seq<ClientEntry>, after: Seq<ClientEntry>, change: RegistryChange) -> bool {
    match change {
        RegistryChange::Added(a) => registered(after, a) && forall|x: Address|
            x != a ==> #[trigger] registered(after, x) == registered(before, x),
        RegistryChange::Removed(a) => !registered(after, a) && forall|x: Address|
            x != a ==> #[trigger] registered(after, x) == registered(before, x),
        RegistryChange::Kept => forall|x: Address| #[trigger] registered(after, x) == registered(before, x),
    }
}

/// Whether the last of `changes` that names `address` adds it.
pub open spec fn registered_by(changes: Seq<RegistryChange>, address: Address) -> bool
    decreases changes.len(),
{
    if changes.len() == 0 {
        false
    } else {
        match changes.last() {
            RegistryChange::Added(a) if a == address => true,
            RegistryChange::Removed(a) if a == address => false,
            _ => registered_by(changes.drop_last(), address),
        }
    }
}

/// Over any run of steps from a server with no clients, an address is
/// registered exactly when the last step that named it added it: a client is
/// registered once its handshake has been answered, and stays so until the
/// step that takes its disconnection off the queue.
pub proof fn lemma_registry_history(states: Seq<Seq<ClientEntry>>, changes: Seq<RegistryChange>, address: Address)
    requires
        states.len() == changes.len() + 1,
        states[0].len() == 0,
        forall|k: int|
            0 <= k < changes.len() ==> registry_step(#[trigger] states[k], states[k + 1], changes[k]),
    ensures
        registered(states.last(), address) == registered_by(changes, address),
    decreases changes.len(),
{
    if changes.len() == 0 {
        assert(!registered(states[0], address));
    } else {
        let n = changes.len() - 1;
        let earlier_states = states.subrange(0, n + 1);
        let earlier_changes = changes.subrange(0, n);
        assert forall|k: int| 0 <= k < earlier_changes.len() implies registry_step(
            #[trigger] earlier_states[k],
            earlier_states[k + 1],
            earlier_changes[k],
        ) by {
            assert(registry_step(states[k], states[k + 1], changes[k]));
        }
        lemma_registry_history(earlier_states, earlier_changes, address);
        assert(earlier_changes == changes.drop_last());
        assert(registry_step(states[n], states[n + 1], changes[n]));
        assert(states.last() == states[n + 1]);
    }
}

/// Every step that only changes entries in place keeps each address's
/// registration.
proof fn lemma_updated_keeps_registration(
    before: Seq<ClientEntry>,
    after: Seq<ClientEntry>,
    address: Address,
    step: spec_fn(ConnectionManager, ConnectionManager) -> bool,
)
    requires
        updated_entry(before, after, address, step),
    ensures
        registry_step(before, after, RegistryChange::Kept),
{
    if registered(before, address) {
        let k = slot(before, address);
        assert forall|x: Address| #[trigger] registered(after, x) == registered(before, x) by {
            if registered(before, x) {
                let j = choose|j: int| 0 <= j < before.len() && #[trigger] before[j].0 == x;
                if j != k {
                    assert(after[j] == before[j]);
                }
            }
            if registered(after, x) {
                let j = choose|j: int| 0 <= j < after.len() && #[trigger] after[j].0 == x;
                if j != k {
                    assert(after[j] == before[j]);
                }
            }
        }
    }
}

/// What `datagram_received` does to the server: the sender's connection, if
/// registered, is marked heard at `now`; a data datagram's payload past its
/// first byte becomes the result as a packet from the sender; nothing else
/// changes.
pub open spec fn datagram_effect(
    before: UdpServerSocket,
    after: UdpServerSocket,
    address: Address,
    payload: Seq<u8>,
    now: u64,
) -> bool {
    &&& updated_entry(
        before.clients(),
        after.clients(),
        address,
        |b: ConnectionManager, a: ConnectionManager| heard_at(b, a, now),
    )
    &&& after.outstanding() == before.outstanding()
    &&& after.heartbeat_timer() == before.heartbeat_timer()
    &&& after.tick_timer() == before.tick_timer()
    &&& after.config() == before.config()
    &&& header_of_byte(payload[0]) == MessageHeader::Data ==> (after.output() matches Some(
        Ok(SocketEvent::Packet(packet)),
    ) && packet@ == (address, payload.subrange(1, payload.len() as int)))
    &&& header_of_byte(payload[0]) != MessageHeader::Data ==> after.output() == before.output()
}

/// What `handshake_replied` does to the server: a registered address changes
/// nothing; a new one is registered last, with a new connection whose timers
/// are reset at `now`, and its connection becomes the result.
pub open spec fn handshake_effect(before: UdpServerSocket, after: UdpServerSocket, address: Address, now: u64) -> bool {
    &&& after.outstanding() == before.outstanding()
    &&& after.heartbeat_timer() == before.heartbeat_timer()
    &&& after.tick_timer() == before.tick_timer()
    &&& after.config() == before.config()
    &&& registered(after.clients(), address)
    &&& if registered(before.clients(), address) {
        &&& after.clients() == before.clients()
        &&& after.output() == before.output()
    } else {
        let n = before.clients().len();
        &&& after.clients().len() == n + 1
        &&& after.clients().take(n as int) == before.clients()
        &&& after.clients()[n as int].0 == address
        &&& fresh_at(
            after.clients()[n as int].1,
            before.config().heartbeat_interval,
            before.config().idle_connection_timeout,
            now,
        )
        &&& after.output() == Some(Ok::<SocketEvent, ServerSocketError>(SocketEvent::Connection(address)))
    }
}

/// The heartbeat targets of a pass at time `now`: the clients due a heartbeat
/// if the heartbeat timer rings, and none otherwise.
pub open spec fn pass_targets(before: UdpServerSocket, now: u64) -> Seq<Address> {
    if before.heartbeat_timer().rings_at(now) {
        heartbeat_due_at(before.clients(), now)
    } else {
        Seq::empty()
    }
}

/// What `check_heartbeats` does at time `now`: if the heartbeat timer rings, it
/// is reset at `now` and the clients silent too long are queued to be reported
/// as disconnected; nothing else changes. `targets` are those of the pass.
pub open spec fn heartbeat_check_effect(
    before: UdpServerSocket,
    after: UdpServerSocket,
    now: u64,
    targets: Seq<Address>,
) -> bool {
    &&& after.clients() == before.clients()
    &&& after.tick_timer() == before.tick_timer()
    &&& after.config() == before.config()
    &&& after.output() == before.output()
    &&& targets == pass_targets(before, now)
    &&& if before.heartbeat_timer().rings_at(now) {
        &&& after.heartbeat_timer().duration() == before.heartbeat_timer().duration()
        &&& after.heartbeat_timer().last() == now
        &&& after.outstanding() == before.outstanding() + dropped_at(before.clients(), now)
    } else {
        &&& after.heartbeat_timer() == before.heartbeat_timer()
        &&& after.outstanding() == before.outstanding()
    }
}

/// What `heartbeat_sent` does: the connection of `address`, if registered,
/// marks a send at `now`; nothing else changes.
pub open spec fn heartbeat_sent_effect(
    before: UdpServerSocket,
    after: UdpServerSocket,
    address: Address,
    now: u64,
) -> bool {
    &&& updated_entry(
        before.clients(),
        after.clients(),
        address,
        |b: ConnectionManager, a: ConnectionManager| sent_at(b, a, now),
    )
    &&& after.outstanding() == before.outstanding()
    &&& after.heartbeat_timer() == before.heartbeat_timer()
    &&& after.tick_timer() == before.tick_timer()
    &&& after.config() == before.config()
    &&& after.output() == before.output()
}

/// What `record_failure` does: the pass's result becomes
/// `ServerSocketError::Wrapped`; nothing else changes.
pub open spec fn failure_effect(before: UdpServerSocket, after: UdpServerSocket) -> bool {
    &&& after.output() == Some(Err::<SocketEvent, ServerSocketError>(ServerSocketError::Wrapped))
    &&& after.clients() == before.clients()
    &&& after.outstanding() == before.outstanding()
    &&& after.heartbeat_timer() == before.heartbeat_timer()
    &&& after.tick_timer() == before.tick_timer()
    &&& after.config() == before.config()
}

/// What `check_disconnects_and_tick` does at time `now`: the first queued
/// disconnection, if any, leaves the queue, its client is removed and it becomes
/// the pass's result; then, if the tick timer rings, it is reset at `now` and
/// `Tick` becomes the result instead.
pub open spec fn disconnect_tick_effect(before: UdpServerSocket, after: UdpServerSocket, now: u64) -> bool {
    &&& after.heartbeat_timer() == before.heartbeat_timer()
    &&& after.config() == before.config()
    &&& if before.outstanding().len() > 0 {
        let address = before.outstanding()[0];
        &&& after.outstanding() == before.outstanding().drop_first()
        &&& after.clients() == without(before.clients(), address)
    } else {
        &&& after.outstanding() == before.outstanding()
        &&& after.clients() == before.clients()
    }
    &&& if before.tick_timer().rings_at(now) {
        &&& after.tick_timer().duration() == before.tick_timer().duration()
        &&& after.tick_timer().last() == now
        &&& after.output() == Some(Ok::<SocketEvent, ServerSocketError>(SocketEvent::Tick))
    } else {
        &&& after.tick_timer() == before.tick_timer()
        &&& after.output() == if before.outstanding().len() > 0 {
            Some(Ok::<SocketEvent, ServerSocketError>(SocketEvent::Disconnection(before.outstanding()[0])))
        } else {
            before.output()
        }
    }
}

/// What `take_output` does: `output` is the pass's result, which is cleared;
/// nothing else changes.
pub open spec fn take_effect(before: UdpServerSocket, after: UdpServerSocket, output: Option<ReceiveResult>) -> bool {
    &&& output == before.output()
    &&& after.output() is None
    &&& after.clients() == before.clients()
    &&& after.outstanding() == before.outstanding()
    &&& after.heartbeat_timer() == before.heartbeat_timer()
    &&& after.tick_timer() == before.tick_timer()
    &&& after.config() == before.config()
}

/// A client handshake from an address already registered, answered, gives no
/// second connection: the pass's result is as it was before the datagram, the
/// same addresses stay registered, and the client's connection is only marked
/// heard, not replaced.
pub proof fn lemma_repeated_handshake(
    s0: UdpServerSocket,
    s1: UdpServerSocket,
    s2: UdpServerSocket,
    address: Address,
    payload: Seq<u8>,
    now: u64,
)
    requires
        registered(s0.clients(), address),
        payload.len() >= 1,
        header_of_byte(payload[0]) == MessageHeader::ClientHandshake,
        datagram_effect(s0, s1, address, payload, now),
        handshake_effect(s1, s2, address, now),
    ensures
        s2.output() == s0.output(),
        s2.clients() == s1.clients(),
        registry_step(s0.clients(), s2.clients(), RegistryChange::Kept),
        s2.clients().len() == s0.clients().len(),
        s2.clients()[slot(s0.clients(), address)].0 == address,
        heard_at(s0.clients()[slot(s0.clients(), address)].1, s2.clients()[slot(s0.clients(), address)].1, now),
{
    lemma_updated_keeps_registration(
        s0.clients(),
        s1.clients(),
        address,
        |b: ConnectionManager, a: ConnectionManager| heard_at(b, a, now),
    );
    assert(registered(s1.clients(), address));
}

/// The connection logic of the UDP server: its timers, its registered clients,
/// the clients waiting to be reported as disconnected, and the result that the
/// current pass of the receive loop will hand back.
///
/// One pass of the receive loop runs, in this order: `check_heartbeats`, a
/// heartbeat sent to each address it returns (then `heartbeat_sent`, or
/// `record_failure` if the send failed), `check_disconnects_and_tick`, one
/// read from the socket (then `datagram_received`, and for a handshake the reply
/// and `handshake_replied`; or `record_failure` if the read failed), and
/// `take_output`. Passes repeat until `take_output` gives a result.
/// `UdpServerPass` runs these steps in that order.
pub struct UdpServerSocket {
    heartbeat_timer: Timer,
    tick_timer: Timer,
    clients: Vec<ClientEntry>,
    outstanding_disconnects: VecDeque<Address>,
    config: Config,
    output: Option<ReceiveResult>,
}

impl UdpServerSocket {
    /// Every client is registered once, and none is connectionless.
    pub closed spec fn wf(&self) -> bool {
        &&& distinct_addresses(self.clients@)
        &&& forall|i: int|
            0 <= i < self.clients@.len() ==> !(#[trigger] self.clients@[i]).1.is_connectionless()
    }

    /// The registered clients, in the order they were registered.
    pub closed spec fn clients(&self) -> Seq<ClientEntry> {
        self.clients@
    }

    /// Clients that will be reported as disconnected, first to last.
    pub closed spec fn outstanding(&self) -> Seq<Address> {
        self.outstanding_disconnects@
    }

    /// The timer that paces heartbeats and timeout checks.
    pub closed spec fn heartbeat_timer(&self) -> Timer {
        self.heartbeat_timer
    }

    /// The timer that paces `Tick` events.
    pub closed spec fn tick_timer(&self) -> Timer {
        self.tick_timer
    }

    /// The settings in force.
    pub closed spec fn config(&self) -> Config {
        self.config
    }

    /// The result the current pass will hand back, if any yet.
    pub closed spec fn output(&self) -> Option<ReceiveResult> {
        self.output
    }

    /// A well-formed server registers every client once, and keeps timers for
    /// each of them.
    pub proof fn lemma_wf(&self)
        requires
            self.wf(),
        ensures
            distinct_addresses(self.clients()),
            forall|i: int|
                0 <= i < self.clients().len() ==> !(#[trigger] self.clients()[i]).1.is_connectionless(),
    {
    }

    /// A server at time `now` with no clients. Heartbeats are checked twice per
    /// heartbeat interval of `config` (the default settings when none are given):
    /// the interval in force is half the one asked for.
    pub fn new(config: Option<Config>, tick_interval: u64, now: u64) -> (socket: Self)
        ensures
            socket.wf(),
            ({
                let base = match config {
                    Some(c) => c,
                    None => default_config(),
                };
                socket.config() == Config { heartbeat_interval: (base.heartbeat_interval / 2) as u64, ..base }
            }),
            socket.heartbeat_timer().duration() == socket.config().heartbeat_interval,
            socket.heartbeat_timer().last() == now,
            socket.tick_timer().duration() == tick_interval,
            socket.tick_timer().last() == now,
            socket.clients() == Seq::<ClientEntry>::empty(),
            socket.outstanding() == Seq::<Address>::empty(),
            socket.output() is None,
    {
        let mut some_config = match config {
            Some(config) => config,
            None => Config::default(),
        };
        some_config.heartbeat_interval = some_config.heartbeat_interval / 2;
        UdpServerSocket {
            heartbeat_timer: Timer::new_at(some_config.heartbeat_interval, now),
            tick_timer: Timer::new_at(tick_interval, now),
            clients: Vec::new(),
            outstanding_disconnects: VecDeque::new(),
            config: some_config,
            output: None,
        }
    }

    /// The position of `address` among the clients.
    fn find_client(&self, address: Address) -> (found: Option<usize>)
        requires
            self.wf(),
        ensures
            match found {
                Some(i) => i < self.clients().len() && i == slot(self.clients(), address)
                    && registered(self.clients(), address),
                None => !registered(self.clients(), address),
            },
    {
        let mut i: usize = 0;
        while i < self.clients.len()
            invariant
                i <= self.clients@.len(),
                distinct_addresses(self.clients@),
                forall|j: int| 0 <= j < i ==> #[trigger] self.clients@[j].0 != address,
            decreases self.clients@.len() - i,
        {
            if self.clients[i].0 == address {
                proof {
                    let k = slot(self.clients@, address);
                    assert(self.clients@[k].0 == address);
                }
                return Some(i);
            }
            i = i + 1;
        }
        None
    }

    /// Whether `address` is a registered client.
    pub fn has_client(&self, address: Address) -> (found: bool)
        requires
            self.wf(),
        ensures
            found == registered(self.clients(), address),
    {
        self.find_client(address).is_some()
    }

    /// The addresses of the registered clients, in the order they were registered.
    pub fn get_clients(&self) -> (addresses: Vec<Address>)
        ensures
            addresses@ == self.clients().map_values(|entry: ClientEntry| entry.0),
    {
        let mut addresses: Vec<Address> = Vec::new();
        let mut i: usize = 0;
        while i < self.clients.len()
            invariant
                i <= self.clients@.len(),
                addresses@ == self.clients@.take(i as int).map_values(|entry: ClientEntry| entry.0),
            decreases self.clients@.len() - i,
        {
            addresses.push(self.clients[i].0);
            proof {
                assert(self.clients@.take(i + 1) == self.clients@.take(i as int).push(self.clients@[i as int]));
            }
            i = i + 1;
        }
        proof {
            assert(self.clients@.take(self.clients@.len() as int) == self.clients@);
        }
        addresses
    }

    /// Heartbeat phase of a pass, at time `now`. If the heartbeat timer rings it
    /// is reset, every client silent too long is queued to be reported as
    /// disconnected, and the addresses of the other clients whose heartbeat is due
    /// are returned, for a heartbeat to be sent to each. Otherwise nothing changes
    /// and nothing is returned.
    pub fn check_heartbeats(&mut self, now: u64) -> (targets: Vec<Address>)
        requires
            old(self).wf(),
        ensures
            registry_step(old(self).clients(), final(self).clients(), RegistryChange::Kept),
            final(self).wf(),
            heartbeat_check_effect(*old(self), *final(self), now, targets@),
            old(self).heartbeat_timer().rings_at(now) ==> {
                &&& final(self).outstanding() == old(self).outstanding() + addresses_of(
                    old(self).clients().filter(|entry: ClientEntry| entry.1.timeout().rings_at(now)),
                )
                &&& targets@ == addresses_of(
                    old(self).clients().filter(
                        |entry: ClientEntry|
                            !entry.1.timeout().rings_at(now) && entry.1.heartbeat().rings_at(now),
                    ),
                )
            },
    {
        proof {
            lemma_dropped_are_timed_out(self.clients@, now);
            lemma_heartbeat_due_are_quiet(self.clients@, now);
        }
        let mut targets: Vec<Address> = Vec::new();
        if !self.heartbeat_timer.ringing_at(now) {
            return targets;
        }
        self.heartbeat_timer.reset_at(now);
        let ghost clients = self.clients@;
        let ghost outstanding = self.outstanding_disconnects@;
        let ghost before = *self;
        let mut i: usize = 0;
        while i < self.clients.len()
            invariant
                self.clients@ == clients,
                self.heartbeat_timer == before.heartbeat_timer,
                self.tick_timer == before.tick_timer,
                self.config == before.config,
                self.output == before.output,
                before.wf(),
                i <= clients.len(),
                forall|j: int| 0 <= j < clients.len() ==> !(#[trigger] clients[j]).1.is_connectionless(),
                self.outstanding_disconnects@ == outstanding + dropped_at(clients.take(i as int), now),
                targets@ == heartbeat_due_at(clients.take(i as int), now),
            decreases clients.len() - i,
        {
            let entry = self.clients[i];
            proof {
                assert(clients.take(i + 1).drop_last() == clients.take(i as int));
                assert(clients.take(i + 1).last() == clients[i as int]);
            }
            if entry.1.should_drop_at(now) {
                self.outstanding_disconnects.push_back(entry.0);
            } else if entry.1.should_send_heartbeat_at(now) {
                targets.push(entry.0);
            }
            i = i + 1;
        }
        proof {
            assert(clients.take(clients.len() as int) == clients);
        }
        targets
    }

    /// Records that a heartbeat went out to `address` at time `now`: its
    /// connection, if registered, marks the send; nothing else changes.
    pub fn heartbeat_sent(&mut self, address: Address, now: u64)
        requires
            old(self).wf(),
        ensures
            registry_step(old(self).clients(), final(self).clients(), RegistryChange::Kept),
            final(self).wf(),
            heartbeat_sent_effect(*old(self), *final(self), address, now),
    {
        match self.find_client(address) {
            Some(i) => {
                let mut entry = self.clients[i];
                entry.1.mark_sent_at(now);
                self.clients.set(i, entry);
            },
            None => {},
        }
        proof {
            let ghost marked = |b: ConnectionManager, a: ConnectionManager| sent_at(b, a, now);
            assert(updated_entry(old(self).clients(), self.clients(), address, marked));
            lemma_updated_keeps_registration(old(self).clients(), self.clients(), address, marked);
        }
    }

    /// Records that a read or a write on the socket failed: the pass will hand
    /// back `ServerSocketError::Wrapped` unless a later step sets another result.
    pub fn record_failure(&mut self)
        requires
            old(self).wf(),
        ensures
            registry_step(old(self).clients(), final(self).clients(), RegistryChange::Kept),
            final(self).wf(),
            failure_effect(*old(self), *final(self)),
    {
        self.output = Some(Err(ServerSocketError::Wrapped));
    }

    /// Takes out the entry of `address`, if there is one.
    fn remove_client(&mut self, address: Address)
        requires
            old(self).wf(),
        ensures
            final(self).wf(),
            final(self).clients() == without(old(self).clients(), address),
            final(self).outstanding() == old(self).outstanding(),
            final(self).heartbeat_timer() == old(self).heartbeat_timer(),
            final(self).tick_timer() == old(self).tick_timer(),
            final(self).config() == old(self).config(),
            final(self).output() == old(self).output(),
    {
        match self.find_client(address) {
            Some(i) => {
                let ghost before = self.clients@;
                self.clients.remove(i);
                proof {
                    assert forall|a: int, b: int|
                        0 <= a < self.clients@.len() && 0 <= b < self.clients@.len() && a != b
                        implies #[trigger] self.clients@[a].0 != #[trigger] self.clients@[b].0 by {
                        let a0 = if a < i { a } else { a + 1 };
                        let b0 = if b < i { b } else { b + 1 };
                        assert(self.clients@[a] == before[a0]);
                        assert(self.clients@[b] == before[b0]);
                    }
                    assert forall|j: int| 0 <= j < self.clients@.len() implies !(
                    #[trigger] self.clients@[j]).1.is_connectionless() by {
                        let j0 = if j < i { j } else { j + 1 };
                        assert(self.clients@[j] == before[j0]);
                    }
                }
            },
            None => {},
        }
    }

    /// Disconnection and tick phase of a pass, at time `now`. The first queued
    /// disconnection, if any, is taken off the queue, its client removed, and it
    /// becomes the pass's result; then, if the tick timer rings, it is reset and
    /// `Tick` becomes the pass's result instead.
    pub fn check_disconnects_and_tick(&mut self, now: u64)
        requires
            old(self).wf(),
        ensures
            registry_step(
                old(self).clients(),
                final(self).clients(),
                if old(self).outstanding().len() > 0 {
                    RegistryChange::Removed(old(self).outstanding()[0])
                } else {
                    RegistryChange::Kept
                },
            ),
            final(self).wf(),
            disconnect_tick_effect(*old(self), *final(self), now),
    {
        match self.outstanding_disconnects.pop_front() {
            Some(address) => {
                self.remove_client(address);
                proof {
                    assert forall|x: Address| x != address implies #[trigger] registered(
                        self.clients(),
                        x,
                    ) == registered(old(self).clients(), x) by {
                        lemma_without_unregisters(old(self).clients(), address, x);
                    }
                    lemma_without_unregisters(old(self).clients(), address, address);
                }
                self.output = Some(Ok(SocketEvent::Disconnection(address)));
            },
            None => {},
        }
        if self.tick_timer.ringing_at(now) {
            self.tick_timer.reset_at(now);
            self.output = Some(Ok(SocketEvent::Tick));
        }
    }

    /// Handles a datagram of `payload` read from `address` at time `now`. If the
    /// sender is registered, its connection marks it heard. By the first byte: a
    /// data datagram makes the rest of the payload the pass's result, as a
    /// packet from `address`; a client handshake asks for a server handshake to be
    /// sent back to `address` (the result is `true`), after which
    /// `handshake_replied` is to be called; any other datagram changes nothing
    /// more.
    pub fn datagram_received(&mut self, address: Address, payload: &[u8], now: u64) -> (reply: bool)
        requires
            old(self).wf(),
            payload@.len() >= 1,
        ensures
            final(self).wf(),
            reply == (header_of_byte(payload@[0]) == MessageHeader::ClientHandshake),
            datagram_effect(*old(self), *final(self), address, payload@, now),
            registry_step(old(self).clients(), final(self).clients(), RegistryChange::Kept),
    {
        match self.find_client(address) {
            Some(i) => {
                let mut entry = self.clients[i];
                entry.1.mark_heard_at(now);
                self.clients.set(i, entry);
            },
            None => {},
        }
        proof {
            let ghost marked = |b: ConnectionManager, a: ConnectionManager| heard_at(b, a, now);
            assert(updated_entry(old(self).clients(), self.clients(), address, marked));
            lemma_updated_keeps_registration(old(self).clients(), self.clients(), address, marked);
        }
        let header = MessageHeader::from(payload[0]);
        match header {
            MessageHeader::ClientHandshake => true,
            MessageHeader::Data => {
                let mut data: Vec<u8> = Vec::new();
                let mut i: usize = 1;
                while i < payload.len()
                    invariant
                        1 <= i <= payload@.len(),
                        data@ == payload@.subrange(1, i as int),
                    decreases payload@.len() - i,
                {
                    data.push(payload[i]);
                    proof {
                        assert(payload@.subrange(1, i + 1) == payload@.subrange(1, i as int).push(payload@[i as int]));
                    }
                    i = i + 1;
                }
                self.output = Some(Ok(SocketEvent::Packet(Packet::new(address, data))));
                false
            },
            _ => false,
        }
    }

    /// Completes a client handshake from `address` at time `now`, once the
    /// server handshake has been sent back. A client not yet registered is
    /// registered with a new connection (the heartbeat interval and idle timeout
    /// of the settings in force, both timers reset at `now`), and its connection
    /// becomes the pass's result; a registered one changes nothing.
    pub fn handshake_replied(&mut self, address: Address, now: u64)
        requires
            old(self).wf(),
        ensures
            final(self).wf(),
            handshake_effect(*old(self), *final(self), address, now),
            registry_step(old(self).clients(), final(self).clients(), RegistryChange::Added(address)),
    {
        match self.find_client(address) {
            Some(_) => {},
            None => {
                let connection = ConnectionManager::new_at(
                    self.config.heartbeat_interval,
                    self.config.idle_connection_timeout,
                    now,
                );
                let ghost before = self.clients@;
                self.clients.push((address, connection));
                proof {
                    assert(self.clients@[before.len() as int].0 == address);
                    assert(self.clients@.take(before.len() as int) == before);
                    assert forall|x: Address| x != address implies registered(self.clients@, x)
                        == registered(before, x) by {
                        if registered(before, x) {
                            let j = choose|j: int| 0 <= j < before.len() && #[trigger] before[j].0 == x;
                            assert(self.clients@[j] == before[j]);
                        }
                        if registered(self.clients@, x) {
                            let j = choose|j: int| 0 <= j < self.clients@.len() && #[trigger] self.clients@[j].0 == x;
                            assert(j < before.len());
                            assert(self.clients@[j] == before[j]);
                        }
                    }
                }
                self.output = Some(Ok(SocketEvent::Connection(address)));
            },
        }
    }

    /// Ends a pass: hands back its result, if any, and clears it for the next pass.
    pub fn take_output(&mut self) -> (output: Option<ReceiveResult>)
        requires
            old(self).wf(),
        ensures
            registry_step(old(self).clients(), final(self).clients(), RegistryChange::Kept),
            final(self).wf(),
            take_effect(*old(self), *final(self), output),
    {
        self.output.take()
    }
}

} // verus!
