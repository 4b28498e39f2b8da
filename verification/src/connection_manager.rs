use vstd::prelude::*;

use crate::timer::Timer;

verus! {

/// Heartbeat and timeout bookkeeping of one connection. A connectionless
/// manager keeps no timers at all.
#[derive(Clone, Copy, Debug)]
pub struct ConnectionManager {
    heartbeat_timer: Option<Timer>,
    timeout_timer: Option<Timer>,
}

impl ConnectionManager {
    #[verifier::type_invariant]
    spec fn timers_together(&self) -> bool {
        self.heartbeat_timer.is_some() == self.timeout_timer.is_some()
    }

    /// Whether this manager keeps no timers.
    pub closed spec fn is_connectionless(&self) -> bool {
        self.heartbeat_timer.is_none()
    }

    /// The timer that tells when a heartbeat is due (meaningful unless connectionless).
    pub closed spec fn heartbeat(&self) -> Timer {
        self.heartbeat_timer.unwrap()
    }

    /// The timer that tells when the peer has been silent too long
    /// (meaningful unless connectionless).
    pub closed spec fn timeout(&self) -> Timer {
        self.timeout_timer.unwrap()
    }

    /// A manager whose timers are both reset at time `now`.
    pub fn new_at(heartbeat_duration: u64, timeout_duration: u64, now: u64) -> (manager: Self)
        ensures
            fresh_at(manager, heartbeat_duration, timeout_duration, now),
    {
        ConnectionManager {
            heartbeat_timer: Some(Timer::new_at(heartbeat_duration, now)),
            timeout_timer: Some(Timer::new_at(timeout_duration, now)),
        }
    }

    /// A manager whose timers are both reset now: at time 0 of their clocks.
    pub fn new(heartbeat_duration: u64, timeout_duration: u64) -> (manager: Self)
        ensures
            fresh_at(manager, heartbeat_duration, timeout_duration, 0),
    {
        Self::new_at(heartbeat_duration, timeout_duration, 0)
    }

    /// A manager without timers.
    pub fn connectionless() -> (manager: Self)
        ensures
            manager.is_connectionless(),
    {
        ConnectionManager { heartbeat_timer: None, timeout_timer: None }
    }

    /// Records that something was sent at time `now`: the heartbeat timer is
    /// reset, the timeout timer stays as it was.
    pub fn mark_sent_at(&mut self, now: u64)
        requires
            !old(self).is_connectionless(),
        ensures
            sent_at(*old(self), *final(self), now),
    {
        proof {
            use_type_invariant(&*self);
        }
        let mut timer = self.heartbeat_timer.unwrap();
        timer.reset_at(now);
        self.heartbeat_timer = Some(timer);
    }

    /// Records that something was sent now, and hands back the reading of the
    /// heartbeat timer's clock it was recorded at: the heartbeat is not due at
    /// that reading, and the timeout timer stays as it was.
    pub fn mark_sent(&mut self) -> (now: u64)
        requires
            !old(self).is_connectionless(),
        ensures
            !final(self).is_connectionless(),
            final(self).heartbeat().duration() == old(self).heartbeat().duration(),
            final(self).timeout() == old(self).timeout(),
            sent_at(*old(self), *final(self), now),
            !final(self).heartbeat().rings_at(now),
    {
        proof {
            use_type_invariant(&*self);
        }
        let now = self.heartbeat_timer.unwrap().clock();
        self.mark_sent_at(now);
        now
    }

    /// Whether a heartbeat is due at time `now`.
    pub fn should_send_heartbeat_at(&self, now: u64) -> (due: bool)
        requires
            !self.is_connectionless(),
        ensures
            due == self.heartbeat().rings_at(now),
    {
        proof {
            use_type_invariant(self);
        }
        self.heartbeat_timer.as_ref().unwrap().ringing_at(now)
    }

    /// Whether a heartbeat is due now.
    pub fn should_send_heartbeat(&self) -> (due: bool)
        requires
            !self.is_connectionless(),
        ensures
            due ==> self.heartbeat().last() + self.heartbeat().duration() < u64::MAX,
    {
        proof {
            use_type_invariant(self);
        }
        let now = self.heartbeat_timer.unwrap().clock();
        self.should_send_heartbeat_at(now)
    }

    /// Records that the peer was heard from at time `now`: the timeout timer is
    /// reset, the heartbeat timer stays as it was.
    pub fn mark_heard_at(&mut self, now: u64)
        requires
            !old(self).is_connectionless(),
        ensures
            heard_at(*old(self), *final(self), now),
    {
        proof {
            use_type_invariant(&*self);
        }
        let mut timer = self.timeout_timer.unwrap();
        timer.reset_at(now);
        self.timeout_timer = Some(timer);
    }

    /// Records that the peer was heard from now, and hands back the reading of
    /// the timeout timer's clock it was recorded at: the connection is kept at
    /// every reading up to that one plus the timeout duration, and dropped after.
    pub fn mark_heard(&mut self) -> (now: u64)
        requires
            !old(self).is_connectionless(),
        ensures
            !final(self).is_connectionless(),
            final(self).timeout().duration() == old(self).timeout().duration(),
            final(self).heartbeat() == old(self).heartbeat(),
            heard_at(*old(self), *final(self), now),
            forall|t: u64|
                #[trigger] final(self).timeout().rings_at(t) <==> t > now + old(self).timeout().duration(),
    {
        proof {
            use_type_invariant(&*self);
        }
        let now = self.timeout_timer.unwrap().clock();
        self.mark_heard_at(now);
        now
    }

    /// Whether the connection has been silent too long at time `now`.
    pub fn should_drop_at(&self, now: u64) -> (drop: bool)
        requires
            !self.is_connectionless(),
        ensures
            drop == self.timeout().rings_at(now),
    {
        proof {
            use_type_invariant(self);
        }
        self.timeout_timer.as_ref().unwrap().ringing_at(now)
    }

    /// Whether the connection has been silent too long now.
    pub fn should_drop(&self) -> (drop: bool)
        requires
            !self.is_connectionless(),
        ensures
            drop ==> self.timeout().last() + self.timeout().duration() < u64::MAX,
    {
        proof {
            use_type_invariant(self);
        }
        let now = self.timeout_timer.unwrap().clock();
        self.should_drop_at(now)
    }
}

/// `manager` is a new connection of the given durations whose timers were both
/// reset at time `now`.
pub open spec fn fresh_at(manager: ConnectionManager, heartbeat_duration: u64, timeout_duration: u64, now: u64) -> bool {
    &&& !manager.is_connectionless()
    &&& manager.heartbeat().duration() == heartbeat_duration
    &&& manager.heartbeat().last() == now
    &&& manager.timeout().duration() == timeout_duration
    &&& manager.timeout().last() == now
}

/// `after` is `before` once something was sent at time `now`: the heartbeat
/// timer is reset at `now`, the timeout timer is kept.
pub open spec fn sent_at(before: ConnectionManager, after: ConnectionManager, now: u64) -> bool {
    &&& !after.is_connectionless()
    &&& after.heartbeat().duration() == before.heartbeat().duration()
    &&& after.heartbeat().last() == now
    &&& after.timeout() == before.timeout()
}

/// `after` is `before` once the peer was heard from at time `now`: the timeout
/// timer is reset at `now`, the heartbeat timer is kept.
pub open spec fn heard_at(before: ConnectionManager, after: ConnectionManager, now: u64) -> bool {
    &&& !after.is_connectionless()
    &&& after.timeout().duration() == before.timeout().duration()
    &&& after.timeout().last() == now
    &&& after.heartbeat() == before.heartbeat()
}

/// Sending at `now` makes the heartbeat not due at `now`, and leaves whether
/// the connection should be dropped, at any time, as it was.
pub proof fn lemma_sent_silences_heartbeat(before: ConnectionManager, after: ConnectionManager, now: u64, t: u64)
    requires
        !before.is_connectionless(),
        sent_at(before, after, now),
    ensures
        !after.heartbeat().rings_at(now),
        after.timeout().rings_at(t) == before.timeout().rings_at(t),
{
}

/// Hearing from the peer at `now` means the connection is kept at every time up
/// to `now` plus the timeout duration, and dropped after it.
pub proof fn lemma_heard_keeps_connection(before: ConnectionManager, after: ConnectionManager, now: u64, t: u64)
    requires
        !before.is_connectionless(),
        heard_at(before, after, now),
    ensures
        after.timeout().rings_at(t) <==> t > now + before.timeout().duration(),
        after.heartbeat().rings_at(t) == before.heartbeat().rings_at(t),
{
}

} // verus!
