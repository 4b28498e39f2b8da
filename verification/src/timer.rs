use vstd::prelude::*;

use std::time::Instant;

verus! {

#[verifier::external_type_specification]
#[verifier::external_body]
pub struct ExInstant(std::time::Instant);

/// Calls `std::time::Instant::now`, a reading of the monotonic clock.
/// Nothing is claimed of it: it depends on the time of the call.
#[verifier::external_body]
fn instant_now() -> Instant {
    Instant::now()
}

/// Calls `std::time::Instant::elapsed` on `origin` and converts the duration to
/// whole nanoseconds. Nothing is claimed of it: it depends on the time of the
/// call.
#[verifier::external_body]
fn nanos_since(origin: &Instant) -> u64 {
    origin.elapsed().as_nanos() as u64
}

/// A timer that rings once more than `duration` nanoseconds have passed since it
/// was last reset. Times are readings of the timer's own monotonic clock, in
/// nanoseconds since the moment the timer was made.
#[derive(Clone, Copy, Debug)]
pub struct Timer {
    duration: u64,
    last: u64,
    origin: Instant,
}

impl Timer {
    /// How long the timer waits before it rings.
    pub closed spec fn duration(&self) -> u64 {
        self.duration
    }

    /// The time at which the timer was last reset.
    pub closed spec fn last(&self) -> u64 {
        self.last
    }

    /// Whether the timer rings at time `now`: strictly more than `duration`
    /// has passed since the last reset (no time has passed at all when `now`
    /// comes before it).
    pub open spec fn rings_at(&self, now: u64) -> bool {
        now > self.last() && now - self.last() > self.duration()
    }

    /// A timer of the given duration, reset at time `now`.
    pub fn new_at(duration: u64, now: u64) -> (timer: Self)
        ensures
            timer.duration() == duration,
            timer.last() == now,
    {
        Timer { duration, last: now, origin: instant_now() }
    }

    /// A timer of the given duration, reset now: at time 0 of its clock.
    pub fn new(duration: u64) -> (timer: Self)
        ensures
            timer.duration() == duration,
            timer.last() == 0,
    {
        Self::new_at(duration, 0)
    }

    /// The current reading of the timer's clock.
    pub(crate) fn clock(&self) -> u64 {
        nanos_since(&self.origin)
    }

    /// Resets the timer at time `now`.
    pub fn reset_at(&mut self, now: u64)
        ensures
            final(self).duration() == old(self).duration(),
            final(self).last() == now,
    {
        self.last = now;
    }

    /// Resets the timer now, and hands back the clock reading it was reset at:
    /// the timer does not ring at that reading, and rings at a later one
    /// exactly when more than its duration has passed since.
    pub fn reset(&mut self) -> (now: u64)
        ensures
            final(self).duration() == old(self).duration(),
            final(self).last() == now,
            !final(self).rings_at(now),
            forall|t: u64| #[trigger] final(self).rings_at(t) <==> t > now + old(self).duration(),
    {
        let now = self.clock();
        self.reset_at(now);
        now
    }

    /// Whether the timer rings at time `now`.
    pub fn ringing_at(&self, now: u64) -> (ringing: bool)
        ensures
            ringing == self.rings_at(now),
    {
        now > self.last && now - self.last > self.duration
    }

    /// Whether the timer rings now. It can only ring when some clock reading
    /// lies more than `duration` after its last reset.
    pub fn ringing(&self) -> (ringing: bool)
        ensures
            ringing ==> self.last() + self.duration() < u64::MAX,
    {
        self.ringing_at(self.clock())
    }
}

/// A timer does not ring at the moment it is reset.
pub proof fn lemma_silent_when_reset(timer: Timer)
    ensures
        !timer.rings_at(timer.last()),
{
}

/// Once a timer rings it keeps ringing until it is reset.
pub proof fn lemma_keeps_ringing(timer: Timer, earlier: u64, later: u64)
    requires
        earlier <= later,
        timer.rings_at(earlier),
    ensures
        timer.rings_at(later),
{
}

/// After a reset at `now`, the timer rings at `t` exactly when more than its
/// duration separates `t` from `now`.
pub proof fn lemma_rings_after_duration(timer: Timer, t: u64)
    ensures
        timer.rings_at(t) <==> t > timer.last() + timer.duration(),
{
}

} // verus!
