//! Session synchronization primitives: the readiness barrier that gates
//! playout start on transport readiness, and the single-slot termination
//! signal through which any party requests session teardown.
use vstd::prelude::*;

verus! {

/// Single-fire, multi-waiter readiness gate. It starts armed; the first
/// release moves it to released and it is never re-armed. Waiters poll
/// `may_proceed` and pass exactly when the barrier is released.
pub struct ReadinessBarrier {
    released: bool,
}

impl ReadinessBarrier {
    /// Whether the barrier has fired.
    pub closed spec fn is_released(self) -> bool {
        self.released
    }

    /// A new barrier is armed.
    pub fn new() -> (r: Self)
        ensures
            !r.is_released(),
    {
        ReadinessBarrier { released: false }
    }

    /// Releases the barrier. Idempotent: the first call moves armed to
    /// released, and every later call leaves the barrier exactly as it was.
    pub fn release(&mut self)
        ensures
            final(self).is_released(),
            old(self).is_released() ==> *final(self) == *old(self),
    {
        self.released = true;
    }

    /// A waiter may proceed exactly when the barrier has been released.
    pub fn may_proceed(&self) -> (r: bool)
        ensures
            r == self.is_released(),
    {
        self.released
    }
}

/// The barrier state after a sequence of trigger observations: `evs[i]` is
/// true when observation `i` asked for a release. Released exactly when some
/// observation did.
pub open spec fn barrier_run(evs: Seq<bool>) -> bool
    decreases evs.len(),
{
    if evs.len() == 0 {
        false
    } else {
        barrier_run(evs.drop_last()) || evs.last()
    }
}

/// How many observations in the sequence actually changed the barrier from
/// armed to released.
pub open spec fn release_transitions(evs: Seq<bool>) -> nat
    decreases evs.len(),
{
    if evs.len() == 0 {
        0
    } else {
        release_transitions(evs.drop_last()) + if !barrier_run(evs.drop_last()) && barrier_run(
            evs,
        ) {
            1nat
        } else {
            0nat
        }
    }
}

/// The barrier releases at most once: over any sequence of trigger
/// observations (however many report the transport connected), exactly one
/// observation performs the armed-to-released transition if any does, and
/// none afterwards.
pub proof fn lemma_barrier_releases_at_most_once(evs: Seq<bool>)
    ensures
        release_transitions(evs) == if barrier_run(evs) {
            1nat
        } else {
            0nat
        },
        release_transitions(evs) <= 1,
    decreases evs.len(),
{
    if evs.len() > 0 {
        lemma_barrier_releases_at_most_once(evs.drop_last());
    }
}

/// Once released, the barrier stays released whatever is observed next.
pub proof fn lemma_barrier_monotone(evs: Seq<bool>, ev: bool)
    requires
        barrier_run(evs),
    ensures
        barrier_run(evs.push(ev)),
{
    assert(evs.push(ev).drop_last() =~= evs);
}

/// What one raise attempt does to the number of pending notifications in a
/// single-capacity slot: it fills an empty slot and is dropped otherwise.
pub open spec fn raise_spec(pending: nat) -> nat {
    if pending == 0 {
        1
    } else {
        pending
    }
}

/// The slot contents after `n` raise attempts starting from `pending`.
pub open spec fn raise_all(pending: nat, n: nat) -> nat
    decreases n,
{
    if n == 0 {
        pending
    } else {
        raise_spec(raise_all(pending, (n - 1) as nat))
    }
}

/// However many teardown requests race (playout end-of-stream against a
/// transport failure, and more), at least one raise leaves the slot holding
/// exactly one pending notification, never more.
pub proof fn lemma_raises_leave_exactly_one(pending: nat, n: nat)
    requires
        pending <= 1,
        n >= 1,
    ensures
        raise_all(pending, n) == 1,
    decreases n,
{
    if n > 1 {
        lemma_raises_leave_exactly_one(pending, (n - 1) as nat);
    } else {
        assert(raise_all(pending, 0) == pending);
    }
}

/// Best-effort teardown notification: a slot of capacity one. A raise on an
/// occupied slot is dropped, not queued and not an error; a drain empties the
/// slot and reports whether anything was pending.
pub struct TerminationSignal {
    queued: u64,
}

impl TerminationSignal {
    /// Number of notifications currently pending.
    pub closed spec fn pending(self) -> nat {
        self.queued as nat
    }

    /// The slot never holds more than one notification.
    pub closed spec fn wf(self) -> bool {
        self.queued <= 1
    }

    /// A new signal holds nothing.
    pub fn new() -> (r: Self)
        ensures
            r.wf(),
            r.pending() == 0,
    {
        TerminationSignal { queued: 0 }
    }

    /// Non-blocking raise: fills the slot if it is empty and otherwise drops
    /// the notification, leaving the slot exactly as it was.
    pub fn raise(&mut self)
        requires
            old(self).wf(),
        ensures
            final(self).wf(),
            final(self).pending() == raise_spec(old(self).pending()),
            final(self).pending() == 1,
            old(self).pending() == 1 ==> *final(self) == *old(self),
    {
        if self.queued == 0 {
            self.queued = 1;
        }
    }

    /// Consumer side: empties the slot and reports whether a notification was
    /// pending.
    pub fn drain(&mut self) -> (r: bool)
        requires
            old(self).wf(),
        ensures
            final(self).wf(),
            final(self).pending() == 0,
            r == (old(self).pending() == 1),
    {
        let had = self.queued != 0;
        self.queued = 0;
        had
    }
}

} // verus!
