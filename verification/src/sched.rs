//! Playout scheduler control logic: one instance per track. The scheduler
//! waits on the readiness barrier, then on each pacing tick emits the next
//! timed unit, and on exhaustion finishes exactly once, asking for the
//! termination signal to be raised.
use vstd::prelude::*;

verus! {

/// Phase of one playout scheduler task.
#[derive(Clone, Copy, PartialEq, Eq, Structural, Debug)]
pub enum SchedulerState {
    /// Parked on the readiness barrier; no media has been pushed.
    Waiting,
    /// Emitting units; `next` is the index of the next unit to emit.
    Streaming { next: usize },
    /// The stream is exhausted and completion has been signaled.
    Done,
}

/// What a scheduler observes on one step.
#[derive(Clone, Copy, PartialEq, Eq, Structural, Debug)]
pub enum SchedulerEvent {
    /// The readiness barrier released.
    Released,
    /// One pacing tick elapsed.
    Tick,
}

/// What the surrounding task must do after one step.
#[derive(Clone, Copy, PartialEq, Eq, Structural, Debug)]
pub enum SchedulerAction {
    /// Nothing to do; keep waiting for the next event.
    Idle,
    /// Write unit `unit` of the playout plan to the track sink.
    Emit { unit: usize },
    /// The stream ended: raise the termination signal.
    Finish,
}

/// One step of the scheduler over a plan of `total` units.
pub open spec fn scheduler_step_spec(s: SchedulerState, ev: SchedulerEvent, total: nat) -> (
    SchedulerState,
    SchedulerAction,
) {
    match s {
        SchedulerState::Waiting => match ev {
            SchedulerEvent::Released => (SchedulerState::Streaming { next: 0 }, SchedulerAction::Idle),
            SchedulerEvent::Tick => (SchedulerState::Waiting, SchedulerAction::Idle),
        },
        SchedulerState::Streaming { next } => match ev {
            SchedulerEvent::Released => (s, SchedulerAction::Idle),
            SchedulerEvent::Tick => if next < total {
                (
                    SchedulerState::Streaming { next: (next + 1) as usize },
                    SchedulerAction::Emit { unit: next },
                )
            } else {
                (SchedulerState::Done, SchedulerAction::Finish)
            },
        },
        SchedulerState::Done => (SchedulerState::Done, SchedulerAction::Idle),
    }
}

/// Executable scheduler step; the task runs this on every event.
pub fn scheduler_step(s: SchedulerState, ev: SchedulerEvent, total: usize) -> (r: (
    SchedulerState,
    SchedulerAction,
))
    requires
        s matches SchedulerState::Streaming { next } ==> next <= total,
    ensures
        r == scheduler_step_spec(s, ev, total as nat),
        r.0 matches SchedulerState::Streaming { next } ==> next <= total,
{
    match s {
        SchedulerState::Waiting => match ev {
            SchedulerEvent::Released => (
                SchedulerState::Streaming { next: 0 },
                SchedulerAction::Idle,
            ),
            SchedulerEvent::Tick => (SchedulerState::Waiting, SchedulerAction::Idle),
        },
        SchedulerState::Streaming { next } => match ev {
            SchedulerEvent::Released => (s, SchedulerAction::Idle),
            SchedulerEvent::Tick => if next < total {
                (SchedulerState::Streaming { next: next + 1 }, SchedulerAction::Emit { unit: next })
            } else {
                (SchedulerState::Done, SchedulerAction::Finish)
            },
        },
        SchedulerState::Done => (SchedulerState::Done, SchedulerAction::Idle),
    }
}

/// The state a scheduler reaches after observing a sequence of events.
pub open spec fn scheduler_run(evs: Seq<SchedulerEvent>, total: nat) -> SchedulerState
    decreases evs.len(),
{
    if evs.len() == 0 {
        SchedulerState::Waiting
    } else {
        scheduler_step_spec(scheduler_run(evs.drop_last(), total), evs.last(), total).0
    }
}

/// How many steps in a run left the waiting state, that is, observed the
/// barrier release.
pub open spec fn release_observations(evs: Seq<SchedulerEvent>, total: nat) -> nat
    decreases evs.len(),
{
    if evs.len() == 0 {
        0
    } else {
        release_observations(evs.drop_last(), total) + if scheduler_run(evs.drop_last(), total)
            is Waiting && !(scheduler_run(evs, total) is Waiting) {
            1nat
        } else {
            0nat
        }
    }
}

/// How many steps in a run produced the finish action, that is, raised the
/// termination signal.
pub open spec fn finish_count(evs: Seq<SchedulerEvent>, total: nat) -> nat
    decreases evs.len(),
{
    if evs.len() == 0 {
        0
    } else {
        finish_count(evs.drop_last(), total) + if scheduler_step_spec(
            scheduler_run(evs.drop_last(), total),
            evs.last(),
            total,
        ).1 is Finish {
            1nat
        } else {
            0nat
        }
    }
}

/// A scheduler observes the barrier release exactly once: over any event
/// sequence it leaves the waiting state at most once, and it is out of the
/// waiting state exactly when it has left it once.
pub proof fn lemma_release_observed_at_most_once(evs: Seq<SchedulerEvent>, total: nat)
    ensures
        release_observations(evs, total) == if scheduler_run(evs, total) is Waiting {
            0nat
        } else {
            1nat
        },
        release_observations(evs, total) <= 1,
    decreases evs.len(),
{
    if evs.len() > 0 {
        lemma_release_observed_at_most_once(evs.drop_last(), total);
    }
}

/// Whatever the input data was (well-formed, truncated or corrupt merely make
/// the plan shorter), a scheduler finishes at most once: the termination
/// signal is raised on the single transition to the done state and never
/// again.
pub proof fn lemma_finish_at_most_once(evs: Seq<SchedulerEvent>, total: nat)
    ensures
        finish_count(evs, total) == if scheduler_run(evs, total) is Done {
            1nat
        } else {
            0nat
        },
        finish_count(evs, total) <= 1,
    decreases evs.len(),
{
    if evs.len() > 0 {
        lemma_finish_at_most_once(evs.drop_last(), total);
    }
}

/// The units a run emits, in the order it emits them.
pub open spec fn emitted_units(evs: Seq<SchedulerEvent>, total: nat) -> Seq<nat>
    decreases evs.len(),
{
    if evs.len() == 0 {
        Seq::empty()
    } else {
        let prior = emitted_units(evs.drop_last(), total);
        match scheduler_step_spec(scheduler_run(evs.drop_last(), total), evs.last(), total).1 {
            SchedulerAction::Emit { unit } => prior.push(unit as nat),
            _ => prior,
        }
    }
}

/// One barrier release followed by `n` pacing ticks.
pub open spec fn release_then_ticks(n: nat) -> Seq<SchedulerEvent> {
    seq![SchedulerEvent::Released] + Seq::new(n, |i: int| SchedulerEvent::Tick)
}

/// Paced playout: once the barrier releases, the scheduler emits the plan's
/// units in stream order, one per tick; after the last tick of the plan it is
/// done, having emitted every unit exactly once.
pub proof fn lemma_run_emits_in_order(total: nat, n: nat)
    requires
        total <= usize::MAX,
    ensures
        n <= total ==> scheduler_run(release_then_ticks(n), total) == (SchedulerState::Streaming {
            next: n as usize,
        }),
        n <= total ==> emitted_units(release_then_ticks(n), total) == Seq::new(
            n,
            |i: int| i as nat,
        ),
        n > total ==> scheduler_run(release_then_ticks(n), total) is Done,
        n > total ==> emitted_units(release_then_ticks(n), total) == Seq::new(
            total,
            |i: int| i as nat,
        ),
    decreases n,
{
    let evs = release_then_ticks(n);
    if n == 0 {
        assert(evs.drop_last() =~= Seq::<SchedulerEvent>::empty());
        assert(evs.last() == SchedulerEvent::Released);
        assert(emitted_units(evs.drop_last(), total) =~= Seq::<nat>::empty());
        assert(scheduler_run(evs.drop_last(), total) == SchedulerState::Waiting);
        assert(emitted_units(evs, total) =~= Seq::new(0, |i: int| i as nat));
    } else {
        lemma_run_emits_in_order(total, (n - 1) as nat);
        assert(evs.drop_last() =~= release_then_ticks((n - 1) as nat));
        assert(evs.last() == SchedulerEvent::Tick);
        if n <= total {
            assert(emitted_units(evs, total) =~= Seq::new(n, |i: int| i as nat));
        } else if n == total + 1 {
            assert(emitted_units(evs, total) == emitted_units(evs.drop_last(), total));
        }
    }
}

/// A scheduler never returns to the waiting state: no media event re-arms it,
/// so the release of the barrier cannot be observed a second time.
pub proof fn lemma_scheduler_never_rewaits(evs: Seq<SchedulerEvent>, ev: SchedulerEvent, total: nat)
    requires
        !(scheduler_run(evs, total) is Waiting),
    ensures
        !(scheduler_run(evs.push(ev), total) is Waiting),
{
    assert(evs.push(ev).drop_last() =~= evs);
}

} // verus!
