//! The shutdown coordinator: two single-use triggers (the administrative
//! endpoint and the termination signal) race to start one graceful drain.
//!
//! The coordinator is a plain state machine. Callers that share it across
//! tasks hold it under a lock, so each `fire` sees the state that the previous
//! one left behind.

use crate::fanout::{duration_debug_of, duration_text};
use vstd::prelude::*;

verus! {

/// Where a shutdown request came from.
#[derive(PartialEq, Eq, Structural, Clone, Copy, Debug)]
pub enum TriggerSource {
    Administrative,
    Signal,
}

/// What a fired trigger achieved.
#[derive(PartialEq, Eq, Structural, Clone, Copy, Debug)]
pub enum FireOutcome {
    /// This call began the drain.
    Initiated,
    /// A drain had already begun: the call changed nothing.
    AlreadyInProgress,
}

/// The life of the service: `Idle` until a trigger fires, `Draining` from
/// then on, `Stopped` once every in-flight request has finished.
#[derive(PartialEq, Eq, Structural, Clone, Copy, Debug)]
pub enum Phase {
    Idle,
    Draining { started_at: u64 },
    Stopped { started_at: u64, stopped_at: u64 },
}

/// Times are nanoseconds on one monotonic clock, chosen by the caller.
pub struct ShutdownCoordinator {
    pub admin_armed: bool,
    pub signal_armed: bool,
    pub phase: Phase,
}

/// The moment the drain began, once it has.
pub open spec fn recorded_start(phase: Phase) -> Option<u64> {
    match phase {
        Phase::Idle => None,
        Phase::Draining { started_at } => Some(started_at),
        Phase::Stopped { started_at, .. } => Some(started_at),
    }
}

/// How long the drain took, in nanoseconds (zero if the clock ran backwards).
pub open spec fn drain_span(started_at: u64, stopped_at: u64) -> u64 {
    if stopped_at >= started_at {
        (stopped_at - started_at) as u64
    } else {
        0
    }
}

impl ShutdownCoordinator {
    /// Both triggers are unconsumed exactly while nothing has begun.
    pub open spec fn wf(&self) -> bool {
        (self.phase is Idle) <==> (self.admin_armed && self.signal_armed)
    }

    pub open spec fn is_initial(&self) -> bool {
        self.admin_armed && self.signal_armed && self.phase is Idle
    }

    /// The state after `source` fires at time `now`, and what the call achieved.
    pub open spec fn fire_spec(self, source: TriggerSource, now: u64) -> (ShutdownCoordinator, FireOutcome) {
        let admin_armed = self.admin_armed && source != TriggerSource::Administrative;
        let signal_armed = self.signal_armed && source != TriggerSource::Signal;
        if self.phase is Idle {
            (
                ShutdownCoordinator {
                    admin_armed,
                    signal_armed,
                    phase: Phase::Draining { started_at: now },
                },
                FireOutcome::Initiated,
            )
        } else {
            (ShutdownCoordinator { admin_armed, signal_armed, phase: self.phase }, FireOutcome::AlreadyInProgress)
        }
    }

    /// The state after the drain is reported complete at `now`, and the span
    /// reported: `None` (and no change) unless a drain is under way.
    pub open spec fn finish_spec(self, now: u64) -> (ShutdownCoordinator, Option<u64>) {
        match self.phase {
            Phase::Draining { started_at } => (
                ShutdownCoordinator {
                    admin_armed: self.admin_armed,
                    signal_armed: self.signal_armed,
                    phase: Phase::Stopped { started_at, stopped_at: now },
                },
                Some(drain_span(started_at, now)),
            ),
            _ => (self, None),
        }
    }

    /// Fires each `(source, time)` in turn; yields the final state and the
    /// outcome of every call, in order.
    pub open spec fn fire_all(self, fires: Seq<(TriggerSource, u64)>) -> (ShutdownCoordinator, Seq<FireOutcome>)
        decreases fires.len(),
    {
        if fires.len() == 0 {
            (self, Seq::empty())
        } else {
            let (mid, outcomes) = self.fire_all(fires.drop_last());
            let (last, outcome) = mid.fire_spec(fires.last().0, fires.last().1);
            (last, outcomes.push(outcome))
        }
    }

    /// A coordinator with both triggers armed and no drain begun.
    pub fn new() -> (r: ShutdownCoordinator)
        ensures
            r.wf(),
            r.is_initial(),
    {
        ShutdownCoordinator { admin_armed: true, signal_armed: true, phase: Phase::Idle }
    }

    /// Consumes the trigger of `source`. The first trigger to fire begins the
    /// drain and records `now` as its start; any later fire is a no-op.
    pub fn fire(&mut self, source: TriggerSource, now: u64) -> (r: FireOutcome)
        requires
            old(self).wf(),
        ensures
            final(self).wf(),
            (*final(self), r) == old(self).fire_spec(source, now),
    {
        match source {
            TriggerSource::Administrative => self.admin_armed = false,
            TriggerSource::Signal => self.signal_armed = false,
        }
        match self.phase {
            Phase::Idle => {
                self.phase = Phase::Draining { started_at: now };
                FireOutcome::Initiated
            },
            _ => FireOutcome::AlreadyInProgress,
        }
    }

    /// Marks the drain as complete at `now` and returns how long it took, or
    /// `None` (changing nothing) when no drain is under way.
    pub fn finish(&mut self, now: u64) -> (r: Option<u64>)
        requires
            old(self).wf(),
        ensures
            final(self).wf(),
            (*final(self), r) == old(self).finish_spec(now),
    {
        match self.phase {
            Phase::Draining { started_at } => {
                self.phase = Phase::Stopped { started_at, stopped_at: now };
                if now >= started_at {
                    Some(now - started_at)
                } else {
                    Some(0)
                }
            },
            _ => None,
        }
    }

    /// The moment the drain began, once it has.
    pub fn started_at(&self) -> (r: Option<u64>)
        ensures
            r == recorded_start(self.phase),
    {
        match self.phase {
            Phase::Idle => None,
            Phase::Draining { started_at } => Some(started_at),
            Phase::Stopped { started_at, .. } => Some(started_at),
        }
    }

    pub fn phase(&self) -> (r: Phase)
        ensures
            r == self.phase,
    {
        self.phase
    }
}

/// The line that reports a finished drain of `nanos` nanoseconds.
pub fn drain_report(nanos: u64) -> (r: String)
    ensures
        r@ == "Server gracefully shutdown, taking "@ + duration_debug_of(nanos as nat),
{
    let mut r = String::from_str("Server gracefully shutdown, taking ");
    r.append(duration_text(nanos).as_str());
    r
}

/// Once a drain has begun, firing either trigger again leaves its recorded
/// start alone and reports that a drain is already in progress.
pub proof fn lemma_fire_after_start_is_noop(s: ShutdownCoordinator, source: TriggerSource, now: u64)
    requires
        s.wf(),
        recorded_start(s.phase) is Some,
    ensures
        s.fire_spec(source, now).1 == FireOutcome::AlreadyInProgress,
        s.fire_spec(source, now).0.phase == s.phase,
{
}

/// However many fires arrive, from either source and in any order, on a fresh
/// coordinator: the first one initiates the drain and records its own time,
/// every later one reports "already in progress", and exactly one start time
/// is ever recorded.
pub proof fn lemma_first_fire_wins(s: ShutdownCoordinator, fires: Seq<(TriggerSource, u64)>)
    requires
        s.is_initial(),
        fires.len() > 0,
    ensures
        ({
            let (last, outcomes) = s.fire_all(fires);
            &&& last.wf()
            &&& outcomes.len() == fires.len()
            &&& outcomes[0] == FireOutcome::Initiated
            &&& forall|i: int| 1 <= i < outcomes.len() ==> outcomes[i] == FireOutcome::AlreadyInProgress
            &&& last.phase == (Phase::Draining { started_at: fires[0].1 })
        }),
    decreases fires.len(),
{
    if fires.len() > 1 {
        lemma_first_fire_wins(s, fires.drop_last());
        let (mid, outcomes) = s.fire_all(fires.drop_last());
        lemma_fire_after_start_is_noop(mid, fires.last().0, fires.last().1);
        assert(fires.drop_last()[0] == fires[0]);
        let (last, all) = s.fire_all(fires);
        assert(all == outcomes.push(FireOutcome::AlreadyInProgress));
        assert(last.phase == mid.phase);
        assert forall|i: int| 1 <= i < all.len() implies all[i] == FireOutcome::AlreadyInProgress by {
            if i < outcomes.len() {
                assert(all[i] == outcomes[i]);
            }
        }
    } else {
        assert(fires.drop_last().len() == 0);
        assert(s.fire_all(fires.drop_last()) == (s, Seq::<FireOutcome>::empty()));
        let (last, all) = s.fire_all(fires);
        assert(fires.last() == fires[0]);
        assert(all == Seq::<FireOutcome>::empty().push(FireOutcome::Initiated));
    }
}

/// After any fire on a fresh coordinator, from either source and in any
/// order, a start has been recorded (that of the first fire), so finishing
/// the drain at any later moment reports the span since that start.
pub proof fn lemma_drain_measurable(s: ShutdownCoordinator, fires: Seq<(TriggerSource, u64)>, now: u64)
    requires
        s.is_initial(),
        fires.len() > 0,
    ensures
        recorded_start(s.fire_all(fires).0.phase) == Some(fires[0].1),
        s.fire_all(fires).0.finish_spec(now).1 == Some(drain_span(fires[0].1, now)),
        s.fire_all(fires).0.finish_spec(now).0.phase == (Phase::Stopped { started_at: fires[0].1, stopped_at: now }),
{
    lemma_first_fire_wins(s, fires);
}

/// Without any fire the coordinator stays idle and records no start.
pub proof fn lemma_no_fire_no_start(s: ShutdownCoordinator)
    requires
        s.is_initial(),
    ensures
        s.fire_all(Seq::empty()).0.phase == Phase::Idle,
        s.fire_all(Seq::empty()).1.len() == 0,
{
}

} // verus!
