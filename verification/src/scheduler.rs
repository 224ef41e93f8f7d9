//! The budgeted two-queue policy of the scheduler, as a state machine from
//! events to the next thing to wait for.

use crate::job::Job;
use vstd::prelude::*;

verus! {

/// The most high-priority jobs that are taken in a row before the normal queue
/// gets a turn.
pub const HIGH_BUDGET: u16 = 32;

/// What the scheduler's loop learned from its queues or its shutdown signal.
#[derive(Debug, Clone, Copy)]
pub enum Event {
    /// The shutdown signal was seen.
    Shutdown,
    /// A job came off the high queue.
    High,
    /// A job came off the normal queue.
    Norm,
    /// Nothing came: the polled queue was empty, or the awaited one is closed.
    Idle,
}

/// The queue that a job belongs to.
#[derive(Debug, Clone, Copy, PartialEq, Eq)]
pub enum Lane {
    High,
    Norm,
}

/// What the loop does next.
#[derive(Debug, Clone, Copy, PartialEq, Eq)]
pub enum Next {
    /// Leave the loop.
    Stop,
    /// Poll the high queue without waiting.
    TryHigh,
    /// Wait for shutdown or a high job, in that order of preference.
    AwaitHigh,
    /// Wait for shutdown, a normal job or a high job, in that order.
    AwaitNormThenHigh,
}

/// The state of the policy.
pub struct Budget {
    /// High jobs that may still be taken before the normal queue is served.
    pub remaining: u16,
    /// Whether the loop is polling the high queue rather than waiting.
    pub draining: bool,
    /// Whether shutdown was seen.
    pub stopped: bool,
}

/// The state after an event. A stopped scheduler stays as it is. A high job
/// costs one unit of budget while there is any; a normal job restores the
/// budget; after either the loop polls again. A poll that finds nothing ends
/// the polling.
pub open spec fn step(s: Budget, ev: Event) -> Budget {
    if s.stopped {
        s
    } else {
        match ev {
            Event::Shutdown => Budget { stopped: true, ..s },
            Event::High => Budget {
                remaining: if s.remaining > 0 {
                    (s.remaining - 1) as u16
                } else {
                    0
                },
                draining: true,
                ..s
            },
            Event::Norm => Budget { remaining: HIGH_BUDGET, draining: true, ..s },
            Event::Idle => Budget { draining: !(s.draining && s.remaining > 0), ..s },
        }
    }
}

/// The queue whose job is processed on an event, if any is.
pub open spec fn served(s: Budget, ev: Event) -> Option<Lane> {
    if s.stopped {
        None
    } else {
        match ev {
            Event::High => Some(Lane::High),
            Event::Norm => Some(Lane::Norm),
            _ => None,
        }
    }
}

/// What the loop does in a state.
pub open spec fn next_of(s: Budget) -> Next {
    if s.stopped {
        Next::Stop
    } else if s.remaining > 0 {
        if s.draining {
            Next::TryHigh
        } else {
            Next::AwaitHigh
        }
    } else {
        Next::AwaitNormThenHigh
    }
}

/// The state after a sequence of events.
pub open spec fn run(s: Budget, evs: Seq<Event>) -> Budget
    decreases evs.len(),
{
    if evs.len() == 0 {
        s
    } else {
        step(run(s, evs.drop_last()), evs.last())
    }
}

/// The high jobs processed since the last normal job, or since the start.
pub open spec fn highs_since_norm(s: Budget, evs: Seq<Event>) -> nat
    decreases evs.len(),
{
    if evs.len() == 0 {
        0
    } else {
        match served(run(s, evs.drop_last()), evs.last()) {
            Some(Lane::Norm) => 0,
            Some(Lane::High) => highs_since_norm(s, evs.drop_last()) + 1,
            None => highs_since_norm(s, evs.drop_last()),
        }
    }
}

/// The high jobs since the last normal job that were taken with the budget
/// used up: those that won the wait because no normal job was ready.
pub open spec fn unbudgeted_since_norm(s: Budget, evs: Seq<Event>) -> nat
    decreases evs.len(),
{
    if evs.len() == 0 {
        0
    } else {
        let before = run(s, evs.drop_last());
        match served(before, evs.last()) {
            Some(Lane::Norm) => 0,
            Some(Lane::High) => unbudgeted_since_norm(s, evs.drop_last()) + if before.remaining
                == 0 {
                1nat
            } else {
                0nat
            },
            None => unbudgeted_since_norm(s, evs.drop_last()),
        }
    }
}

/// Every high job since the last normal one was either paid for from the
/// budget or taken with the budget used up.
pub proof fn budget_accounts_for_highs(s: Budget, evs: Seq<Event>)
    requires
        s.remaining <= HIGH_BUDGET,
    ensures
        run(s, evs).remaining <= HIGH_BUDGET,
        highs_since_norm(s, evs) + run(s, evs).remaining <= HIGH_BUDGET + unbudgeted_since_norm(
            s,
            evs,
        ),
    decreases evs.len(),
{
    if evs.len() > 0 {
        budget_accounts_for_highs(s, evs.drop_last());
    }
}

/// No starvation: between two normal jobs at most `HIGH_BUDGET` high jobs are
/// processed from the budget. Where at most one more slips in while the budget
/// is used up, the count stays within `HIGH_BUDGET + 1`.
pub proof fn starvation_bound(s: Budget, evs: Seq<Event>)
    requires
        s.remaining <= HIGH_BUDGET,
        unbudgeted_since_norm(s, evs) <= 1,
    ensures
        highs_since_norm(s, evs) <= HIGH_BUDGET + 1,
{
    budget_accounts_for_highs(s, evs);
}

/// Whether, all along a sequence of events, no high job is taken with the
/// budget used up: the normal queue has a job ready whenever the loop waits on
/// both queues, and the wait prefers it.
pub open spec fn norm_ready_when_exhausted(s: Budget, evs: Seq<Event>) -> bool {
    forall|i: int|
        0 <= i < evs.len() && (#[trigger] run(s, evs.take(i))).remaining == 0 ==> !(evs[i] is High)
}

/// With a normal job always ready, at most `HIGH_BUDGET` high jobs are
/// processed between two normal ones.
pub proof fn starvation_bound_with_norm_ready(s: Budget, evs: Seq<Event>)
    requires
        s.remaining <= HIGH_BUDGET,
        norm_ready_when_exhausted(s, evs),
    ensures
        unbudgeted_since_norm(s, evs) == 0,
        highs_since_norm(s, evs) <= HIGH_BUDGET,
    decreases evs.len(),
{
    if evs.len() > 0 {
        let front = evs.drop_last();
        assert forall|i: int|
            0 <= i < front.len() && (#[trigger] run(s, front.take(i))).remaining == 0 implies !(
        front[i] is High) by {
            assert(front.take(i) =~= evs.take(i));
        }
        starvation_bound_with_norm_ready(s, front);
        assert(evs.take(evs.len() - 1) =~= front);
        assert(run(s, evs.take(evs.len() - 1)).remaining == 0 ==> !(evs[evs.len() - 1] is High));
    }
    budget_accounts_for_highs(s, evs);
}

/// A scheduler with a full budget that polls the high queue.
pub open spec fn fresh() -> Budget {
    Budget { remaining: HIGH_BUDGET, draining: true, stopped: false }
}

/// A burst of `k` high jobs.
pub open spec fn burst(k: nat) -> Seq<Event> {
    Seq::new(k, |i: int| Event::High)
}

/// A burst of high jobs on a fresh scheduler is processed job by job until the
/// budget is used up: after `HIGH_BUDGET` of them the loop turns to the normal
/// queue, however many high jobs still wait.
pub proof fn burst_yields_after_budget(k: nat)
    requires
        k <= HIGH_BUDGET,
    ensures
        run(fresh(), burst(k)) == (Budget { remaining: (HIGH_BUDGET - k) as u16, ..fresh() }),
        highs_since_norm(fresh(), burst(k)) == k,
        k < HIGH_BUDGET ==> next_of(run(fresh(), burst(k))) == Next::TryHigh,
        k == HIGH_BUDGET ==> next_of(run(fresh(), burst(k))) == Next::AwaitNormThenHigh,
    decreases k,
{
    if k > 0 {
        burst_yields_after_budget((k - 1) as nat);
        assert(burst(k).drop_last() =~= burst((k - 1) as nat));
    }
}

/// With the budget used up the loop waits for a normal job first, so a ready
/// normal job is the next one processed.
pub proof fn exhausted_budget_prefers_norm(s: Budget)
    requires
        !s.stopped,
        s.remaining == 0,
    ensures
        next_of(s) == Next::AwaitNormThenHigh,
        step(s, Event::Norm).remaining == HIGH_BUDGET,
        served(s, Event::Norm) == Some(Lane::Norm),
{
}

/// The scheduler's policy state.
#[derive(Debug)]
pub struct Scheduler {
    remaining_high: u16,
    draining: bool,
    stopped: bool,
}

impl View for Scheduler {
    type V = Budget;

    closed spec fn view(&self) -> Budget {
        Budget { remaining: self.remaining_high, draining: self.draining, stopped: self.stopped }
    }
}

impl Scheduler {
    #[verifier::type_invariant]
    spec fn within_budget(&self) -> bool {
        self.remaining_high <= HIGH_BUDGET
    }

    /// A scheduler with a full budget, about to poll the high queue.
    pub fn new() -> (s: Scheduler)
        ensures
            s@ == fresh(),
    {
        Scheduler { remaining_high: HIGH_BUDGET, draining: true, stopped: false }
    }

    /// The budget that is left, never more than `HIGH_BUDGET`.
    pub fn remaining_high(&self) -> (r: u16)
        ensures
            r == self@.remaining,
            r <= HIGH_BUDGET,
    {
        proof {
            use_type_invariant(self);
        }
        self.remaining_high
    }

    /// What the loop does next.
    pub fn next(&self) -> (r: Next)
        ensures
            r == next_of(self@),
    {
        if self.stopped {
            Next::Stop
        } else if self.remaining_high > 0 {
            if self.draining {
                Next::TryHigh
            } else {
                Next::AwaitHigh
            }
        } else {
            Next::AwaitNormThenHigh
        }
    }

    /// Takes an event in. The result names the queue whose job the caller now
    /// processes, if the event brought one and the scheduler still runs.
    pub fn on_event(&mut self, ev: Event) -> (r: Option<Lane>)
        ensures
            final(self)@ == step(old(self)@, ev),
            r == served(old(self)@, ev),
    {
        proof {
            use_type_invariant(&*self);
        }
        if self.stopped {
            return None;
        }
        match ev {
            Event::Shutdown => {
                self.stopped = true;
                None
            },
            Event::High => {
                if self.remaining_high > 0 {
                    self.remaining_high = self.remaining_high - 1;
                }
                self.draining = true;
                Some(Lane::High)
            },
            Event::Norm => {
                self.remaining_high = HIGH_BUDGET;
                self.draining = true;
                Some(Lane::Norm)
            },
            Event::Idle => {
                self.draining = !(self.draining && self.remaining_high > 0);
                None
            },
        }
    }
}

/// The queue of a job: pings are normal, everything else is high.
pub open spec fn lane_of(job: Job) -> Lane {
    match job {
        Job::Ping => Lane::Norm,
        _ => Lane::High,
    }
}

impl Job {
    /// The queue on which the job travels to the scheduler.
    pub fn lane(&self) -> (r: Lane)
        ensures
            r == lane_of(*self),
    {
        match self {
            Job::Ping => Lane::Norm,
            _ => Lane::High,
        }
    }
}

/// The gauge of CPU-bound jobs in flight, under a fixed number of permits.
#[derive(Debug)]
pub struct CpuGauge {
    permits: u64,
    in_flight: u64,
}

/// The mark of one CPU-bound job in flight.
#[derive(Debug)]
pub struct InFlightCpuGuard {}

impl CpuGauge {
    #[verifier::type_invariant]
    spec fn within_permits(&self) -> bool {
        self.in_flight <= self.permits
    }

    /// The number of permits.
    pub closed spec fn limit(&self) -> u64 {
        self.permits
    }

    /// The jobs in flight.
    pub closed spec fn running(&self) -> u64 {
        self.in_flight
    }

    /// A gauge with `permits` permits and nothing in flight.
    pub fn new(permits: u64) -> (g: CpuGauge)
        ensures
            g.limit() == permits,
            g.running() == 0,
    {
        CpuGauge { permits, in_flight: 0 }
    }

    /// The number of permits.
    pub fn permits(&self) -> (r: u64)
        ensures
            r == self.limit(),
    {
        self.permits
    }

    /// The jobs in flight, never more than the permits.
    pub fn in_flight(&self) -> (r: u64)
        ensures
            r == self.running(),
            r <= self.limit(),
    {
        proof {
            use_type_invariant(self);
        }
        self.in_flight
    }
}

impl InFlightCpuGuard {
    /// Counts one more job in flight while a permit is free, and says whether
    /// it did.
    pub fn new(gauge: &mut CpuGauge) -> (guard: Option<InFlightCpuGuard>)
        ensures
            final(gauge).limit() == old(gauge).limit(),
            guard is Some == (old(gauge).running() < old(gauge).limit()),
            final(gauge).running() == if guard is Some {
                (old(gauge).running() + 1) as u64
            } else {
                old(gauge).running()
            },
            final(gauge).running() <= final(gauge).limit(),
    {
        proof {
            use_type_invariant(&*gauge);
        }
        if gauge.in_flight < gauge.permits {
            gauge.in_flight = gauge.in_flight + 1;
            Some(InFlightCpuGuard {  })
        } else {
            None
        }
    }

    /// Ends the job: one less in flight.
    pub fn release(self, gauge: &mut CpuGauge)
        ensures
            final(gauge).limit() == old(gauge).limit(),
            final(gauge).running() == if old(gauge).running() > 0 {
                (old(gauge).running() - 1) as u64
            } else {
                0
            },
            final(gauge).running() <= final(gauge).limit(),
    {
        proof {
            use_type_invariant(&*gauge);
        }
        if gauge.in_flight > 0 {
            gauge.in_flight = gauge.in_flight - 1;
        }
    }
}

} // verus!
