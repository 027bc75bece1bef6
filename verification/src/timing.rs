//! The clock gate that paces outbound sends to a fixed tick rate.

use vstd::prelude::*;

verus! {

/// Time accumulated against a fixed send interval, in microseconds.
///
/// The host advances the clock once per cycle, before the send stage. A cycle
/// qualifies for sending when the time accumulated since the last qualifying
/// cycle has reached the interval.
#[derive(Clone, Copy, Debug, PartialEq, Eq)]
pub struct NetworkSimulationTime {
    interval: u64,
    accumulated: u64,
    send_now: bool,
}

impl NetworkSimulationTime {
    /// The fixed time between two sends.
    pub closed spec fn spec_interval(&self) -> u64 {
        self.interval
    }

    /// The time accumulated since the last cycle that qualified.
    pub closed spec fn spec_accumulated(&self) -> u64 {
        self.accumulated
    }

    /// Whether the current cycle qualifies for sending.
    pub closed spec fn spec_should_send(&self) -> bool {
        self.send_now
    }

    /// The accumulated time is short of the interval; with an interval of
    /// zero nothing accumulates.
    #[verifier::type_invariant]
    spec fn well_formed(&self) -> bool {
        if self.interval == 0 {
            self.accumulated == 0
        } else {
            self.accumulated < self.interval
        }
    }

    /// Whether advancing by `elapsed` reaches the interval.
    pub open spec fn reaches_interval(&self, elapsed: u64) -> bool {
        self.spec_accumulated() + elapsed >= self.spec_interval()
    }

    /// A clock with the given interval on which no time has passed and no
    /// cycle has qualified.
    pub fn new(interval: u64) -> (time: NetworkSimulationTime)
        ensures
            time.spec_interval() == interval,
            time.spec_accumulated() == 0,
            time.spec_should_send() == (interval == 0),
    {
        NetworkSimulationTime { interval, accumulated: 0, send_now: interval == 0 }
    }

    /// The fixed time between two sends.
    pub fn interval(&self) -> (interval: u64)
        ensures
            interval == self.spec_interval(),
    {
        self.interval
    }

    /// The time accumulated since the last cycle that qualified.
    pub fn accumulated(&self) -> (accumulated: u64)
        ensures
            accumulated == self.spec_accumulated(),
    {
        self.accumulated
    }

    /// Starts a cycle on which `elapsed` has passed since the previous one.
    /// The cycle qualifies when the accumulated time reaches the interval,
    /// and accumulation then starts over.
    pub fn advance(&mut self, elapsed: u64)
        ensures
            final(self).spec_interval() == old(self).spec_interval(),
            final(self).spec_should_send() == old(self).reaches_interval(elapsed),
            final(self).spec_accumulated() == if old(self).reaches_interval(elapsed) {
                0
            } else {
                old(self).spec_accumulated() + elapsed
            },
    {
        proof {
            use_type_invariant(&*self);
        }
        if self.interval == 0 || elapsed >= self.interval - self.accumulated {
            self.accumulated = 0;
            self.send_now = true;
        } else {
            self.accumulated = self.accumulated + elapsed;
            self.send_now = false;
        }
    }

    /// Whether queued messages are to be sent in the current cycle.
    pub fn should_send_message_now(&self) -> (send: bool)
        ensures
            send == self.spec_should_send(),
    {
        self.send_now
    }
}

impl Default for NetworkSimulationTime {
    /// A clock without an interval: every cycle qualifies.
    fn default() -> (time: NetworkSimulationTime)
        ensures
            time.spec_interval() == 0,
            time.spec_accumulated() == 0,
            time.spec_should_send(),
    {
        NetworkSimulationTime { interval: 0, accumulated: 0, send_now: true }
    }
}

/// The time accumulated after the cycles `steps`, each given by the time that
/// passed before it and advanced as `advance` does, and how many of them
/// qualified.
pub open spec fn run_cycles(accumulated: u64, interval: u64, steps: Seq<u64>) -> (int, int)
    decreases steps.len(),
{
    if steps.len() == 0 {
        (accumulated as int, 0)
    } else {
        let (before, sends) = run_cycles(accumulated, interval, steps.drop_last());
        if before + steps.last() >= interval {
            (0, sends + 1)
        } else {
            (before + steps.last(), sends)
        }
    }
}

/// The time that passes over `steps`.
pub open spec fn total_elapsed(steps: Seq<u64>) -> int
    decreases steps.len(),
{
    if steps.len() == 0 {
        0
    } else {
        total_elapsed(steps.drop_last()) + steps.last()
    }
}

/// Sends are paced: over any run of cycles, every cycle that qualifies has
/// used up a whole interval of the time that passed, so the cycles that
/// qualify are at most as many as the intervals that fit into the time
/// accumulated before the run and the time that passed over it.
pub proof fn lemma_sends_are_paced(accumulated: u64, interval: u64, steps: Seq<u64>)
    ensures
        run_cycles(accumulated, interval, steps).0 >= 0,
        run_cycles(accumulated, interval, steps).1 >= 0,
        run_cycles(accumulated, interval, steps).1 * interval + run_cycles(
            accumulated,
            interval,
            steps,
        ).0 <= accumulated + total_elapsed(steps),
    decreases steps.len(),
{
    if steps.len() > 0 {
        lemma_sends_are_paced(accumulated, interval, steps.drop_last());
        let (before, sends) = run_cycles(accumulated, interval, steps.drop_last());
        assert((sends + 1) * interval == sends * interval + interval) by (nonlinear_arith);
    }
}

/// One cycle of the model is one `advance`: it qualifies exactly when the
/// clock's accumulated time and the time that passed reach the interval, and
/// accumulation starts over when it does.
pub proof fn lemma_advance_is_one_cycle(time: NetworkSimulationTime, elapsed: u64)
    ensures
        run_cycles(time.spec_accumulated(), time.spec_interval(), seq![elapsed]) == if time.reaches_interval(
            elapsed,
        ) {
            (0int, 1int)
        } else {
            (time.spec_accumulated() + elapsed, 0int)
        },
{
    assert(seq![elapsed].drop_last() =~= Seq::<u64>::empty());
    assert(run_cycles(time.spec_accumulated(), time.spec_interval(), seq![elapsed].drop_last()) == (
        time.spec_accumulated() as int,
        0int,
    ));
}

/// A cycle that comes sooner than one interval after a qualifying cycle does
/// not qualify.
pub proof fn lemma_no_send_within_interval(time: NetworkSimulationTime, elapsed: u64)
    requires
        time.spec_accumulated() == 0,
        elapsed < time.spec_interval(),
    ensures
        !time.reaches_interval(elapsed),
{
}

} // verus!
