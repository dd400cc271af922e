//! Control of a scaling loop: how many updates run, when the convergence
//! test is due, and why the loop stopped.
//!
//! The solver performs each update and reports, through `record`, whether
//! the new iterate is unusable (a zero denominator, NaN or an infinity) and,
//! when a test was due, whether the residual fell below the threshold. The
//! control alone decides whether another update follows.

use vstd::prelude::*;

verus! {

/// How many updates of a Sinkhorn loop lie between two residual tests:
/// the residual costs a pass over the whole iterate, an update little more.
pub const SINKHORN_CHECK_PERIOD: i32 = 10;

/// Why a scaling loop ended.
#[derive(Clone, Copy, Debug, PartialEq, Eq, Structural)]
pub enum Stop {
    /// The residual fell below the threshold.
    Converged,
    /// The last update was unusable; the solver keeps the iterate before it.
    Diverged,
    /// The iteration cap was reached.
    Exhausted,
}

/// The state of a scaling loop.
#[derive(Clone, Copy, Debug)]
pub struct IterationControl {
    /// The iteration cap.
    pub iterations: i32,
    /// How many updates lie between two convergence tests.
    pub check_every: i32,
    /// How many updates were recorded.
    pub count: i32,
    /// Why the loop ended, once it has.
    pub stop: Option<Stop>,
}

impl IterationControl {
    pub open spec fn wf(&self) -> bool {
        &&& self.iterations > 0
        &&& self.check_every > 0
        &&& 0 <= self.count <= self.iterations
        &&& self.stop is None ==> self.count < self.iterations
        &&& self.stop == Some(Stop::Exhausted) ==> self.count == self.iterations
    }

    /// Another update is to be made.
    pub open spec fn spec_running(&self) -> bool {
        self.stop is None && self.count < self.iterations
    }

    /// The update about to be made is followed by a convergence test.
    pub open spec fn spec_residual_due(&self) -> bool {
        self.count % self.check_every == 0
    }

    /// The state after recording one update.
    pub open spec fn spec_record(self, diverged: bool, residual_below: bool) -> IterationControl {
        let stop = if diverged {
            Some(Stop::Diverged)
        } else if self.spec_residual_due() && residual_below {
            Some(Stop::Converged)
        } else if self.count + 1 >= self.iterations {
            Some(Stop::Exhausted)
        } else {
            None
        };
        IterationControl { count: (self.count + 1) as i32, stop, ..self }
    }

    /// A loop capped at `iterations` updates that tests for convergence
    /// after every `check_every`-th one, starting with the first.
    pub fn new(iterations: i32, check_every: i32) -> (r: IterationControl)
        requires
            iterations > 0,
            check_every > 0,
        ensures
            r.wf(),
            r == (IterationControl { iterations, check_every, count: 0, stop: None }),
    {
        IterationControl { iterations, check_every, count: 0, stop: None }
    }

    pub fn running(&self) -> (r: bool)
        requires
            self.wf(),
        ensures
            r == self.spec_running(),
            r <==> self.stop is None,
    {
        self.stop.is_none() && self.count < self.iterations
    }

    pub fn residual_due(&self) -> (r: bool)
        requires
            self.wf(),
        ensures
            r == self.spec_residual_due(),
    {
        self.count % self.check_every == 0
    }

    /// Records one update. `residual_below` is read only when a test was due.
    pub fn record(&mut self, diverged: bool, residual_below: bool)
        requires
            old(self).wf(),
            old(self).spec_running(),
        ensures
            final(self).wf(),
            *final(self) == old(self).spec_record(diverged, residual_below),
            final(self).count == old(self).count + 1,
    {
        let due = self.residual_due();
        let stop = if diverged {
            Some(Stop::Diverged)
        } else if due && residual_below {
            Some(Stop::Converged)
        } else if self.count + 1 >= self.iterations {
            Some(Stop::Exhausted)
        } else {
            None
        };
        self.count = self.count + 1;
        self.stop = stop;
    }

    /// Why the loop ended.
    pub fn stop_reason(&self) -> (r: Option<Stop>)
        ensures
            r == self.stop,
    {
        self.stop
    }
}

/// The state after recording a sequence of updates, each a pair
/// `(diverged, residual_below)`, while the loop runs; later ones are ignored.
pub open spec fn spec_run(c: IterationControl, events: Seq<(bool, bool)>) -> IterationControl
    decreases events.len(),
{
    if events.len() == 0 || !c.spec_running() {
        c
    } else {
        spec_run(c.spec_record(events[0].0, events[0].1), events.drop_first())
    }
}

/// However the updates turn out, a loop ends after at most its iteration
/// cap, and it stops early only on a divergence or a passed convergence test.
pub proof fn lemma_run_bounded(c: IterationControl, events: Seq<(bool, bool)>)
    requires
        c.wf(),
    ensures
        spec_run(c, events).wf(),
        spec_run(c, events).count <= c.iterations,
        spec_run(c, events).count >= c.count,
        events.len() >= c.iterations - c.count && c.stop is None ==> spec_run(c, events).stop
            is Some,
        spec_run(c, events).stop == Some(Stop::Exhausted) ==> spec_run(c, events).count
            == c.iterations,
    decreases events.len(),
{
    if events.len() == 0 || !c.spec_running() {
    } else {
        let n = c.spec_record(events[0].0, events[0].1);
        lemma_run_bounded(n, events.drop_first());
    }
}

} // verus!
