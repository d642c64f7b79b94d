//! Fixed-step physics budget per rendered frame.
//!
//! The caller keeps the accumulated simulation time and tells the budget
//! whether a whole time step is due; the budget caps the steps of one frame
//! and reports overload when the frame ends its budget still behind.

use vstd::prelude::*;

verus! {

/// Steps one frame may run by default.
pub const DEFAULT_MAX_STEPS_PER_FRAME: u32 = 8;

/// The step budget of the current frame.
#[derive(Debug, Clone, Copy, PartialEq, Eq, Structural)]
pub struct StepBudget {
    pub max_steps_per_frame: u32,
    pub steps_this_frame: u32,
    /// The frame ran out of steps with time still due.
    pub overloaded: bool,
}

/// Whether a step runs: time for one is due and the frame has steps left.
pub open spec fn step_granted(b: StepBudget, time_due: bool) -> bool {
    time_due && b.steps_this_frame < b.max_steps_per_frame
}

/// The budget after a step, given whether another step is still due.
pub open spec fn after_step(b: StepBudget, still_due: bool) -> StepBudget {
    let steps = (b.steps_this_frame + 1) as u32;
    StepBudget {
        steps_this_frame: steps,
        overloaded: if still_due && steps >= b.max_steps_per_frame {
            true
        } else {
            b.overloaded
        },
        ..b
    }
}

impl StepBudget {
    /// A fresh budget of eight steps per frame.
    pub fn new() -> (b: Self)
        ensures
            b == (StepBudget { max_steps_per_frame: DEFAULT_MAX_STEPS_PER_FRAME, steps_this_frame: 0, overloaded: false }),
    {
        StepBudget { max_steps_per_frame: DEFAULT_MAX_STEPS_PER_FRAME, steps_this_frame: 0, overloaded: false }
    }

    /// Starts a frame: no steps taken, not overloaded.
    pub fn begin_frame(&mut self)
        ensures
            *final(self) == (StepBudget { steps_this_frame: 0, overloaded: false, ..*old(self) }),
    {
        self.steps_this_frame = 0;
        self.overloaded = false;
    }

    /// Whether to run a step now (`time_due`: a whole step of simulation time
    /// is accumulated).
    pub fn should_step(&self, time_due: bool) -> (b: bool)
        ensures
            b == step_granted(*self, time_due),
    {
        time_due && self.steps_this_frame < self.max_steps_per_frame
    }

    /// Records a step. When another step is still due but the frame has used
    /// its budget, the frame is overloaded and the result is the number of
    /// steps' worth of time to keep in the accumulator (one less than the
    /// budget); otherwise `None`.
    pub fn consume_step(&mut self, still_due: bool) -> (keep: Option<u32>)
        requires
            old(self).steps_this_frame < u32::MAX,
            still_due && old(self).steps_this_frame + 1 >= old(self).max_steps_per_frame ==> old(
                self,
            ).max_steps_per_frame >= 1,
        ensures
            *final(self) == after_step(*old(self), still_due),
            keep == (if still_due && old(self).steps_this_frame + 1 >= old(self).max_steps_per_frame {
                Some((old(self).max_steps_per_frame - 1) as u32)
            } else {
                None
            }),
    {
        self.steps_this_frame = self.steps_this_frame + 1;
        if still_due && self.steps_this_frame >= self.max_steps_per_frame {
            self.overloaded = true;
            Some(self.max_steps_per_frame - 1)
        } else {
            None
        }
    }
}

impl Default for StepBudget {
    fn default() -> (b: Self)
        ensures
            b == (StepBudget { max_steps_per_frame: DEFAULT_MAX_STEPS_PER_FRAME, steps_this_frame: 0, overloaded: false }),
    {
        StepBudget::new()
    }
}

/// The steps granted within one frame, starting from a fresh frame, when the
/// caller reports `due[k]` before step `k` and `due[k + 1int]` after it: the frame
/// stops at the first step not granted.
pub open spec fn frame_steps(b: StepBudget, due: Seq<bool>, k: nat) -> nat
    decreases b.max_steps_per_frame - b.steps_this_frame,
{
    if k < due.len() && step_granted(b, due[k as int]) {
        1 + frame_steps(after_step(b, if k + 1 < due.len() { due[k + 1int] } else { false }), due, k + 1)
    } else {
        0
    }
}

/// However much time is due, one frame never runs more steps than its budget
/// has left: the budget caps the physics per rendered frame.
pub proof fn lemma_frame_never_exceeds_budget(b: StepBudget, due: Seq<bool>, k: nat)
    requires
        b.steps_this_frame <= b.max_steps_per_frame,
    ensures
        frame_steps(b, due, k) <= b.max_steps_per_frame - b.steps_this_frame,
    decreases b.max_steps_per_frame - b.steps_this_frame,
{
    if k < due.len() && step_granted(b, due[k as int]) {
        let next = after_step(b, if k + 1 < due.len() { due[k + 1int] } else { false });
        lemma_frame_never_exceeds_budget(next, due, k + 1);
    }
}

/// A frame that ends its budget with time still due is overloaded, and one
/// that never runs out of budget is not.
pub proof fn lemma_overload_exactly_when_budget_spent(b: StepBudget, still_due: bool)
    requires
        b.steps_this_frame < b.max_steps_per_frame,
        !b.overloaded,
    ensures
        after_step(b, still_due).overloaded <==> (still_due && b.steps_this_frame + 1 == b.max_steps_per_frame),
{
}

} // verus!
