//! The Runge-Kutta step as a state machine.
//!
//! One step is four stage evaluations behind barriers, then a combine.  The
//! plan below holds the chain as of the step's beginning and the stage
//! outputs accepted so far, and hands out the per-site inputs of the next
//! snapshot and of the final combine.  Its contracts pin the step's data
//! flow: stages are accepted strictly in order and only whole (every site's
//! slope present, in site order); every trial chain is built from the base
//! chain — never from an earlier trial — paired with the just-completed
//! stage's slopes; and the combine at site `i` sees exactly the base moment
//! and the four stage slopes of site `i`.  The caller owns the arithmetic
//! performed on those inputs.

use vstd::prelude::*;

use crate::stage::spec_trial_scale;
use crate::stage::Stage;
use crate::stage::TrialScale;
use crate::vec3::Vec3;

verus! {

/// The stage evaluated when `n` stage outputs have been accepted already.
pub open spec fn stage_at(n: int) -> Stage {
    if n == 0 {
        Stage::First
    } else if n == 1 {
        Stage::Second
    } else if n == 2 {
        Stage::Third
    } else {
        Stage::Fourth
    }
}

/// The state of one step: the chain at the step's beginning, and the
/// full-chain stage outputs accepted so far, in stage order.
pub struct StepPlan {
    pub base: Vec<Vec3>,
    pub slopes: Vec<Vec<Vec3>>,
}

impl StepPlan {
    /// At most four stages, each output one slope per site of the base
    /// chain.
    pub open spec fn wf(self) -> bool {
        &&& self.slopes@.len() <= 4
        &&& forall|j: int|
            0 <= j < self.slopes@.len() ==> (#[trigger] self.slopes@[j])@.len()
                == self.base@.len()
    }

    /// Starts a step from the chain it will advance; no stage has run yet.
    pub fn new(base: Vec<Vec3>) -> (p: StepPlan)
        ensures
            p.wf(),
            p.base@ == base@,
            p.slopes@.len() == 0,
    {
        StepPlan { base, slopes: Vec::new() }
    }

    /// The stage to evaluate next, or `None` once all four have run: the
    /// stages go strictly in order, and none can be skipped or repeated.
    pub fn pending_stage(&self) -> (r: Option<Stage>)
        requires
            self.wf(),
        ensures
            r is Some <==> self.slopes@.len() < 4,
            self.slopes@.len() < 4 ==> r == Some(stage_at(self.slopes@.len() as int)),
    {
        match self.slopes.len() {
            0 => Some(Stage::First),
            1 => Some(Stage::Second),
            2 => Some(Stage::Third),
            3 => Some(Stage::Fourth),
            _ => None,
        }
    }

    /// Accepts the pending stage's output, one slope per site in site
    /// order.  This is the barrier: nothing of the next stage can be built
    /// until every site's slope of the current one is in.
    pub fn accept(&mut self, k: Vec<Vec3>)
        requires
            old(self).wf(),
            old(self).slopes@.len() < 4,
            k@.len() == old(self).base@.len(),
        ensures
            final(self).wf(),
            final(self).base@ == old(self).base@,
            final(self).slopes@ == old(self).slopes@.push(k),
    {
        self.slopes.push(k);
    }

    /// All four stages have run and the combine inputs are available.
    pub fn complete(&self) -> (r: bool)
        requires
            self.wf(),
        ensures
            r <==> self.slopes@.len() == 4,
    {
        self.slopes.len() == 4
    }

    /// The inputs of the snapshot handed to the next stage: entry `i` pairs
    /// the *base* chain's site `i` — a trial chain is never built from an
    /// earlier trial — with the just-accepted stage's slope at `i`, to be
    /// advanced by the returned multiple of dt.
    pub fn trial(&self) -> (r: (TrialScale, Vec<(Vec3, Vec3)>))
        requires
            self.wf(),
            1 <= self.slopes@.len() <= 3,
        ensures
            Some(r.0) == spec_trial_scale(stage_at(self.slopes@.len() - 1)),
            r.1@.len() == self.base@.len(),
            forall|i: int|
                0 <= i < self.base@.len() ==> #[trigger] r.1@[i] == (
                    self.base@[i],
                    self.slopes@.last()@[i],
                ),
    {
        let scale = if self.slopes.len() <= 2 {
            TrialScale::Half
        } else {
            TrialScale::Full
        };
        let last = &self.slopes[self.slopes.len() - 1];
        let n = self.base.len();
        let mut out: Vec<(Vec3, Vec3)> = Vec::new();
        let mut i: usize = 0;
        while i < n
            invariant
                i <= n,
                n == self.base@.len(),
                last@ == self.slopes@.last()@,
                last@.len() == n,
                out@.len() == i,
                forall|a: int|
                    0 <= a < i ==> #[trigger] out@[a] == (self.base@[a], self.slopes@.last()@[a]),
            decreases n - i,
        {
            out.push((self.base[i], last[i]));
            i = i + 1;
        }
        (scale, out)
    }

    /// The inputs of the final combine: entry `i` is the base moment of
    /// site `i` followed by that site's four stage slopes in stage order,
    /// to be combined with the stage weights over the divisor and then
    /// renormalized — the one renormalization of the step.
    pub fn combine_inputs(&self) -> (r: Vec<(Vec3, Vec3, Vec3, Vec3, Vec3)>)
        requires
            self.wf(),
            self.slopes@.len() == 4,
        ensures
            r@.len() == self.base@.len(),
            forall|i: int|
                0 <= i < self.base@.len() ==> #[trigger] r@[i] == (
                    self.base@[i],
                    self.slopes@[0]@[i],
                    self.slopes@[1]@[i],
                    self.slopes@[2]@[i],
                    self.slopes@[3]@[i],
                ),
    {
        let n = self.base.len();
        let mut out: Vec<(Vec3, Vec3, Vec3, Vec3, Vec3)> = Vec::new();
        let mut i: usize = 0;
        while i < n
            invariant
                i <= n,
                n == self.base@.len(),
                self.slopes@.len() == 4,
                forall|j: int|
                    0 <= j < 4 ==> (#[trigger] self.slopes@[j])@.len() == n,
                out@.len() == i,
                forall|a: int|
                    0 <= a < i ==> #[trigger] out@[a] == (
                        self.base@[a],
                        self.slopes@[0]@[a],
                        self.slopes@[1]@[a],
                        self.slopes@[2]@[a],
                        self.slopes@[3]@[a],
                    ),
            decreases n - i,
        {
            out.push(
                (
                    self.base[i],
                    self.slopes[0][i],
                    self.slopes[1][i],
                    self.slopes[2][i],
                    self.slopes[3][i],
                ),
            );
            i = i + 1;
        }
        out
    }
}

} // verus!
