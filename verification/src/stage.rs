//! The Runge-Kutta stage schedule.
//!
//! One integration step evaluates the right-hand side four times, each time
//! on a full-chain snapshot: the current chain for the first stage, then a
//! trial chain built per site as `m[i] + s·dt·k[i]` from the stage just
//! completed, with `s = 1/2` after the first and second stages and `s = 1`
//! after the third.  After the fourth stage the four slopes are combined per
//! site with weights 1, 2, 2, 1 over a divisor of 6, and each resulting
//! moment is renormalized — once, at the combine, never between stages.
//! The schedule below fixes that sequencing and those weights exactly; the
//! caller supplies the arithmetic.

use vstd::prelude::*;

verus! {

/// One of the four slope evaluations of a classical fourth-order
/// Runge-Kutta step, in order.
#[derive(Clone, Copy, PartialEq, Eq, Structural, Debug)]
pub enum Stage {
    First,
    Second,
    Third,
    Fourth,
}

/// The multiple of `dt` that scales a stage's slopes when the trial chain
/// for the next stage is built.
#[derive(Clone, Copy, PartialEq, Eq, Structural, Debug)]
pub enum TrialScale {
    Half,
    Full,
}

/// The stage that follows `s`, or `None` after the fourth.
pub open spec fn spec_next_stage(s: Stage) -> Option<Stage> {
    match s {
        Stage::First => Some(Stage::Second),
        Stage::Second => Some(Stage::Third),
        Stage::Third => Some(Stage::Fourth),
        Stage::Fourth => None,
    }
}

/// The trial scale applied to the slopes of `s`, or `None` after the fourth
/// stage.
pub open spec fn spec_trial_scale(s: Stage) -> Option<TrialScale> {
    match s {
        Stage::First => Some(TrialScale::Half),
        Stage::Second => Some(TrialScale::Half),
        Stage::Third => Some(TrialScale::Full),
        Stage::Fourth => None,
    }
}

/// The weight of stage `s` in the final combination.
pub open spec fn spec_combine_weight(s: Stage) -> int {
    match s {
        Stage::First => 1,
        Stage::Second => 2,
        Stage::Third => 2,
        Stage::Fourth => 1,
    }
}

/// The stage evaluated after `s`: a step runs the four stages strictly in
/// order, each behind a barrier on the previous one, and ends after the
/// fourth.
pub fn next_stage(s: Stage) -> (r: Option<Stage>)
    ensures
        r == spec_next_stage(s),
{
    match s {
        Stage::First => Some(Stage::Second),
        Stage::Second => Some(Stage::Third),
        Stage::Third => Some(Stage::Fourth),
        Stage::Fourth => None,
    }
}

/// How the slopes of stage `s` scale the trial chain handed to the next
/// stage: half a step after the first and second stages, a full step after
/// the third, and nothing after the fourth, whose slopes go straight into
/// the combine.
pub fn trial_scale(s: Stage) -> (r: Option<TrialScale>)
    ensures
        r == spec_trial_scale(s),
{
    match s {
        Stage::First => Some(TrialScale::Half),
        Stage::Second => Some(TrialScale::Half),
        Stage::Third => Some(TrialScale::Full),
        Stage::Fourth => None,
    }
}

/// The weight of stage `s` in the final combination
/// `m[i] + (dt / divisor) · Σ weight(s) · k_s[i]`.
pub fn combine_weight(s: Stage) -> (r: u64)
    ensures
        r == spec_combine_weight(s),
{
    match s {
        Stage::First => 1,
        Stage::Second => 2,
        Stage::Third => 2,
        Stage::Fourth => 1,
    }
}

/// The divisor of the final combination.
pub fn combine_divisor() -> (r: u64)
    ensures
        r == 6,
{
    6
}

/// The four combine weights sum to the divisor: the combined slope is a
/// weighted average of the four stage slopes, as the classical scheme
/// demands.
pub proof fn lemma_weights_sum_to_divisor()
    ensures
        spec_combine_weight(Stage::First) + spec_combine_weight(Stage::Second)
            + spec_combine_weight(Stage::Third) + spec_combine_weight(Stage::Fourth) == 6,
{
}

} // verus!
