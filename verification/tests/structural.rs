//! Tests of the discrete structure: stencil selection, stage schedule,
//! series layout, shape validation, and the driver's schedule.

use llg_chain::driver::SimulationDriver;
use llg_chain::driver::SimulationParameters;
use llg_chain::layout::chunk_shape;
use llg_chain::layout::check_series_shape;
use llg_chain::layout::flat_len;
use llg_chain::layout::flatten;
use llg_chain::layout::series_shape;
use llg_chain::layout::slice_ranges;
use llg_chain::layout::ShapeError;
use llg_chain::rk4::StepPlan;
use llg_chain::stage::combine_divisor;
use llg_chain::stage::combine_weight;
use llg_chain::stage::next_stage;
use llg_chain::stage::trial_scale;
use llg_chain::stage::Stage;
use llg_chain::stage::TrialScale;
use llg_chain::stencil::chain_stencils;
use llg_chain::stencil::exchange_stencil;
use llg_chain::vec3::uniform_chain;
use llg_chain::vec3::Vec3;

fn v(x: u64, y: u64, z: u64) -> Vec3 {
    Vec3 { x, y, z }
}

fn params(n_sites: usize, n_steps: u64, report_every: u64) -> SimulationParameters {
    SimulationParameters {
        gamma: 0,
        alpha: 0,
        a_ex: 0,
        mu0_ms: 0,
        spacing: 0,
        h_ext: v(0, 0, 0),
        dt: 0,
        n_sites,
        n_steps,
        report_every,
    }
}

#[test]
fn stencil_interior_site() {
    let chain = vec![v(1, 1, 1), v(2, 2, 2), v(3, 3, 3)];
    let t = exchange_stencil(&chain, 1);
    assert_eq!(t, (v(1, 1, 1), v(2, 2, 2), v(3, 3, 3)));
}

#[test]
fn stencil_free_boundaries() {
    let chain = vec![v(1, 1, 1), v(2, 2, 2), v(3, 3, 3)];
    let left_end = exchange_stencil(&chain, 0);
    assert_eq!(left_end, (v(1, 1, 1), v(1, 1, 1), v(2, 2, 2)));
    let right_end = exchange_stencil(&chain, 2);
    assert_eq!(right_end, (v(2, 2, 2), v(3, 3, 3), v(3, 3, 3)));
}

#[test]
fn stencil_single_site_chain() {
    let chain = vec![v(7, 8, 9)];
    let t = exchange_stencil(&chain, 0);
    assert_eq!(t, (v(7, 8, 9), v(7, 8, 9), v(7, 8, 9)));
}

#[test]
fn stencils_of_whole_chain_in_site_order() {
    let chain = vec![v(1, 0, 0), v(2, 0, 0), v(3, 0, 0), v(4, 0, 0)];
    let all = chain_stencils(&chain);
    assert_eq!(all.len(), 4);
    assert_eq!(all[0], (v(1, 0, 0), v(1, 0, 0), v(2, 0, 0)));
    assert_eq!(all[1], (v(1, 0, 0), v(2, 0, 0), v(3, 0, 0)));
    assert_eq!(all[2], (v(2, 0, 0), v(3, 0, 0), v(4, 0, 0)));
    assert_eq!(all[3], (v(3, 0, 0), v(4, 0, 0), v(4, 0, 0)));
}

#[test]
fn uniform_chain_repeats_the_moment() {
    let m = v(10, 20, 30);
    let chain = uniform_chain(m, 5);
    assert_eq!(chain.len(), 5);
    for site in &chain {
        assert_eq!(*site, m);
    }
}

#[test]
fn stages_run_in_order() {
    assert_eq!(next_stage(Stage::First), Some(Stage::Second));
    assert_eq!(next_stage(Stage::Second), Some(Stage::Third));
    assert_eq!(next_stage(Stage::Third), Some(Stage::Fourth));
    assert_eq!(next_stage(Stage::Fourth), None);
}

#[test]
fn trial_scales_match_the_classical_scheme() {
    assert_eq!(trial_scale(Stage::First), Some(TrialScale::Half));
    assert_eq!(trial_scale(Stage::Second), Some(TrialScale::Half));
    assert_eq!(trial_scale(Stage::Third), Some(TrialScale::Full));
    assert_eq!(trial_scale(Stage::Fourth), None);
}

#[test]
fn combine_weights_are_one_two_two_one_over_six() {
    assert_eq!(combine_weight(Stage::First), 1);
    assert_eq!(combine_weight(Stage::Second), 2);
    assert_eq!(combine_weight(Stage::Third), 2);
    assert_eq!(combine_weight(Stage::Fourth), 1);
    assert_eq!(combine_divisor(), 6);
}

#[test]
fn step_plan_runs_the_stages_in_order() {
    let base = vec![v(1, 0, 0), v(2, 0, 0)];
    let mut plan = StepPlan::new(base);
    assert_eq!(plan.pending_stage(), Some(Stage::First));
    plan.accept(vec![v(10, 0, 0), v(11, 0, 0)]);
    assert_eq!(plan.pending_stage(), Some(Stage::Second));
    plan.accept(vec![v(20, 0, 0), v(21, 0, 0)]);
    assert_eq!(plan.pending_stage(), Some(Stage::Third));
    plan.accept(vec![v(30, 0, 0), v(31, 0, 0)]);
    assert_eq!(plan.pending_stage(), Some(Stage::Fourth));
    assert!(!plan.complete());
    plan.accept(vec![v(40, 0, 0), v(41, 0, 0)]);
    assert_eq!(plan.pending_stage(), None);
    assert!(plan.complete());
}

#[test]
fn step_plan_trials_pair_base_with_latest_slopes() {
    let base = vec![v(1, 0, 0), v(2, 0, 0)];
    let mut plan = StepPlan::new(base);
    plan.accept(vec![v(10, 0, 0), v(11, 0, 0)]);
    let (scale, pairs) = plan.trial();
    assert_eq!(scale, TrialScale::Half);
    assert_eq!(pairs, vec![(v(1, 0, 0), v(10, 0, 0)), (v(2, 0, 0), v(11, 0, 0))]);
    plan.accept(vec![v(20, 0, 0), v(21, 0, 0)]);
    let (scale, pairs) = plan.trial();
    assert_eq!(scale, TrialScale::Half);
    assert_eq!(pairs, vec![(v(1, 0, 0), v(20, 0, 0)), (v(2, 0, 0), v(21, 0, 0))]);
    plan.accept(vec![v(30, 0, 0), v(31, 0, 0)]);
    let (scale, pairs) = plan.trial();
    assert_eq!(scale, TrialScale::Full);
    assert_eq!(pairs, vec![(v(1, 0, 0), v(30, 0, 0)), (v(2, 0, 0), v(31, 0, 0))]);
}

#[test]
fn step_plan_combine_sees_base_and_all_four_slopes() {
    let base = vec![v(1, 0, 0), v(2, 0, 0)];
    let mut plan = StepPlan::new(base);
    plan.accept(vec![v(10, 0, 0), v(11, 0, 0)]);
    plan.accept(vec![v(20, 0, 0), v(21, 0, 0)]);
    plan.accept(vec![v(30, 0, 0), v(31, 0, 0)]);
    plan.accept(vec![v(40, 0, 0), v(41, 0, 0)]);
    let inputs = plan.combine_inputs();
    assert_eq!(
        inputs,
        vec![
            (v(1, 0, 0), v(10, 0, 0), v(20, 0, 0), v(30, 0, 0), v(40, 0, 0)),
            (v(2, 0, 0), v(11, 0, 0), v(21, 0, 0), v(31, 0, 0), v(41, 0, 0)),
        ]
    );
}

#[test]
fn series_and_chunk_shapes() {
    assert_eq!(series_shape(50, 128), vec![51, 1, 1, 128, 3]);
    assert_eq!(chunk_shape(128), vec![1, 1, 1, 128, 3]);
}

#[test]
fn slice_ranges_cover_one_time_index() {
    let r = slice_ranges(7, 128);
    assert_eq!(r, vec![(7, 8), (0, 1), (0, 1), (0, 128), (0, 3)]);
}

#[test]
fn shape_check_accepts_the_exact_shape() {
    let shape = vec![51u64, 1, 1, 128, 3];
    assert_eq!(check_series_shape(&shape, 50, 128), Ok(()));
}

#[test]
fn shape_check_reports_a_rank_mismatch() {
    let shape = vec![51u64, 128, 3];
    assert_eq!(
        check_series_shape(&shape, 50, 128),
        Err(ShapeError::Rank { expected: 5, actual: 3 })
    );
}

#[test]
fn shape_check_reports_the_mismatched_extent() {
    let shape = vec![51u64, 1, 1, 64, 3];
    assert_eq!(
        check_series_shape(&shape, 50, 128),
        Err(ShapeError::Extent { axis: 3, expected: 128, actual: 64 })
    );
    let shape2 = vec![50u64, 1, 1, 128, 3];
    assert_eq!(
        check_series_shape(&shape2, 50, 128),
        Err(ShapeError::Extent { axis: 0, expected: 51, actual: 50 })
    );
}

#[test]
fn flatten_interleaves_components_site_major() {
    let chain = vec![v(1, 2, 3), v(4, 5, 6)];
    assert_eq!(flat_len(2), 6);
    assert_eq!(flatten(&chain), vec![1, 2, 3, 4, 5, 6]);
}

#[test]
fn driver_writes_increasing_time_indices_and_terminates() {
    let p = params(2, 3, 1);
    let chain = uniform_chain(v(1, 2, 3), 2);
    let mut d = SimulationDriver::new(p, chain);
    let mut seen: Vec<u64> = Vec::new();
    while !d.finished() {
        seen.push(d.time_index());
        let next = uniform_chain(v(9, 9, 9), 2);
        d.advance(next);
    }
    assert_eq!(seen, vec![0, 1, 2, 3]);
    assert_eq!(d.chain, uniform_chain(v(9, 9, 9), 2));
}

#[test]
fn driver_reports_on_the_cadence() {
    let p = params(1, 100, 50);
    let chain = uniform_chain(v(0, 0, 1), 1);
    let mut d = SimulationDriver::new(p, chain);
    let mut reported: Vec<u64> = Vec::new();
    while !d.finished() {
        if d.should_report() {
            reported.push(d.time_index());
        }
        let next = uniform_chain(v(0, 0, 1), 1);
        d.advance(next);
    }
    assert_eq!(reported, vec![0, 50, 100]);
}

#[test]
fn driver_slice_is_the_flattened_chain() {
    let p = params(2, 1, 1);
    let chain = vec![v(1, 2, 3), v(4, 5, 6)];
    let d = SimulationDriver::new(p, chain);
    assert_eq!(d.slice(), vec![1, 2, 3, 4, 5, 6]);
}
