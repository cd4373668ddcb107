use icarus::chemical_spill::{
    find_cans, grasp_positions, pickup_entry, spill_step, SpillAction, SpillState,
    CAN_DISTANCE_THRESHOLD, SCAN_STEP_LIMIT,
};
use icarus::line_follow::LineFollowParameters;

fn default_params() -> LineFollowParameters {
    LineFollowParameters::new(3000, 50, 100, 165, 2500, 2000, 100)
}

#[test]
fn sweep_reports_exactly_the_indices_under_the_threshold() {
    let mut distances: Vec<i32> = Vec::new();
    for i in 0..36 {
        if i == 5 || i == 6 {
            distances.push(2500);
        } else {
            distances.push(4000);
        }
    }
    assert_eq!(find_cans(&distances), vec![5, 6]);
}

#[test]
fn sweep_threshold_is_strict() {
    let mut distances: Vec<i32> = vec![CAN_DISTANCE_THRESHOLD; 36];
    assert_eq!(find_cans(&distances), Vec::<i32>::new());
    distances[35] = CAN_DISTANCE_THRESHOLD - 1;
    assert_eq!(find_cans(&distances), vec![35]);
}

#[test]
fn retrieval_walks_its_phases_in_order() {
    let params = default_params();
    let far = 5000;

    let (state, action) = spill_step(SpillState::RaisingClaw, far, &params);
    assert_eq!(action, SpillAction::RaiseClaw);
    assert_eq!(state, SpillState::Advancing);

    let (state, action) = spill_step(state, far, &params);
    assert_eq!(action, SpillAction::AdvanceToCenter);
    assert_eq!(state, SpillState::Scanning { remaining: SCAN_STEP_LIMIT });

    // Nothing in sight: pivot and spend one unit of the budget.
    let (state, action) = spill_step(state, far, &params);
    assert_eq!(action, SpillAction::PivotStep);
    assert_eq!(state, SpillState::Scanning { remaining: SCAN_STEP_LIMIT - 1 });

    // Spotted at 19 cm (under the 20 cm threshold): one last pivot burst
    // — the scan pivots once per sample, the spotting one included —
    // then chase.
    let (state, action) = spill_step(state, 1900, &params);
    assert_eq!(action, SpillAction::PivotStep);
    assert_eq!(state, SpillState::Chasing);

    // Still too far at 15 cm: burst forward.
    let (state, action) = spill_step(state, 1500, &params);
    assert_eq!(action, SpillAction::ChaseBurst);
    assert_eq!(state, SpillState::Chasing);

    // At 10 cm the chase stops (strictly-greater comparison): grasp.
    let (state, action) = spill_step(state, 1000, &params);
    assert_eq!(action, SpillAction::Idle);
    assert_eq!(state, SpillState::Grasping);

    let (state, action) = spill_step(state, 1000, &params);
    assert_eq!(action, SpillAction::GraspSequence);
    assert_eq!(state, SpillState::Retreating);

    let (state, action) = spill_step(state, 1000, &params);
    assert_eq!(action, SpillAction::RetreatBurst);
    assert_eq!(state, SpillState::Done);

    let (state, action) = spill_step(state, 1000, &params);
    assert_eq!(action, SpillAction::Idle);
    assert_eq!(state, SpillState::Done);
}

#[test]
fn scan_pivots_once_per_sample_including_the_spotting_one() {
    let params = default_params();
    // Five samples too far, the sixth under the threshold: six samples,
    // six pivot bursts, and only then the chase.
    let samples = vec![5000, 5000, 5000, 5000, 5000, 1900];
    let mut state = SpillState::Scanning { remaining: SCAN_STEP_LIMIT };
    let mut pivots = 0;
    for d in samples {
        let (next, action) = spill_step(state, d, &params);
        if action == SpillAction::PivotStep {
            pivots += 1;
        }
        state = next;
    }
    assert_eq!(pivots, 6);
    assert_eq!(state, SpillState::Chasing);
}

#[test]
fn scan_does_not_terminate_at_exactly_the_spotted_threshold() {
    let params = default_params();
    // Exactly 20 cm is not under the threshold (strict <): keep scanning.
    let (state, action) = spill_step(
        SpillState::Scanning { remaining: SCAN_STEP_LIMIT },
        2000,
        &params,
    );
    assert_eq!(action, SpillAction::PivotStep);
    assert_eq!(state, SpillState::Scanning { remaining: SCAN_STEP_LIMIT - 1 });
}

#[test]
fn scan_budget_runs_out_into_not_found() {
    let params = default_params();
    let far = 5000;
    let mut state = SpillState::Scanning { remaining: 2 };
    let mut pivots = 0;
    loop {
        let (next, action) = spill_step(state, far, &params);
        if action == SpillAction::PivotStep {
            pivots += 1;
        }
        state = next;
        if state == SpillState::NotFound || pivots > 10 {
            break;
        }
    }
    assert_eq!(pivots, 2);
    assert_eq!(state, SpillState::NotFound);

    // A terminal state stays terminal.
    let (state, action) = spill_step(state, 1000, &params);
    assert_eq!(state, SpillState::NotFound);
    assert_eq!(action, SpillAction::Idle);
}

#[test]
fn full_scan_budget_is_spent_before_giving_up() {
    let params = default_params();
    let far = 5000;
    let mut state = SpillState::RaisingClaw;
    let mut pivots: u32 = 0;
    let mut steps: u32 = 0;
    while state != SpillState::NotFound {
        let (next, action) = spill_step(state, far, &params);
        if action == SpillAction::PivotStep {
            pivots += 1;
        }
        state = next;
        steps += 1;
        assert!(steps <= SCAN_STEP_LIMIT + 10);
    }
    assert_eq!(pivots, SCAN_STEP_LIMIT);
}

#[test]
fn pickup_engages_only_within_sweep_range() {
    assert_eq!(pickup_entry(CAN_DISTANCE_THRESHOLD - 1), SpillState::Chasing);
    assert_eq!(pickup_entry(CAN_DISTANCE_THRESHOLD), SpillState::Done);
}

#[test]
fn grasp_lowers_closes_and_raises_by_the_claw_travels() {
    // Vertical claw: a quarter of 360 counts; horizontal: full travel.
    assert_eq!(grasp_positions(360, 360), (90, 360, -90));
    // Different encoder resolutions are respected per motor.
    assert_eq!(grasp_positions(720, 1440), (180, 1440, -180));
}
