//! Object retrieval: the spill-zone state machine and the can scan.
//!
//! An unbounded scan would spin in place forever on a missed detection,
//! so the scan phase carries an explicit step budget and surfaces a
//! not-found outcome when the budget runs out.

use vstd::prelude::*;
use crate::line_follow::{LineFollowParameters, frac_counts, frac_counts_spec};

verus! {

/// Distance (hundredths of a centimetre) under which a can counts as seen
/// during a sweep or at the chase entry.
pub const CAN_DISTANCE_THRESHOLD: i32 = 3000;

/// Distance (hundredths of a centimetre) at which the chase stops and the
/// claw closes.
pub const CLOSE_DISTANCE_THRESHOLD: i32 = 1000;

/// Most pivot steps the scan phase may take before giving up.
pub const SCAN_STEP_LIMIT: u32 = 3600;

/// Number of pivot increments of a full discovery sweep.
pub const SWEEP_STEPS: usize = 36;

/// Claw travel fractions, thousandths of the claw motor's revolution.
pub const CLAW_LIFT_MILLI_ROT: i32 = 250;

/// Full travel of the horizontal claw motor, thousandths of a revolution.
pub const CLAW_CLOSE_MILLI_ROT: i32 = 1000;

/// Where the spill responder stands. The robot is fully committed once it
/// enters: no line-following runs until the machine reaches [`SpillState::Done`]
/// or [`SpillState::NotFound`].
#[derive(Clone, Copy, PartialEq, Eq, Structural, Debug)]
pub enum SpillState {
    /// Raise the claw out of the way.
    RaisingClaw,
    /// Drive into the middle of the zone on a timed burst.
    Advancing,
    /// Pivot in small steps, sampling distance, until something is
    /// spotted or the step budget runs out.
    Scanning { remaining: u32 },
    /// Drive forward in short bursts while the object is still far.
    Chasing,
    /// Lower the claw, close it, lift the object.
    Grasping,
    /// Back away with the object held.
    Retreating,
    /// Retrieval complete.
    Done,
    /// The scan budget ran out with nothing spotted.
    NotFound,
}

/// What the hardware loop must perform after a step of the machine.
#[derive(Clone, Copy, PartialEq, Eq, Structural, Debug)]
pub enum SpillAction {
    /// Move the vertical claw motor up by its lift travel.
    RaiseClaw,
    /// Timed forward burst of both wheels into the zone's centre.
    AdvanceToCenter,
    /// One short timed counter-rotation of the wheel pair.
    PivotStep,
    /// One short timed forward burst toward the object.
    ChaseBurst,
    /// Lower the claw, close it, and lift it back up, blocking.
    GraspSequence,
    /// Timed reverse burst of both wheels.
    RetreatBurst,
    /// Nothing to drive; the machine only changed state.
    Idle,
}

/// One step of the spill responder: from the current state and the latest
/// distance sample (hundredths of a centimetre), the next state and the
/// action to perform. States that do not read the distance ignore it.
///
/// The scan pivots once per distance sample, the spotting sample
/// included: the burst is issued after the sample is read, so spotting
/// the object still carries one last pivot before the chase begins.
pub open spec fn spill_step_spec(
    state: SpillState,
    distance: int,
    params: LineFollowParameters,
) -> (SpillState, SpillAction) {
    match state {
        SpillState::RaisingClaw => (SpillState::Advancing, SpillAction::RaiseClaw),
        SpillState::Advancing => (
            SpillState::Scanning { remaining: SCAN_STEP_LIMIT },
            SpillAction::AdvanceToCenter,
        ),
        SpillState::Scanning { remaining } => {
            if distance < params.spill_threshold {
                (SpillState::Chasing, SpillAction::PivotStep)
            } else if remaining == 0 {
                (SpillState::NotFound, SpillAction::Idle)
            } else {
                (SpillState::Scanning { remaining: (remaining - 1) as u32 }, SpillAction::PivotStep)
            }
        },
        SpillState::Chasing => {
            if distance > CLOSE_DISTANCE_THRESHOLD {
                (SpillState::Chasing, SpillAction::ChaseBurst)
            } else {
                (SpillState::Grasping, SpillAction::Idle)
            }
        },
        SpillState::Grasping => (SpillState::Retreating, SpillAction::GraspSequence),
        SpillState::Retreating => (SpillState::Done, SpillAction::RetreatBurst),
        SpillState::Done => (SpillState::Done, SpillAction::Idle),
        SpillState::NotFound => (SpillState::NotFound, SpillAction::Idle),
    }
}

pub fn spill_step(
    state: SpillState,
    distance: i32,
    params: &LineFollowParameters,
) -> (step: (SpillState, SpillAction))
    ensures
        step == spill_step_spec(state, distance as int, *params),
{
    match state {
        SpillState::RaisingClaw => (SpillState::Advancing, SpillAction::RaiseClaw),
        SpillState::Advancing => (
            SpillState::Scanning { remaining: SCAN_STEP_LIMIT },
            SpillAction::AdvanceToCenter,
        ),
        SpillState::Scanning { remaining } => {
            if distance < params.spill_threshold {
                (SpillState::Chasing, SpillAction::PivotStep)
            } else if remaining == 0 {
                (SpillState::NotFound, SpillAction::Idle)
            } else {
                (SpillState::Scanning { remaining: remaining - 1 }, SpillAction::PivotStep)
            }
        },
        SpillState::Chasing => {
            if distance > CLOSE_DISTANCE_THRESHOLD {
                (SpillState::Chasing, SpillAction::ChaseBurst)
            } else {
                (SpillState::Grasping, SpillAction::Idle)
            }
        },
        SpillState::Grasping => (SpillState::Retreating, SpillAction::GraspSequence),
        SpillState::Retreating => (SpillState::Done, SpillAction::RetreatBurst),
        SpillState::Done => (SpillState::Done, SpillAction::Idle),
        SpillState::NotFound => (SpillState::NotFound, SpillAction::Idle),
    }
}

/// The standalone pickup entry: engage the chase only when something is
/// already within sweep range, otherwise there is nothing to do.
pub fn pickup_entry(distance: i32) -> (state: SpillState)
    ensures
        distance < CAN_DISTANCE_THRESHOLD ==> state == SpillState::Chasing,
        distance >= CAN_DISTANCE_THRESHOLD ==> state == SpillState::Done,
{
    if distance < CAN_DISTANCE_THRESHOLD {
        SpillState::Chasing
    } else {
        SpillState::Done
    }
}

/// The three blocking claw moves of the grasp, as relative position
/// setpoints from the claw motors' counts per revolution: lower the
/// vertical claw by its lift travel, close the horizontal claw through
/// its full travel, raise the vertical claw back up.
pub fn grasp_positions(
    claw_vert_counts_per_rot: i32,
    claw_horiz_counts_per_rot: i32,
) -> (positions: (i32, i32, i32))
    requires
        0 <= claw_vert_counts_per_rot,
        0 <= claw_horiz_counts_per_rot,
    ensures
        positions.0 == frac_counts_spec(claw_vert_counts_per_rot as int, CLAW_LIFT_MILLI_ROT as int),
        positions.1 == frac_counts_spec(
            claw_horiz_counts_per_rot as int,
            CLAW_CLOSE_MILLI_ROT as int,
        ),
        positions.2 == -frac_counts_spec(
            claw_vert_counts_per_rot as int,
            CLAW_LIFT_MILLI_ROT as int,
        ),
{
    let lower = frac_counts(claw_vert_counts_per_rot, CLAW_LIFT_MILLI_ROT);
    let close = frac_counts(claw_horiz_counts_per_rot, CLAW_CLOSE_MILLI_ROT);
    (lower, close, -lower)
}

/// The scan phase makes progress: every step taken while scanning either
/// leaves the scan (something spotted, or the budget ran out) or spends
/// one unit of the remaining budget, so the scan ends within `remaining + 1`
/// steps of the machine.
pub proof fn lemma_scan_progress(remaining: u32, distance: int, params: LineFollowParameters)
    ensures
        ({
            let (next, _) = spill_step_spec(
                SpillState::Scanning { remaining },
                distance,
                params,
            );
            next matches SpillState::Scanning { remaining: r2 } ==> r2 < remaining
        }),
{
}

/// The sweep indices (pivot increments from the start of a full
/// discovery sweep) whose distance sample lies strictly under the can
/// threshold, in increasing order.
pub open spec fn sweep_hits_spec(distances: Seq<i32>, threshold: int) -> Seq<i32>
    decreases distances.len(),
{
    if distances.len() == 0 {
        Seq::empty()
    } else if distances.last() < threshold {
        sweep_hits_spec(distances.drop_last(), threshold).push((distances.len() - 1) as i32)
    } else {
        sweep_hits_spec(distances.drop_last(), threshold)
    }
}

/// The sweep hits are exactly the hit indices: an index is reported if
/// and only if it lies within the sweep and its sample is strictly under
/// the threshold.
pub proof fn lemma_sweep_hits_exact(distances: Seq<i32>, threshold: int, idx: i32)
    requires
        distances.len() <= i32::MAX,
    ensures
        sweep_hits_spec(distances, threshold).contains(idx)
            <==> 0 <= idx < distances.len() && distances[idx as int] < threshold,
    decreases distances.len(),
{
    if distances.len() > 0 {
        lemma_sweep_hits_exact(distances.drop_last(), threshold, idx);
        let hits = sweep_hits_spec(distances, threshold);
        let prior = sweep_hits_spec(distances.drop_last(), threshold);
        if 0 <= idx < distances.len() - 1 {
            assert(distances.drop_last()[idx as int] == distances[idx as int]);
        }
        if distances.last() < threshold {
            assert(hits == prior.push((distances.len() - 1) as i32));
            assert(hits[hits.len() - 1] == (distances.len() - 1) as i32);
            if prior.contains(idx) {
                let k = choose|k: int| 0 <= k < prior.len() && prior[k] == idx;
                assert(hits[k] == idx);
            }
            if hits.contains(idx) && idx != distances.len() - 1 {
                let k = choose|k: int| 0 <= k < hits.len() && hits[k] == idx;
                assert(k != hits.len() - 1);
                assert(prior[k] == idx);
            }
        } else {
            assert(hits == prior);
        }
    }
}

/// The discovery-only sweep: given the distance sample of each of the 36
/// pivot increments of a 360-degree sweep, the increments at which an
/// object sat within the can threshold, in sweep order.
pub fn find_cans(distances: &Vec<i32>) -> (found: Vec<i32>)
    requires
        distances@.len() == SWEEP_STEPS,
    ensures
        found@ == sweep_hits_spec(distances@, CAN_DISTANCE_THRESHOLD as int),
{
    let mut found: Vec<i32> = Vec::new();
    let mut i: usize = 0;
    while i < SWEEP_STEPS
        invariant
            distances@.len() == SWEEP_STEPS,
            0 <= i <= SWEEP_STEPS,
            found@ == sweep_hits_spec(distances@.take(i as int), CAN_DISTANCE_THRESHOLD as int),
        decreases SWEEP_STEPS - i,
    {
        proof {
            assert(distances@.take(i + 1).drop_last() =~= distances@.take(i as int));
            assert(distances@.take(i + 1).last() == distances@[i as int]);
        }
        if distances[i] < CAN_DISTANCE_THRESHOLD {
            found.push(i as i32);
        }
        i = i + 1;
    }
    proof {
        assert(distances@.take(SWEEP_STEPS as int) =~= distances@);
    }
    found
}

} // verus!