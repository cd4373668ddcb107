use icarus::line_follow::{
    avoid_water_tower_plan, clamp_speed, classify, green_dominant, line_follow_tick,
    next_counter, scripted_turn, wheel_speeds, CalibrationProfile, Classification,
    DriveSegment, LineFollowParameters, Side, TickCommand, RGB, SPEED_CEILING,
};

fn default_params() -> LineFollowParameters {
    // gain 3.0, 50 ms tick, cruise 100, green ratio 1.65,
    // obstacle 25 cm, spill spotted 20 cm, debounce 100 ticks
    LineFollowParameters::new(3000, 50, 100, 165, 2500, 2000, 100)
}

fn neutral_profile() -> CalibrationProfile {
    CalibrationProfile::from((RGB::from((100, 120, 90)), RGB::from((90, 115, 95))))
}

#[test]
fn calibration_mean_of_constant_samples_is_that_sample() {
    let mut left: Vec<RGB> = Vec::new();
    let mut right: Vec<RGB> = Vec::new();
    for _ in 0..100 {
        left.push(RGB::from((100, 120, 90)));
        right.push(RGB::from((90, 115, 95)));
    }
    let profile = CalibrationProfile::from_samples(&left, &right);
    assert_eq!(profile.left, RGB { r: 100, g: 120, b: 90 });
    assert_eq!(profile.right, RGB { r: 90, g: 115, b: 95 });
}

#[test]
fn calibration_mean_is_exact_per_channel() {
    let mut left: Vec<RGB> = Vec::new();
    let mut right: Vec<RGB> = Vec::new();
    for i in 0..100i32 {
        // red 0..=99 sums to 4950 (mean 49); green constant; blue
        // alternates 10/11, sum 1050, floored mean 10
        left.push(RGB::from((i, 7, 10 + (i % 2))));
        right.push(RGB::from((2 * i, 0, 3)));
    }
    let profile = CalibrationProfile::from_samples(&left, &right);
    assert_eq!(profile.left, RGB { r: 49, g: 7, b: 10 });
    assert_eq!(profile.right, RGB { r: 99, g: 0, b: 3 });
}

#[test]
fn average_and_rb_ave_floor_their_means() {
    let c = RGB::from((10, 20, 40));
    assert_eq!(c.average(), 23);
    assert_eq!(c.rb_ave(), 25);
    let d = RGB::from((0, 0, 1));
    assert_eq!(d.average(), 0);
    assert_eq!(d.rb_ave(), 0);
}

#[test]
fn balanced_reflectivity_steers_straight_at_cruise_speed() {
    let profile = neutral_profile();
    let params = default_params();
    // Readings identical to the baselines: heading is zero.
    let speeds = wheel_speeds(
        RGB::from((100, 120, 90)),
        RGB::from((90, 115, 95)),
        &profile,
        &params,
    );
    assert_eq!(speeds, (100, 100));
}

#[test]
fn large_heading_saturates_both_wheels_at_the_ceiling() {
    let profile = CalibrationProfile::from((RGB::from((0, 0, 0)), RGB::from((0, 0, 0))));
    let params = default_params();
    // Left sees bright ground, right sees black: a huge positive heading.
    let speeds = wheel_speeds(
        RGB::from((1000, 1000, 1000)),
        RGB::from((0, 0, 0)),
        &profile,
        &params,
    );
    assert_eq!(speeds, (SPEED_CEILING, -SPEED_CEILING));
}

#[test]
fn clamp_saturates_at_ceiling_and_preserves_sign() {
    assert_eq!(clamp_speed(800), 800);
    assert_eq!(clamp_speed(5000), 800);
    assert_eq!(clamp_speed(-800), -800);
    assert_eq!(clamp_speed(-12345), -800);
    assert_eq!(clamp_speed(799), 799);
    assert_eq!(clamp_speed(-799), -799);
    assert_eq!(clamp_speed(0), 0);
}

#[test]
fn green_ratio_test_is_strict() {
    // rb_ave = 100, so the green channel must exceed 165 exactly.
    assert!(green_dominant(&RGB::from((100, 166, 100)), 165));
    assert!(!green_dominant(&RGB::from((100, 165, 100)), 165));
}

#[test]
fn turn_marker_respects_debounce_threshold() {
    let params = default_params();
    // Green on the left side only.
    let green_left = RGB::from((100, 200, 90));
    let plain_right = RGB::from((90, 118, 95));

    // At or below the threshold the turn must not fire.
    let at_threshold = classify(2600, &green_left, &plain_right, 100, &params);
    assert_eq!(at_threshold, Classification::Follow);
    assert_eq!(next_counter(100, at_threshold), 101);
    let below = classify(2600, &green_left, &plain_right, 50, &params);
    assert_eq!(below, Classification::Follow);

    // Above the threshold it fires and resets the counter to zero.
    let above = classify(2600, &green_left, &plain_right, 101, &params);
    assert_eq!(above, Classification::TurnLeft);
    assert_eq!(next_counter(101, above), 0);

    // From a reset counter the same marker cannot fire again.
    let again = classify(2600, &green_left, &plain_right, 0, &params);
    assert_eq!(again, Classification::Follow);
}

#[test]
fn turn_marker_on_the_right_mirrors() {
    let params = default_params();
    let plain_left = RGB::from((100, 120, 90));
    let green_right = RGB::from((90, 200, 95));
    let outcome = classify(2600, &plain_left, &green_right, 101, &params);
    assert_eq!(outcome, Classification::TurnRight);
}

#[test]
fn green_on_both_sides_is_a_spill_zone_whatever_the_counter() {
    let params = default_params();
    let green_left = RGB::from((100, 200, 90));
    let green_right = RGB::from((90, 200, 95));
    assert_eq!(
        classify(2600, &green_left, &green_right, 0, &params),
        Classification::SpillZone
    );
    assert_eq!(
        classify(2600, &green_left, &green_right, 500, &params),
        Classification::SpillZone
    );
}

#[test]
fn obstacle_comparison_is_strict_at_the_threshold() {
    let params = default_params();
    let left = RGB::from((100, 120, 90));
    let right = RGB::from((90, 115, 95));
    // Exactly 25 cm does not trigger avoidance; 24.99 cm does.
    assert_ne!(classify(2500, &left, &right, 0, &params), Classification::Obstacle);
    assert_eq!(classify(2499, &left, &right, 0, &params), Classification::Obstacle);
}

#[test]
fn debounce_counter_saturates_instead_of_wrapping() {
    assert_eq!(next_counter(u32::MAX, Classification::Follow), u32::MAX);
    assert_eq!(next_counter(u32::MAX, Classification::TurnRight), 0);
}

#[test]
fn strong_left_heading_speeds_up_left_wheel_and_slows_right() {
    let profile = neutral_profile();
    let params = default_params();
    // Calibrated left reading (0, 80, 0), right (0, 3, 0):
    // reflectivities 572320 and 21462, heading 550858 (about 55.09).
    let speeds = wheel_speeds(
        RGB::from((100, 200, 90)),
        RGB::from((90, 118, 95)),
        &profile,
        &params,
    );
    assert_eq!(speeds, (265, 45));
    assert!(speeds.0 > 100 && speeds.1 < 100);
    assert!(speeds.0 <= SPEED_CEILING && speeds.1 >= -SPEED_CEILING);
}

#[test]
fn avoidance_triggers_exactly_once_on_approach() {
    let params = default_params();
    let left = RGB::from((100, 120, 90));
    let right = RGB::from((90, 115, 95));
    // Approaching readings: 40, 35, 30, 26, 24 cm.
    let approach = vec![4000, 3500, 3000, 2600, 2400];
    let mut triggers: Vec<usize> = Vec::new();
    for (i, d) in approach.iter().enumerate() {
        if classify(*d, &left, &right, 0, &params) == Classification::Obstacle {
            triggers.push(i);
        }
    }
    assert_eq!(triggers, vec![4]);
}

#[test]
fn avoidance_plan_has_five_segments_in_documented_order() {
    let plan = avoid_water_tower_plan(360, 360, 100);
    let pivot_away = DriveSegment {
        left_position: -108,
        right_position: 108,
        left_speed: -100,
        right_speed: 100,
    };
    let straight = DriveSegment {
        left_position: 648,
        right_position: 648,
        left_speed: 100,
        right_speed: 100,
    };
    let pivot_back = DriveSegment {
        left_position: 108,
        right_position: -108,
        left_speed: 100,
        right_speed: -100,
    };
    assert_eq!(plan, vec![pivot_away, straight, pivot_back, straight, pivot_back]);
}

#[test]
fn avoidance_plan_uses_each_motors_own_resolution() {
    let plan = avoid_water_tower_plan(360, 720, 100);
    assert_eq!(plan[0].left_position, -108);
    assert_eq!(plan[0].right_position, 216);
    assert_eq!(plan[1].left_position, 648);
    assert_eq!(plan[1].right_position, 1296);
}

#[test]
fn scripted_turn_bumps_forward_then_pivots_toward_the_side() {
    let left_turn = scripted_turn(Side::Left, 360, 360, 100);
    assert_eq!(left_turn.len(), 2);
    assert_eq!(
        left_turn[0],
        DriveSegment { left_position: 108, right_position: 108, left_speed: 100, right_speed: 100 }
    );
    assert_eq!(
        left_turn[1],
        DriveSegment {
            left_position: -180,
            right_position: 180,
            left_speed: -100,
            right_speed: 100,
        }
    );

    let right_turn = scripted_turn(Side::Right, 360, 360, 100);
    assert_eq!(
        right_turn[1],
        DriveSegment {
            left_position: 180,
            right_position: -180,
            left_speed: 100,
            right_speed: -100,
        }
    );
}

#[test]
fn tick_dispatches_on_the_classification() {
    let profile = neutral_profile();
    let params = default_params();
    let plain_left = RGB::from((100, 120, 90));
    let plain_right = RGB::from((90, 115, 95));
    let green_left = RGB::from((100, 200, 90));

    let (cmd, next) = line_follow_tick(2400, plain_left, plain_right, 7, &profile, &params);
    assert_eq!(cmd, TickCommand::Avoid);
    assert_eq!(next, 8);

    let (cmd, next) = line_follow_tick(2600, green_left, plain_right, 101, &profile, &params);
    assert_eq!(cmd, TickCommand::Turn(Side::Left));
    assert_eq!(next, 0);

    let (cmd, next) = line_follow_tick(2600, plain_left, plain_right, 7, &profile, &params);
    assert_eq!(cmd, TickCommand::Steer(100, 100));
    assert_eq!(next, 8);
}
