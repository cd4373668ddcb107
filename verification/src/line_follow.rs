//! Calibration, steering and feature classification for the line follower.

use vstd::prelude::*;
use vstd::arithmetic::div_mod::{
    lemma_div_is_ordered, lemma_div_nonincreasing, lemma_div_pos_is_pos,
    lemma_div_multiples_vanish,
};

verus! {

/// Largest speed magnitude ever issued to a wheel motor.
pub const SPEED_CEILING: i32 = 800;

/// Number of colour samples averaged into one calibration baseline.
pub const CALIBRATION_SAMPLES: usize = 100;

/// A single raw colour-sensor sample: three integer channels.
///
/// Channels of a sample straight from the sensor are non-negative
/// ([`RGB::wf`]); a calibrated reading (baseline subtracted) may go
/// negative.
#[derive(Clone, Copy, PartialEq, Eq, Structural, Debug)]
pub struct RGB {
    pub r: i32,
    pub g: i32,
    pub b: i32,
}

impl RGB {
    /// A raw sensor sample: every channel is non-negative.
    pub open spec fn wf(self) -> bool {
        self.r >= 0 && self.g >= 0 && self.b >= 0
    }

    /// Mean of the three channels, rounded down.
    pub open spec fn average_spec(self) -> int {
        (self.r + self.g + self.b) / 3
    }

    /// Mean of the red and blue channels, rounded down.
    pub open spec fn rb_ave_spec(self) -> int {
        (self.r + self.b) / 2
    }

    pub fn average(&self) -> (a: i32)
        requires
            self.wf(),
        ensures
            a == self.average_spec(),
    {
        let sum: i64 = self.r as i64 + self.g as i64 + self.b as i64;
        let q: i64 = sum / 3;
        proof {
            lemma_div_pos_is_pos(sum as int, 3);
            lemma_div_is_ordered(sum as int, 3 * (i32::MAX as int), 3);
            lemma_div_multiples_vanish(i32::MAX as int, 3);
        }
        q as i32
    }

    pub fn rb_ave(&self) -> (a: i32)
        requires
            self.wf(),
        ensures
            a == self.rb_ave_spec(),
    {
        let sum: i64 = self.r as i64 + self.b as i64;
        let q: i64 = sum / 2;
        proof {
            lemma_div_pos_is_pos(sum as int, 2);
            lemma_div_is_ordered(sum as int, 2 * (i32::MAX as int), 2);
            lemma_div_multiples_vanish(i32::MAX as int, 2);
        }
        q as i32
    }

    /// Reflectivity, the luminance-weighted channel sum, in
    /// ten-thousandths: `2125 * r + 7154 * g + 721 * b` stands for
    /// `0.2125 r + 0.7154 g + 0.0721 b` scaled by ten thousand.
    pub open spec fn reflectivity_spec(self) -> int {
        reflectivity_of(self.r as int, self.g as int, self.b as int)
    }

    pub fn reflectivity(&self) -> (refl: i64)
        ensures
            refl == self.reflectivity_spec(),
    {
        2125 * (self.r as i64) + 7154 * (self.g as i64) + 721 * (self.b as i64)
    }

    /// Subtract each side's own baseline channel-wise from that side's raw
    /// reading: left reading against left baseline, right against right.
    /// (Offsetting both readings by the left baseline is a tempting
    /// shortcut and a known defect; this crate commits to the symmetric
    /// per-side form.)
    pub fn calibrated(readings: (Self, Self), profile: &CalibrationProfile) -> (out: (Self, Self))
        requires
            readings.0.wf(),
            readings.1.wf(),
            profile.wf(),
        ensures
            out.0.r == readings.0.r - profile.left.r,
            out.0.g == readings.0.g - profile.left.g,
            out.0.b == readings.0.b - profile.left.b,
            out.1.r == readings.1.r - profile.right.r,
            out.1.g == readings.1.g - profile.right.g,
            out.1.b == readings.1.b - profile.right.b,
            out.0.reflectivity_spec() - out.1.reflectivity_spec()
                == heading_spec(readings.0, readings.1, *profile),
    {
        let first = RGB {
            r: readings.0.r - profile.left.r,
            g: readings.0.g - profile.left.g,
            b: readings.0.b - profile.left.b,
        };
        let second = RGB {
            r: readings.1.r - profile.right.r,
            g: readings.1.g - profile.right.g,
            b: readings.1.b - profile.right.b,
        };
        (first, second)
    }
}

impl From<(i32, i32, i32)> for RGB {
    fn from(value: (i32, i32, i32)) -> (c: Self) {
        RGB { r: value.0, g: value.1, b: value.2 }
    }
}

impl vstd::std_specs::convert::FromSpecImpl<(i32, i32, i32)> for RGB {
    open spec fn obeys_from_spec() -> bool {
        true
    }

    open spec fn from_spec(value: (i32, i32, i32)) -> Self {
        RGB { r: value.0, g: value.1, b: value.2 }
    }
}

/// Reflectivity of one colour reading given as plain integers, in
/// ten-thousandths.
pub open spec fn reflectivity_of(r: int, g: int, b: int) -> int {
    2125 * r + 7154 * g + 721 * b
}

/// Difference of the two calibrated reflectivities, left minus right, in
/// ten-thousandths. Positive means the left sensor sees the brighter
/// (more off-line) ground.
pub open spec fn heading_spec(left: RGB, right: RGB, profile: CalibrationProfile) -> int {
    reflectivity_of(
        left.r - profile.left.r,
        left.g - profile.left.g,
        left.b - profile.left.b,
    ) - reflectivity_of(
        right.r - profile.right.r,
        right.g - profile.right.g,
        right.b - profile.right.b,
    )
}

/// One baseline colour reading per side, each the per-channel mean of
/// [`CALIBRATION_SAMPLES`] raw samples. Computed once before the control
/// loop may run, read-only afterwards.
#[derive(Clone, Copy, PartialEq, Eq, Structural, Debug)]
pub struct CalibrationProfile {
    pub left: RGB,
    pub right: RGB,
}

/// Sum of the red channels of a sample sequence.
pub open spec fn sum_r(s: Seq<RGB>) -> int
    decreases s.len(),
{
    if s.len() == 0 {
        0
    } else {
        sum_r(s.drop_last()) + s.last().r
    }
}

/// Sum of the green channels of a sample sequence.
pub open spec fn sum_g(s: Seq<RGB>) -> int
    decreases s.len(),
{
    if s.len() == 0 {
        0
    } else {
        sum_g(s.drop_last()) + s.last().g
    }
}

/// Sum of the blue channels of a sample sequence.
pub open spec fn sum_b(s: Seq<RGB>) -> int
    decreases s.len(),
{
    if s.len() == 0 {
        0
    } else {
        sum_b(s.drop_last()) + s.last().b
    }
}

proof fn lemma_sums_take_step(s: Seq<RGB>, i: int)
    requires
        0 <= i < s.len(),
    ensures
        sum_r(s.take(i + 1)) == sum_r(s.take(i)) + s[i].r,
        sum_g(s.take(i + 1)) == sum_g(s.take(i)) + s[i].g,
        sum_b(s.take(i + 1)) == sum_b(s.take(i)) + s[i].b,
{
    assert(s.take(i + 1).drop_last() =~= s.take(i));
    assert(s.take(i + 1).last() == s[i]);
}

impl CalibrationProfile {
    pub open spec fn wf(self) -> bool {
        self.left.wf() && self.right.wf()
    }

    /// Per-channel mean, rounded down, of a full batch of raw samples.
    fn mean_of(samples: &Vec<RGB>) -> (mean: RGB)
        requires
            samples@.len() == CALIBRATION_SAMPLES,
            forall|i: int| 0 <= i < samples@.len() ==> (#[trigger] samples@[i]).wf(),
        ensures
            mean.r == sum_r(samples@) / (CALIBRATION_SAMPLES as int),
            mean.g == sum_g(samples@) / (CALIBRATION_SAMPLES as int),
            mean.b == sum_b(samples@) / (CALIBRATION_SAMPLES as int),
            mean.wf(),
    {
        let mut acc_r: i64 = 0;
        let mut acc_g: i64 = 0;
        let mut acc_b: i64 = 0;
        let mut i: usize = 0;
        while i < CALIBRATION_SAMPLES
            invariant
                samples@.len() == CALIBRATION_SAMPLES,
                forall|k: int| 0 <= k < samples@.len() ==> (#[trigger] samples@[k]).wf(),
                0 <= i <= CALIBRATION_SAMPLES,
                acc_r == sum_r(samples@.take(i as int)),
                acc_g == sum_g(samples@.take(i as int)),
                acc_b == sum_b(samples@.take(i as int)),
                0 <= acc_r <= i * (i32::MAX as int),
                0 <= acc_g <= i * (i32::MAX as int),
                0 <= acc_b <= i * (i32::MAX as int),
            decreases CALIBRATION_SAMPLES - i,
        {
            let sample = samples[i];
            proof {
                lemma_sums_take_step(samples@, i as int);
            }
            acc_r = acc_r + sample.r as i64;
            acc_g = acc_g + sample.g as i64;
            acc_b = acc_b + sample.b as i64;
            i = i + 1;
        }
        proof {
            assert(samples@.take(CALIBRATION_SAMPLES as int) =~= samples@);
        }
        RGB {
            r: Self::mean_channel(acc_r),
            g: Self::mean_channel(acc_g),
            b: Self::mean_channel(acc_b),
        }
    }

    fn mean_channel(sum: i64) -> (mean: i32)
        requires
            0 <= sum <= (CALIBRATION_SAMPLES as int) * (i32::MAX as int),
        ensures
            mean == (sum as int) / (CALIBRATION_SAMPLES as int),
            mean >= 0,
    {
        let q: i64 = sum / (CALIBRATION_SAMPLES as i64);
        proof {
            lemma_div_pos_is_pos(sum as int, CALIBRATION_SAMPLES as int);
            lemma_div_is_ordered(
                sum as int,
                (CALIBRATION_SAMPLES as int) * (i32::MAX as int),
                CALIBRATION_SAMPLES as int,
            );
            lemma_div_multiples_vanish(i32::MAX as int, CALIBRATION_SAMPLES as int);
        }
        q as i32
    }

    /// Baseline profile from one full batch of raw samples per side:
    /// every baseline channel is the exact (floored) per-channel mean of
    /// its side's samples.
    pub fn from_samples(left: &Vec<RGB>, right: &Vec<RGB>) -> (profile: Self)
        requires
            left@.len() == CALIBRATION_SAMPLES,
            right@.len() == CALIBRATION_SAMPLES,
            forall|i: int| 0 <= i < left@.len() ==> (#[trigger] left@[i]).wf(),
            forall|i: int| 0 <= i < right@.len() ==> (#[trigger] right@[i]).wf(),
        ensures
            profile.left.r == sum_r(left@) / (CALIBRATION_SAMPLES as int),
            profile.left.g == sum_g(left@) / (CALIBRATION_SAMPLES as int),
            profile.left.b == sum_b(left@) / (CALIBRATION_SAMPLES as int),
            profile.right.r == sum_r(right@) / (CALIBRATION_SAMPLES as int),
            profile.right.g == sum_g(right@) / (CALIBRATION_SAMPLES as int),
            profile.right.b == sum_b(right@) / (CALIBRATION_SAMPLES as int),
            profile.wf(),
    {
        CalibrationProfile { left: Self::mean_of(left), right: Self::mean_of(right) }
    }
}

impl From<(RGB, RGB)> for CalibrationProfile {
    fn from(value: (RGB, RGB)) -> (profile: Self) {
        CalibrationProfile { left: value.0, right: value.1 }
    }
}

impl vstd::std_specs::convert::FromSpecImpl<(RGB, RGB)> for CalibrationProfile {
    open spec fn obeys_from_spec() -> bool {
        true
    }

    open spec fn from_spec(value: (RGB, RGB)) -> Self {
        CalibrationProfile { left: value.0, right: value.1 }
    }
}

/// Scale of the gain times the scale of the reflectivity times the
/// left-wheel correction divisor: `1000 * 10000 * 100`.
pub const LEFT_STEER_DIVISOR: i128 = 1_000_000_000;

/// As [`LEFT_STEER_DIVISOR`], but with the right wheel's dampened
/// correction divisor of 300: `1000 * 10000 * 300`. The asymmetry is
/// deliberate and compensates drivetrain asymmetry.
pub const RIGHT_STEER_DIVISOR: i128 = 3_000_000_000;

/// Immutable control configuration, supplied at startup.
#[derive(Clone, Copy, PartialEq, Eq, Structural, Debug)]
pub struct LineFollowParameters {
    /// Proportional gain in thousandths (a gain of `3.0` is `3000`).
    pub kp_millis: i32,
    /// Control-tick duration in milliseconds.
    pub tick_ms: u64,
    /// Target cruise speed, signed motor speed units.
    pub targeted_speed: i32,
    /// Green-detection ratio threshold in hundredths (`1.65` is `165`).
    pub green_ratio_centi: i32,
    /// Obstacle distance threshold, hundredths of a centimetre.
    pub obstacle_threshold: i32,
    /// Spill scan "spotted" distance threshold, hundredths of a centimetre.
    pub spill_threshold: i32,
    /// Ticks that must pass since the last turn before a turn marker is
    /// honoured again.
    pub debounce_threshold: u32,
}

impl LineFollowParameters {
    /// The cruise speed is issued to the wheels as-is during turns and
    /// maneuvers, so it must already respect the speed ceiling.
    pub open spec fn wf(self) -> bool {
        -SPEED_CEILING <= self.targeted_speed <= SPEED_CEILING
    }

    pub fn new(
        kp_millis: i32,
        tick_ms: u64,
        targeted_speed: i32,
        green_ratio_centi: i32,
        obstacle_threshold: i32,
        spill_threshold: i32,
        debounce_threshold: u32,
    ) -> (params: Self)
        ensures
            params == (LineFollowParameters {
                kp_millis,
                tick_ms,
                targeted_speed,
                green_ratio_centi,
                obstacle_threshold,
                spill_threshold,
                debounce_threshold,
            }),
    {
        LineFollowParameters {
            kp_millis,
            tick_ms,
            targeted_speed,
            green_ratio_centi,
            obstacle_threshold,
            spill_threshold,
            debounce_threshold,
        }
    }
}

/// Integer division rounding toward zero, as the wheel-speed law uses it.
pub open spec fn div_trunc(a: int, b: int) -> int
    recommends
        b > 0,
{
    if a >= 0 {
        a / b
    } else {
        -((-a) / b)
    }
}

/// Clamp a speed to the ceiling, preserving its sign.
pub open spec fn clamp_spec(v: int) -> int {
    if v >= SPEED_CEILING as int {
        SPEED_CEILING as int
    } else if v <= -(SPEED_CEILING as int) {
        -(SPEED_CEILING as int)
    } else {
        v
    }
}

/// Left wheel speed before clamping: `target + kp * heading / 100 * target`
/// carried out in scaled integers, rounding toward zero.
pub open spec fn left_speed_raw_spec(params: LineFollowParameters, heading: int) -> int {
    params.targeted_speed + div_trunc(
        params.kp_millis * heading * params.targeted_speed,
        LEFT_STEER_DIVISOR as int,
    )
}

/// Right wheel speed before clamping: `target - kp * heading / 300 * target`.
pub open spec fn right_speed_raw_spec(params: LineFollowParameters, heading: int) -> int {
    params.targeted_speed - div_trunc(
        params.kp_millis * heading * params.targeted_speed,
        RIGHT_STEER_DIVISOR as int,
    )
}

pub open spec fn left_speed_spec(params: LineFollowParameters, heading: int) -> int {
    clamp_spec(left_speed_raw_spec(params, heading))
}

pub open spec fn right_speed_spec(params: LineFollowParameters, heading: int) -> int {
    clamp_spec(right_speed_raw_spec(params, heading))
}

pub fn clamp_speed(v: i128) -> (c: i32)
    ensures
        c == clamp_spec(v as int),
{
    if v >= SPEED_CEILING as i128 {
        SPEED_CEILING
    } else if v <= -(SPEED_CEILING as i128) {
        -SPEED_CEILING
    } else {
        v as i32
    }
}

/// Truncating division of a bounded value by a positive divisor.
fn div_trunc_i128(num: i128, divisor: i128) -> (q: i128)
    requires
        divisor > 0,
        i128::MIN < num,
    ensures
        q == div_trunc(num as int, divisor as int),
        -num <= q <= num || num <= q <= -num,
{
    if num >= 0 {
        let q: i128 = num / divisor;
        proof {
            lemma_div_pos_is_pos(num as int, divisor as int);
            lemma_div_nonincreasing(num as int, divisor as int);
        }
        q
    } else {
        let m: i128 = -num;
        let q: i128 = m / divisor;
        proof {
            lemma_div_pos_is_pos(m as int, divisor as int);
            lemma_div_nonincreasing(m as int, divisor as int);
        }
        -q
    }
}

/// One control tick of the steering law: calibrate both readings, form the
/// heading from the reflectivity difference, apply the proportional
/// correction (dampened threefold on the right wheel), and clamp both
/// speeds to the ceiling, preserving sign.
pub fn wheel_speeds(
    left: RGB,
    right: RGB,
    profile: &CalibrationProfile,
    params: &LineFollowParameters,
) -> (speeds: (i32, i32))
    requires
        left.wf(),
        right.wf(),
        profile.wf(),
    ensures
        speeds.0 == left_speed_spec(*params, heading_spec(left, right, *profile)),
        speeds.1 == right_speed_spec(*params, heading_spec(left, right, *profile)),
        -SPEED_CEILING <= speeds.0 <= SPEED_CEILING,
        -SPEED_CEILING <= speeds.1 <= SPEED_CEILING,
{
    let cal = RGB::calibrated((left, right), profile);
    let heading: i64 = cal.0.reflectivity() - cal.1.reflectivity();

    let kp: i128 = params.kp_millis as i128;
    let target: i128 = params.targeted_speed as i128;
    let h: i128 = heading as i128;
    proof {
        assert(-0x2000_0000_0000_0000_0000int <= (kp as int) * (h as int)
            <= 0x2000_0000_0000_0000_0000int) by (nonlinear_arith)
            requires
                -0x8000_0000 <= kp <= 0x8000_0000,
                -0x4000_0000_0000 <= h <= 0x4000_0000_0000,
        ;
        assert(-0x1_0000_0000_0000_0000_0000_0000_0000int
            <= ((kp as int) * (h as int)) * (target as int)
            <= 0x1_0000_0000_0000_0000_0000_0000_0000int) by (nonlinear_arith)
            requires
                -0x2000_0000_0000_0000_0000int <= (kp as int) * (h as int)
                    <= 0x2000_0000_0000_0000_0000int,
                -0x8000_0000 <= target <= 0x8000_0000,
        ;
    }
    let num: i128 = kp * h * target;
    proof {
        assert(num == params.kp_millis * heading_spec(left, right, *profile)
            * params.targeted_speed);
    }

    let left_corr: i128 = div_trunc_i128(num, LEFT_STEER_DIVISOR);
    let right_corr: i128 = div_trunc_i128(num, RIGHT_STEER_DIVISOR);

    let left_speed = clamp_speed(target + left_corr);
    let right_speed = clamp_speed(target - right_corr);
    (left_speed, right_speed)
}

/// True when the green channel exceeds `ratio * redBlueAverage`, the
/// ratio given in hundredths.
pub open spec fn green_dominant_spec(c: RGB, ratio_centi: int) -> bool {
    100 * c.g > ratio_centi * c.rb_ave_spec()
}

pub fn green_dominant(c: &RGB, ratio_centi: i32) -> (dominant: bool)
    requires
        c.wf(),
    ensures
        dominant == green_dominant_spec(*c, ratio_centi as int),
{
    let rb: i32 = c.rb_ave();
    let lhs: i64 = 100 * (c.g as i64);
    proof {
        assert(-0x4000_0000_0000_0000int <= (ratio_centi as int) * (rb as int)
            <= 0x4000_0000_0000_0000int) by (nonlinear_arith)
            requires
                -0x8000_0000 <= ratio_centi as int <= 0x8000_0000,
                -0x8000_0000 <= rb as int <= 0x8000_0000,
        ;
    }
    let rhs: i64 = (ratio_centi as i64) * (rb as i64);
    lhs > rhs
}

/// What one control tick's readings call for.
#[derive(Clone, Copy, PartialEq, Eq, Structural, Debug)]
pub enum Classification {
    /// Distance below the obstacle threshold: run the avoidance detour.
    Obstacle,
    /// Green on both sides: enter the spill responder. Always armed,
    /// independent of the debounce counter.
    SpillZone,
    /// Green on the left side only, debounce elapsed: scripted left turn.
    TurnLeft,
    /// Green on the right side only, debounce elapsed: scripted right turn.
    TurnRight,
    /// None of the above: steer along the line for this tick.
    Follow,
}

/// The classifier, in order of precedence: obstacle, spill zone, turn
/// marker (only once the debounce counter exceeds its threshold), normal
/// line-following. Distance is in hundredths of a centimetre and the
/// comparison with the obstacle threshold is strict.
pub open spec fn classify_spec(
    distance: int,
    left: RGB,
    right: RGB,
    counter: u32,
    params: LineFollowParameters,
) -> Classification {
    let green_left = green_dominant_spec(left, params.green_ratio_centi as int);
    let green_right = green_dominant_spec(right, params.green_ratio_centi as int);
    if distance < params.obstacle_threshold {
        Classification::Obstacle
    } else if green_left && green_right {
        Classification::SpillZone
    } else if green_left && counter > params.debounce_threshold {
        Classification::TurnLeft
    } else if green_right && counter > params.debounce_threshold {
        Classification::TurnRight
    } else {
        Classification::Follow
    }
}

pub fn classify(
    distance: i32,
    left: &RGB,
    right: &RGB,
    counter: u32,
    params: &LineFollowParameters,
) -> (outcome: Classification)
    requires
        left.wf(),
        right.wf(),
    ensures
        outcome == classify_spec(distance as int, *left, *right, counter, *params),
{
    if distance < params.obstacle_threshold {
        return Classification::Obstacle;
    }
    let green_left = green_dominant(left, params.green_ratio_centi);
    let green_right = green_dominant(right, params.green_ratio_centi);
    if green_left && green_right {
        Classification::SpillZone
    } else if green_left && counter > params.debounce_threshold {
        Classification::TurnLeft
    } else if green_right && counter > params.debounce_threshold {
        Classification::TurnRight
    } else {
        Classification::Follow
    }
}

/// The debounce counter after a tick with the given outcome: reset to
/// zero when a turn fires, otherwise one more (saturating, so it never
/// wraps back under the threshold).
pub open spec fn next_counter_spec(counter: u32, outcome: Classification) -> u32 {
    if outcome == Classification::TurnLeft || outcome == Classification::TurnRight {
        0
    } else if counter < u32::MAX {
        (counter + 1) as u32
    } else {
        counter
    }
}

pub fn next_counter(counter: u32, outcome: Classification) -> (next: u32)
    ensures
        next == next_counter_spec(counter, outcome),
        next >= counter || next == 0,
{
    match outcome {
        Classification::TurnLeft | Classification::TurnRight => 0,
        _ => {
            if counter < u32::MAX {
                counter + 1
            } else {
                counter
            }
        },
    }
}

/// Wheel rotation fraction of a pivot segment, thousandths of a revolution.
pub const PIVOT_MILLI_ROT: i32 = 300;

/// Wheel rotation fraction of a straight detour segment, thousandths.
pub const STRAIGHT_MILLI_ROT: i32 = 1800;

/// Wheel rotation fraction of the forward bump of a scripted turn.
pub const TURN_BUMP_MILLI_ROT: i32 = 300;

/// Wheel rotation fraction of the pivot of a scripted turn.
pub const TURN_PIVOT_MILLI_ROT: i32 = 500;

/// Which side a turn marker was seen on.
#[derive(Clone, Copy, PartialEq, Eq, Structural, Debug)]
pub enum Side {
    Left,
    Right,
}

/// One blocking position-controlled move of the wheel pair: each wheel
/// drives to its relative position setpoint (encoder counts) at its
/// signed speed, and the segment ends when both wheels report stopped.
#[derive(Clone, Copy, PartialEq, Eq, Structural, Debug)]
pub struct DriveSegment {
    pub left_position: i32,
    pub right_position: i32,
    pub left_speed: i32,
    pub right_speed: i32,
}

/// A fraction of one motor revolution as encoder counts, the fraction in
/// thousandths, rounded toward zero.
pub open spec fn frac_counts_spec(counts_per_rot: int, fraction_milli: int) -> int {
    (counts_per_rot * fraction_milli) / 1000
}

pub fn frac_counts(counts_per_rot: i32, fraction_milli: i32) -> (counts: i32)
    requires
        0 <= counts_per_rot,
        0 <= fraction_milli,
        counts_per_rot * fraction_milli <= 1000 * (i32::MAX as int),
    ensures
        counts == frac_counts_spec(counts_per_rot as int, fraction_milli as int),
        0 <= counts,
{
    proof {
        assert(0 <= (counts_per_rot as int) * (fraction_milli as int)) by (nonlinear_arith)
            requires
                0 <= counts_per_rot as int,
                0 <= fraction_milli as int,
        ;
    }
    let product: i64 = (counts_per_rot as i64) * (fraction_milli as i64);
    let q: i64 = product / 1000;
    proof {
        lemma_div_pos_is_pos(product as int, 1000);
        lemma_div_is_ordered(product as int, 1000 * (i32::MAX as int), 1000);
        lemma_div_multiples_vanish(i32::MAX as int, 1000);
    }
    q as i32
}

/// The two segments of a scripted turn, mirrored for the marker's side:
/// first a forward bump of both wheels carrying the marker past the
/// sensor bar, then a counter-rotating pivot toward the marked side.
/// Positions are per-motor, from each motor's own counts per revolution.
pub open spec fn scripted_turn_spec(
    side: Side,
    left_counts_per_rot: int,
    right_counts_per_rot: int,
    speed: int,
) -> Seq<DriveSegment> {
    let bump = DriveSegment {
        left_position: frac_counts_spec(left_counts_per_rot, TURN_BUMP_MILLI_ROT as int) as i32,
        right_position: frac_counts_spec(right_counts_per_rot, TURN_BUMP_MILLI_ROT as int) as i32,
        left_speed: speed as i32,
        right_speed: speed as i32,
    };
    let left_pivot_counts = frac_counts_spec(left_counts_per_rot, TURN_PIVOT_MILLI_ROT as int);
    let right_pivot_counts = frac_counts_spec(right_counts_per_rot, TURN_PIVOT_MILLI_ROT as int);
    let pivot = if side == Side::Left {
        DriveSegment {
            left_position: -left_pivot_counts as i32,
            right_position: right_pivot_counts as i32,
            left_speed: -speed as i32,
            right_speed: speed as i32,
        }
    } else {
        DriveSegment {
            left_position: left_pivot_counts as i32,
            right_position: -right_pivot_counts as i32,
            left_speed: speed as i32,
            right_speed: -speed as i32,
        }
    };
    seq![bump, pivot]
}

pub fn scripted_turn(
    side: Side,
    left_counts_per_rot: i32,
    right_counts_per_rot: i32,
    speed: i32,
) -> (plan: Vec<DriveSegment>)
    requires
        0 <= left_counts_per_rot,
        0 <= right_counts_per_rot,
        -SPEED_CEILING <= speed <= SPEED_CEILING,
    ensures
        plan@ == scripted_turn_spec(
            side,
            left_counts_per_rot as int,
            right_counts_per_rot as int,
            speed as int,
        ),
        plan@.len() == 2,
        forall|i: int| 0 <= i < plan@.len() ==> {
            let segment = #[trigger] plan@[i];
            -SPEED_CEILING <= segment.left_speed <= SPEED_CEILING
                && -SPEED_CEILING <= segment.right_speed <= SPEED_CEILING
        },
{
    let bump_left = frac_counts(left_counts_per_rot, TURN_BUMP_MILLI_ROT);
    let bump_right = frac_counts(right_counts_per_rot, TURN_BUMP_MILLI_ROT);
    let pivot_left = frac_counts(left_counts_per_rot, TURN_PIVOT_MILLI_ROT);
    let pivot_right = frac_counts(right_counts_per_rot, TURN_PIVOT_MILLI_ROT);
    let bump = DriveSegment {
        left_position: bump_left,
        right_position: bump_right,
        left_speed: speed,
        right_speed: speed,
    };
    let pivot = match side {
        Side::Left => DriveSegment {
            left_position: -pivot_left,
            right_position: pivot_right,
            left_speed: -speed,
            right_speed: speed,
        },
        Side::Right => DriveSegment {
            left_position: pivot_left,
            right_position: -pivot_right,
            left_speed: speed,
            right_speed: -speed,
        },
    };
    let mut plan: Vec<DriveSegment> = Vec::new();
    plan.push(bump);
    plan.push(pivot);
    proof {
        assert(plan@ =~= scripted_turn_spec(
            side,
            left_counts_per_rot as int,
            right_counts_per_rot as int,
            speed as int,
        ));
    }
    plan
}

/// The five segments of the obstacle detour, in order: pivot away from
/// the obstacle, drive straight, pivot back toward the original heading,
/// drive straight, pivot to realign. Pivots counter-rotate the wheels;
/// straight segments drive both forward at cruise speed. Open-loop: no
/// distance feedback between segments.
pub open spec fn avoid_water_tower_spec(
    left_counts_per_rot: int,
    right_counts_per_rot: int,
    speed: int,
) -> Seq<DriveSegment> {
    let pivot_left_counts = frac_counts_spec(left_counts_per_rot, PIVOT_MILLI_ROT as int);
    let pivot_right_counts = frac_counts_spec(right_counts_per_rot, PIVOT_MILLI_ROT as int);
    let straight_left_counts = frac_counts_spec(left_counts_per_rot, STRAIGHT_MILLI_ROT as int);
    let straight_right_counts = frac_counts_spec(right_counts_per_rot, STRAIGHT_MILLI_ROT as int);
    let pivot_away = DriveSegment {
        left_position: -pivot_left_counts as i32,
        right_position: pivot_right_counts as i32,
        left_speed: -speed as i32,
        right_speed: speed as i32,
    };
    let straight = DriveSegment {
        left_position: straight_left_counts as i32,
        right_position: straight_right_counts as i32,
        left_speed: speed as i32,
        right_speed: speed as i32,
    };
    let pivot_back = DriveSegment {
        left_position: pivot_left_counts as i32,
        right_position: -pivot_right_counts as i32,
        left_speed: speed as i32,
        right_speed: -speed as i32,
    };
    seq![pivot_away, straight, pivot_back, straight, pivot_back]
}

pub fn avoid_water_tower_plan(
    left_counts_per_rot: i32,
    right_counts_per_rot: i32,
    speed: i32,
) -> (plan: Vec<DriveSegment>)
    requires
        0 <= left_counts_per_rot,
        0 <= right_counts_per_rot,
        left_counts_per_rot * (STRAIGHT_MILLI_ROT as int) <= 1000 * (i32::MAX as int),
        right_counts_per_rot * (STRAIGHT_MILLI_ROT as int) <= 1000 * (i32::MAX as int),
        -SPEED_CEILING <= speed <= SPEED_CEILING,
    ensures
        plan@ == avoid_water_tower_spec(
            left_counts_per_rot as int,
            right_counts_per_rot as int,
            speed as int,
        ),
        plan@.len() == 5,
        forall|i: int| 0 <= i < plan@.len() ==> {
            let segment = #[trigger] plan@[i];
            -SPEED_CEILING <= segment.left_speed <= SPEED_CEILING
                && -SPEED_CEILING <= segment.right_speed <= SPEED_CEILING
        },
{
    let pivot_left = frac_counts(left_counts_per_rot, PIVOT_MILLI_ROT);
    let pivot_right = frac_counts(right_counts_per_rot, PIVOT_MILLI_ROT);
    let straight_left = frac_counts(left_counts_per_rot, STRAIGHT_MILLI_ROT);
    let straight_right = frac_counts(right_counts_per_rot, STRAIGHT_MILLI_ROT);
    let pivot_away = DriveSegment {
        left_position: -pivot_left,
        right_position: pivot_right,
        left_speed: -speed,
        right_speed: speed,
    };
    let straight = DriveSegment {
        left_position: straight_left,
        right_position: straight_right,
        left_speed: speed,
        right_speed: speed,
    };
    let pivot_back = DriveSegment {
        left_position: pivot_left,
        right_position: -pivot_right,
        left_speed: speed,
        right_speed: -speed,
    };
    let mut plan: Vec<DriveSegment> = Vec::new();
    plan.push(pivot_away);
    plan.push(straight);
    plan.push(pivot_back);
    plan.push(straight);
    plan.push(pivot_back);
    proof {
        assert(plan@ =~= avoid_water_tower_spec(
            left_counts_per_rot as int,
            right_counts_per_rot as int,
            speed as int,
        ));
    }
    plan
}

/// What the control loop must do for one tick, decided from the sensors.
#[derive(Clone, Copy, PartialEq, Eq, Structural, Debug)]
pub enum TickCommand {
    /// Run the five-segment obstacle detour, then resume the loop.
    Avoid,
    /// Enter the spill responder; the loop is suspended until it finishes.
    Spill,
    /// Run the scripted turn toward the given side, then reset debounce.
    Turn(Side),
    /// Issue these wheel speeds as a timed drive for one control tick.
    Steer(i32, i32),
}

/// One tick of the line-following loop: classify the readings, and either
/// branch to a maneuver or steer along the line; the debounce counter
/// resets when a turn fires and grows by one otherwise. Requires a
/// calibration profile — running uncalibrated is a precondition failure,
/// not a recoverable error.
pub fn line_follow_tick(
    distance: i32,
    left: RGB,
    right: RGB,
    counter: u32,
    profile: &CalibrationProfile,
    params: &LineFollowParameters,
) -> (tick: (TickCommand, u32))
    requires
        left.wf(),
        right.wf(),
        profile.wf(),
    ensures
        ({
            let outcome = classify_spec(distance as int, left, right, counter, *params);
            &&& (outcome == Classification::Obstacle ==> tick.0 == TickCommand::Avoid)
            &&& (outcome == Classification::SpillZone ==> tick.0 == TickCommand::Spill)
            &&& (outcome == Classification::TurnLeft ==> tick.0 == TickCommand::Turn(Side::Left))
            &&& (outcome == Classification::TurnRight ==> tick.0 == TickCommand::Turn(Side::Right))
            &&& (outcome == Classification::Follow ==> tick.0 == TickCommand::Steer(
                left_speed_spec(*params, heading_spec(left, right, *profile)) as i32,
                right_speed_spec(*params, heading_spec(left, right, *profile)) as i32,
            ))
            &&& tick.1 == next_counter_spec(counter, outcome)
        }),
{
    let outcome = classify(distance, &left, &right, counter, params);
    let next = next_counter(counter, outcome);
    let command = match outcome {
        Classification::Obstacle => TickCommand::Avoid,
        Classification::SpillZone => TickCommand::Spill,
        Classification::TurnLeft => TickCommand::Turn(Side::Left),
        Classification::TurnRight => TickCommand::Turn(Side::Right),
        Classification::Follow => {
            let speeds = wheel_speeds(left, right, profile, params);
            TickCommand::Steer(speeds.0, speeds.1)
        },
    };
    (command, next)
}

/// With balanced reflectivity (heading zero) the proportional correction
/// vanishes and both wheels are issued exactly the cruise speed.
pub proof fn lemma_steering_balanced(params: LineFollowParameters)
    requires
        params.wf(),
    ensures
        left_speed_spec(params, 0) == params.targeted_speed,
        right_speed_spec(params, 0) == params.targeted_speed,
{
    assert(params.kp_millis * 0 * params.targeted_speed == 0);
    assert(div_trunc(0, LEFT_STEER_DIVISOR as int) == 0);
    assert(div_trunc(0, RIGHT_STEER_DIVISOR as int) == 0);
}

/// Clamping saturates exactly at the ceiling and preserves the sign: any
/// magnitude at or above the ceiling comes out at exactly the ceiling,
/// anything inside the band passes unchanged, and the result never leaves
/// the band.
pub proof fn lemma_clamp_saturation(v: int)
    ensures
        v >= SPEED_CEILING ==> clamp_spec(v) == SPEED_CEILING,
        v <= -SPEED_CEILING ==> clamp_spec(v) == -SPEED_CEILING,
        -SPEED_CEILING <= v <= SPEED_CEILING ==> clamp_spec(v) == v,
        -SPEED_CEILING <= clamp_spec(v) <= SPEED_CEILING,
        v > 0 ==> clamp_spec(v) > 0,
        v < 0 ==> clamp_spec(v) < 0,
{
}

/// Whatever the heading, the speeds the steering law issues stay within
/// the ceiling; and whenever the uncorrected law leaves the band, the
/// issued speed sits exactly at the ceiling with the correct sign.
pub proof fn lemma_steering_saturates(params: LineFollowParameters, heading: int)
    ensures
        -SPEED_CEILING <= left_speed_spec(params, heading) <= SPEED_CEILING,
        -SPEED_CEILING <= right_speed_spec(params, heading) <= SPEED_CEILING,
        left_speed_raw_spec(params, heading) >= SPEED_CEILING
            ==> left_speed_spec(params, heading) == SPEED_CEILING,
        left_speed_raw_spec(params, heading) <= -SPEED_CEILING
            ==> left_speed_spec(params, heading) == -SPEED_CEILING,
        right_speed_raw_spec(params, heading) >= SPEED_CEILING
            ==> right_speed_spec(params, heading) == SPEED_CEILING,
        right_speed_raw_spec(params, heading) <= -SPEED_CEILING
            ==> right_speed_spec(params, heading) == -SPEED_CEILING,
{
}

/// A positive heading steers away from the left: whenever the gain, the
/// heading and the cruise speed are positive and their product reaches
/// the dampened right-wheel divisor (so that neither correction truncates
/// to zero in the scaled-integer law), the left wheel is issued strictly
/// more than the cruise speed and the right wheel strictly less, both
/// still within the ceiling. A cruise speed already at the ceiling is
/// left out: the clamp cannot raise the left wheel above it.
pub proof fn lemma_steering_diverges(params: LineFollowParameters, heading: int)
    requires
        0 < params.targeted_speed < SPEED_CEILING,
        params.kp_millis > 0,
        heading > 0,
        params.kp_millis * heading * params.targeted_speed >= RIGHT_STEER_DIVISOR as int,
    ensures
        left_speed_spec(params, heading) > params.targeted_speed,
        right_speed_spec(params, heading) < params.targeted_speed,
        left_speed_spec(params, heading) <= SPEED_CEILING,
        -SPEED_CEILING <= right_speed_spec(params, heading),
{
    let num = params.kp_millis * heading * params.targeted_speed;
    lemma_div_is_ordered(RIGHT_STEER_DIVISOR as int, num, LEFT_STEER_DIVISOR as int);
    lemma_div_multiples_vanish(3, LEFT_STEER_DIVISOR as int);
    assert(div_trunc(num, LEFT_STEER_DIVISOR as int) >= 3);
    lemma_div_is_ordered(RIGHT_STEER_DIVISOR as int, num, RIGHT_STEER_DIVISOR as int);
    lemma_div_multiples_vanish(1, RIGHT_STEER_DIVISOR as int);
    assert(div_trunc(num, RIGHT_STEER_DIVISOR as int) >= 1);
}

/// Debounce: while the counter has not passed the threshold no turn is
/// classified; when the counter is past the threshold and the green test
/// holds on exactly one side of a tick that is neither an obstacle nor a
/// spill zone (those take precedence), the turn for that side fires and
/// the counter resets to zero, from where the very next tick cannot
/// classify a turn again — the marker fires exactly once.
pub proof fn lemma_debounce(
    distance: int,
    left: RGB,
    right: RGB,
    counter: u32,
    params: LineFollowParameters,
)
    ensures
        counter <= params.debounce_threshold ==> {
            let outcome = classify_spec(distance, left, right, counter, params);
            outcome != Classification::TurnLeft && outcome != Classification::TurnRight
        },
        ({
            let outcome = classify_spec(distance, left, right, counter, params);
            outcome == Classification::TurnLeft || outcome == Classification::TurnRight
        }) ==> counter > params.debounce_threshold
            && next_counter_spec(
                counter,
                classify_spec(distance, left, right, counter, params),
            ) == 0,
        distance >= params.obstacle_threshold
            && counter > params.debounce_threshold
            && green_dominant_spec(left, params.green_ratio_centi as int)
            && !green_dominant_spec(right, params.green_ratio_centi as int)
            ==> classify_spec(distance, left, right, counter, params)
                == Classification::TurnLeft
                && next_counter_spec(counter, Classification::TurnLeft) == 0,
        distance >= params.obstacle_threshold
            && counter > params.debounce_threshold
            && green_dominant_spec(right, params.green_ratio_centi as int)
            && !green_dominant_spec(left, params.green_ratio_centi as int)
            ==> classify_spec(distance, left, right, counter, params)
                == Classification::TurnRight
                && next_counter_spec(counter, Classification::TurnRight) == 0,
        forall|d2: int, l2: RGB, r2: RGB| {
            let again = #[trigger] classify_spec(d2, l2, r2, 0, params);
            again != Classification::TurnLeft && again != Classification::TurnRight
        },
{
}

/// Obstacle detection is strict: the avoidance maneuver is classified
/// exactly when the distance reading is strictly below the threshold; a
/// reading exactly at the threshold keeps following the line.
pub proof fn lemma_obstacle_strict(
    distance: int,
    left: RGB,
    right: RGB,
    counter: u32,
    params: LineFollowParameters,
)
    ensures
        (classify_spec(distance, left, right, counter, params) == Classification::Obstacle)
            <==> distance < params.obstacle_threshold,
{
}

} // verus!
