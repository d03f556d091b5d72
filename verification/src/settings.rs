//! Operating parameters and the exact degree/step conversion rules.
//!
//! Degrees are represented as integer millidegrees (1° = 1000). A target
//! angle is stored as a whole number of decoder steps, obtained by clamping
//! the requested angle to [0°, 360°] and rounding (never truncating) after
//! scaling by the step resolution.

use vstd::prelude::*;

verus! {

/// Which physical rotation sense counts as forward (position-increasing).
#[derive(Clone, Copy, Debug, PartialEq, Eq, Structural)]
pub enum ForwardDirection {
    Clockwise,
    CounterClockwise,
}

/// Decoding granularity: one step per degree, or two.
#[derive(Clone, Copy, Debug, PartialEq, Eq, Structural)]
pub enum StepMode {
    Full,
    Half,
}

/// Idle level of the output pin.
#[derive(Clone, Copy, Debug, PartialEq, Eq, Structural)]
pub enum PinState {
    Low,
    High,
}

impl StepMode {
    /// Steps per degree: 1 in `Full` mode, 2 in `Half` mode.
    pub open spec fn steps_per_degree(self) -> int {
        match self {
            StepMode::Full => 1,
            StepMode::Half => 2,
        }
    }

    /// Millidegrees swept by one step: 1000 in `Full` mode, 500 in `Half` mode.
    pub open spec fn millideg_per_step(self) -> int {
        match self {
            StepMode::Full => 1000,
            StepMode::Half => 500,
        }
    }

    pub fn steps_per_degree_i64(&self) -> (r: i64)
        ensures
            r == self.steps_per_degree(),
    {
        match self {
            StepMode::Full => 1,
            StepMode::Half => 2,
        }
    }

    pub fn millideg_per_step_i64(&self) -> (r: i64)
        ensures
            r == self.millideg_per_step(),
    {
        match self {
            StepMode::Full => 1000,
            StepMode::Half => 500,
        }
    }
}

/// The operating parameters, owned by the configuration store. Angular
/// quantities are in millidegrees; `tick_size_multiplier_milli` is a
/// dimensionless factor scaled by 1000.
#[derive(Clone, Copy, Debug, PartialEq, Eq, Structural)]
pub struct Settings {
    pub forward_direction: ForwardDirection,
    pub step_mode: StepMode,
    pub output_pin: u8,
    pub output_default_state: PinState,
    pub minimum_angle_threshold_millideg: i64,
    pub hold_output_until_threshold: bool,
    pub debug_enabled: bool,
    pub num_target_angles: u8,
    pub tick_size_multiplier_milli: u32,
    pub number_of_runs: u32,
    pub update_rate_ms: u32,
}

impl Settings {
    /// The power-on configuration: full-step clockwise decoding, a 2.5°
    /// release threshold, a single run, and a 200 ms evaluation period.
    pub open spec fn default_spec() -> Settings {
        Settings {
            forward_direction: ForwardDirection::Clockwise,
            step_mode: StepMode::Full,
            output_pin: 32,
            output_default_state: PinState::Low,
            minimum_angle_threshold_millideg: 2500,
            hold_output_until_threshold: false,
            debug_enabled: false,
            num_target_angles: 1,
            tick_size_multiplier_milli: 2000,
            number_of_runs: 1,
            update_rate_ms: 200,
        }
    }
}

impl Default for Settings {
    fn default() -> (s: Settings)
        ensures
            s == Settings::default_spec(),
    {
        Settings {
            forward_direction: ForwardDirection::Clockwise,
            step_mode: StepMode::Full,
            output_pin: 32,
            output_default_state: PinState::Low,
            minimum_angle_threshold_millideg: 2500,
            hold_output_until_threshold: false,
            debug_enabled: false,
            num_target_angles: 1,
            tick_size_multiplier_milli: 2000,
            number_of_runs: 1,
            update_rate_ms: 200,
        }
    }
}

/// The evaluation period is kept inside [1, 200] ms: out-of-range requests
/// are clamped, not rejected.
pub open spec fn clamp_update_rate(ms: u32) -> u32 {
    if ms < 1 {
        1u32
    } else if ms > 200 {
        200u32
    } else {
        ms
    }
}

/// The run count is kept at least 1: a request of 0 runs is clamped, not
/// rejected.
pub open spec fn clamp_number_of_runs(number_of_runs: u32) -> u32 {
    if number_of_runs < 1 {
        1u32
    } else {
        number_of_runs
    }
}

/// The configured run count as it is copied into the (signed) run counter,
/// saturated at the counter's maximum.
pub open spec fn run_count_i32(number_of_runs: u32) -> int {
    if number_of_runs > 0x7fff_ffff {
        0x7fff_ffff
    } else {
        number_of_runs as int
    }
}

/// A requested target angle, clamped to one turn.
pub open spec fn clamp_to_turn(millideg: int) -> int {
    if millideg < 0 {
        0
    } else if millideg > 360000 {
        360000
    } else {
        millideg
    }
}

/// The stored step count for a requested angle: clamp to [0°, 360°], scale
/// by the step resolution, and round to the nearest whole step (halves
/// round up, so a half-degree request in full-step mode becomes one step,
/// never zero).
pub open spec fn target_steps(millideg: int, mode: StepMode) -> int {
    (clamp_to_turn(millideg) * mode.steps_per_degree() + 500) / 1000
}

/// The angle a step count stands for, in millidegrees; exact, because one
/// step is a whole number of millidegrees in both modes.
pub open spec fn angle_millideg(steps: int, mode: StepMode) -> int {
    steps * mode.millideg_per_step()
}

/// The reported angle times the step resolution is exactly the position
/// scaled to millidegrees: `angle = position / steps_per_degree` holds with
/// no rounding in either step mode.
pub proof fn lemma_angle_exact(steps: int, mode: StepMode)
    ensures
        angle_millideg(steps, mode) * mode.steps_per_degree() == steps * 1000,
{
    match mode {
        StepMode::Full => {
            assert(steps * 1000 * 1 == steps * 1000) by (nonlinear_arith);
        },
        StepMode::Half => {
            assert(steps * 500 * 2 == steps * 1000) by (nonlinear_arith);
        },
    }
}

/// Every stored target lies in [0, 360 * steps_per_degree].
pub proof fn lemma_target_steps_bounds(millideg: int, mode: StepMode)
    ensures
        0 <= target_steps(millideg, mode) <= 360 * mode.steps_per_degree(),
{
}

/// Requests below 0° are stored as target 0; requests above 360° are stored
/// as the full-turn target `360 * steps_per_degree`.
pub proof fn lemma_target_steps_clamped(millideg: int, mode: StepMode)
    ensures
        millideg <= 0 ==> target_steps(millideg, mode) == 0,
        millideg >= 360000 ==> target_steps(millideg, mode) == 360 * mode.steps_per_degree(),
{
}

/// Storing a whole-step angle and reading it back is the identity: a target
/// of `t` steps reports exactly the angle that converts back to `t` steps.
pub proof fn lemma_target_round_trip(t: int, mode: StepMode)
    requires
        0 <= t <= 360 * mode.steps_per_degree(),
    ensures
        target_steps(angle_millideg(t, mode), mode) == t,
{
}

/// Round trip on the angle side: an angle that is a whole number of steps
/// survives conversion to steps and back unchanged.
pub proof fn lemma_angle_round_trip(millideg: int, mode: StepMode)
    requires
        0 <= millideg <= 360000,
        millideg % mode.millideg_per_step() == 0,
    ensures
        angle_millideg(target_steps(millideg, mode), mode) == millideg,
{
    let per = mode.millideg_per_step();
    let t = millideg / per;
    assert(t * per == millideg) by (nonlinear_arith)
        requires
            per > 0,
            millideg % per == 0,
            t == millideg / per,
    ;
    assert(0 <= t <= 360 * mode.steps_per_degree()) by (nonlinear_arith)
        requires
            t * per == millideg,
            0 <= millideg <= 360000,
            per == mode.millideg_per_step(),
            per * mode.steps_per_degree() == 1000,
            per > 0,
    ;
    lemma_target_round_trip(t, mode);
}

} // verus!
