//! The shared encoder state and the target-sequencing rules.
//!
//! One owning `RotaryEncoderState` holds the bounded position counter, the
//! boolean flags, the operating parameters, and the target list with its
//! cursor. The per-tick evaluation (`tick`) decides the output level and
//! advances through targets and runs; its whole transition is pinned down by
//! `tick_spec`.

use vstd::prelude::*;

use crate::settings::{
    angle_millideg, clamp_number_of_runs, clamp_update_rate, lemma_target_steps_bounds,
    run_count_i32, target_steps, ForwardDirection, Settings,
};

verus! {

/// What the sampling loop must do to the output pin after one evaluation.
#[derive(Clone, Copy, Debug, PartialEq, Eq, Structural)]
pub enum OutputAction {
    SetHigh,
    SetLow,
    NoChange,
}

/// The one stable shape of the debug-reporting surface: the raw step count,
/// the angle it stands for, and whether debug reporting is on.
#[derive(Clone, Copy, Debug, PartialEq, Eq, Structural)]
pub struct DebugInfo {
    pub raw_value: i32,
    pub angle_millideg: i64,
    pub debug_mode: bool,
}

/// The encoder/sequencer state. Position is counted in decoder steps and
/// kept inside `[min_val, max_val]`; target angles are stored as step
/// counts.
pub struct RotaryEncoderState {
    pub value: i32,
    pub target_angles: Vec<i32>,
    pub current_target_index: usize,
    pub encoder_active: bool,
    pub output_on: bool,
    pub triggered: bool,
    pub reset_detected: bool,
    pub min_val: i32,
    pub max_val: i32,
    pub debug_mode: bool,
    pub settings: Settings,
    pub manual_output_override: bool,
    pub manual_output_state: bool,
    pub current_run: i32,
    pub total_runs: i32,
}

impl RotaryEncoderState {
    /// The state's invariant: the position stays inside its bounds (which
    /// admit the reset position 0), the target cursor never passes the end
    /// of the list, every stored target is at most one full turn of steps,
    /// and the run counter is never negative.
    pub open spec fn wf(self) -> bool {
        &&& self.min_val as int <= 0 <= self.max_val as int
        &&& self.min_val as int <= self.value as int <= self.max_val as int
        &&& self.current_target_index as int <= self.target_angles@.len()
        &&& forall|i: int|
            0 <= i < self.target_angles@.len() ==> 0 <= #[trigger] self.target_angles@[i] <= 720
        &&& self.current_run >= 0
    }

    /// A fresh, idle state with the given position bounds.
    pub fn new(min_val: i32, max_val: i32) -> (s: RotaryEncoderState)
        requires
            min_val <= 0 <= max_val,
        ensures
            s.wf(),
            s.min_val == min_val,
            s.max_val == max_val,
            s.value == min_val,
            s.target_angles@.len() == 0,
            s.current_target_index == 0,
            !s.encoder_active,
            !s.output_on,
            !s.triggered,
            !s.reset_detected,
            !s.debug_mode,
            s.settings == Settings::default_spec(),
            !s.manual_output_override,
            !s.manual_output_state,
            s.current_run == 0,
            s.total_runs == 1,
    {
        RotaryEncoderState {
            value: min_val,
            target_angles: Vec::new(),
            current_target_index: 0,
            encoder_active: false,
            output_on: false,
            triggered: false,
            reset_detected: false,
            min_val,
            max_val,
            debug_mode: false,
            settings: Settings::default(),
            manual_output_override: false,
            manual_output_state: false,
            current_run: 0,
            total_runs: 1,
        }
    }

    /// Overwrite the position; the caller keeps it inside the bounds.
    pub fn set_value(&mut self, val: i32)
        requires
            old(self).min_val as int <= val as int <= old(self).max_val as int,
        ensures
            *final(self) == (RotaryEncoderState { value: val, ..*old(self) }),
    {
        self.value = val;
    }

    /// The current position, in decoder steps.
    pub fn get_value(&self) -> (v: i32)
        ensures
            v == self.value,
    {
        self.value
    }

    /// The current angle in millidegrees: exactly the position divided by
    /// the step resolution.
    pub fn get_angle(&self) -> (a: i64)
        ensures
            a == angle_millideg(self.value as int, self.settings.step_mode),
    {
        (self.value as i64) * self.settings.step_mode.millideg_per_step_i64()
    }

    pub fn is_active(&self) -> (b: bool)
        ensures
            b == self.encoder_active,
    {
        self.encoder_active
    }

    pub fn is_output_on(&self) -> (b: bool)
        ensures
            b == self.output_on,
    {
        self.output_on
    }

    pub fn get_current_target_index(&self) -> (i: usize)
        ensures
            i == self.current_target_index,
    {
        self.current_target_index
    }

    pub fn set_debug_mode(&mut self, enabled: bool)
        ensures
            *final(self) == (RotaryEncoderState { debug_mode: enabled, ..*old(self) }),
    {
        self.debug_mode = enabled;
    }

    pub fn is_debug_mode(&self) -> (b: bool)
        ensures
            b == self.debug_mode,
    {
        self.debug_mode
    }

    /// Whether the current target has been reached and the output asserted.
    pub fn is_target_reached(&self) -> (b: bool)
        ensures
            b == self.triggered,
    {
        self.triggered
    }

    pub fn is_manual_output_override(&self) -> (b: bool)
        ensures
            b == self.manual_output_override,
    {
        self.manual_output_override
    }

    pub fn get_manual_output_state(&self) -> (b: bool)
        ensures
            b == self.manual_output_state,
    {
        self.manual_output_state
    }

    /// Engage manual control of the output with the desired level.
    pub fn set_manual_output(&mut self, state: bool)
        ensures
            *final(self) == (RotaryEncoderState {
                manual_output_override: true,
                manual_output_state: state,
                ..*old(self)
            }),
    {
        self.manual_output_override = true;
        self.manual_output_state = state;
    }

    /// Return the output to automatic control.
    pub fn clear_manual_output(&mut self)
        ensures
            *final(self) == (RotaryEncoderState { manual_output_override: false, ..*old(self) }),
    {
        self.manual_output_override = false;
    }

    pub fn get_current_run(&self) -> (r: i32)
        ensures
            r == self.current_run,
    {
        self.current_run
    }

    pub fn get_total_runs(&self) -> (r: i32)
        ensures
            r == self.total_runs,
    {
        self.total_runs
    }

    pub fn set_total_runs(&mut self, runs: i32)
        ensures
            *final(self) == (RotaryEncoderState { total_runs: runs, ..*old(self) }),
    {
        self.total_runs = runs;
    }

    pub fn increment_current_run(&mut self)
        requires
            old(self).current_run < 0x7fff_ffff,
        ensures
            *final(self) == (RotaryEncoderState {
                current_run: (old(self).current_run + 1) as i32,
                ..*old(self)
            }),
    {
        self.current_run = self.current_run + 1;
    }

    pub fn reset_current_run(&mut self)
        ensures
            *final(self) == (RotaryEncoderState { current_run: 0, ..*old(self) }),
    {
        self.current_run = 0;
    }

    /// A settings snapshot, with `debug_enabled` mirroring the live debug
    /// flag.
    pub fn get_settings(&self) -> (s: Settings)
        ensures
            s == (Settings { debug_enabled: self.debug_mode, ..self.settings }),
    {
        let mut s = self.settings;
        s.debug_enabled = self.debug_mode;
        s
    }

    /// Replace the settings. Out-of-range numbers are clamped rather than
    /// rejected: the evaluation period into [1, 200] ms and the run count to
    /// at least 1. The live debug flag follows the new `debug_enabled`.
    pub fn set_settings(&mut self, new_settings: Settings)
        ensures
            *final(self) == (RotaryEncoderState {
                settings: Settings {
                    update_rate_ms: clamp_update_rate(new_settings.update_rate_ms),
                    number_of_runs: clamp_number_of_runs(new_settings.number_of_runs),
                    ..new_settings
                },
                debug_mode: new_settings.debug_enabled,
                ..*old(self)
            }),
    {
        self.debug_mode = new_settings.debug_enabled;
        let mut s = new_settings;
        if s.update_rate_ms < 1 {
            s.update_rate_ms = 1;
        } else if s.update_rate_ms > 200 {
            s.update_rate_ms = 200;
        }
        if s.number_of_runs < 1 {
            s.number_of_runs = 1;
        }
        self.settings = s;
    }

    /// The given position delta clamped into the state's bounds.
    pub open spec fn bound_spec(self, value: int) -> int {
        if value < self.min_val as int {
            self.min_val as int
        } else if value > self.max_val as int {
            self.max_val as int
        } else {
            value
        }
    }

    fn bound(&self, value: i64) -> (r: i32)
        requires
            self.wf(),
            -0x1_0000_0000 <= value as int <= 0x1_0000_0000,
        ensures
            r as int == self.bound_spec(value as int),
    {
        if value < self.min_val as i64 {
            self.min_val
        } else if value > self.max_val as i64 {
            self.max_val
        } else {
            value as i32
        }
    }

    /// The signed delta a direction event contributes, after applying the
    /// configured forward sense.
    pub open spec fn adjusted_direction(self, direction: int) -> int {
        match self.settings.forward_direction {
            ForwardDirection::Clockwise => direction,
            ForwardDirection::CounterClockwise => -direction,
        }
    }

    /// Apply one decoder report to the position: the delta (sign-adjusted by
    /// the forward-direction setting) moves the position, clamped into
    /// `[min_val, max_val]` — so the position always stays inside its
    /// bounds, whatever sequence of direction events arrives.
    pub fn update_from_direction(&mut self, direction: i32)
        requires
            old(self).wf(),
        ensures
            final(self).wf(),
            *final(self) == (RotaryEncoderState {
                value: (if direction == 0 {
                    old(self).value as int
                } else {
                    old(self).bound_spec(
                        old(self).value + old(self).adjusted_direction(direction as int),
                    )
                }) as i32,
                ..*old(self)
            }),
    {
        if direction != 0 {
            let adjusted: i64 = match self.settings.forward_direction {
                ForwardDirection::Clockwise => direction as i64,
                ForwardDirection::CounterClockwise => -(direction as i64),
            };
            let new_value = self.bound(self.value as i64 + adjusted);
            self.value = new_value;
        }
    }

    /// What `stop` leaves behind: sequencing halted, output released, the
    /// position rezeroed, the trigger cleared, the run counter cleared, and
    /// any manual override cancelled. Everything else is untouched.
    pub open spec fn stop_spec(pre: Self) -> Self {
        RotaryEncoderState {
            encoder_active: false,
            output_on: false,
            value: 0,
            triggered: false,
            current_run: 0,
            manual_output_override: false,
            ..pre
        }
    }

    /// Halt the sequence unconditionally; the highest-priority transition,
    /// valid in every state.
    pub fn stop(&mut self)
        requires
            old(self).wf(),
        ensures
            final(self).wf(),
            *final(self) == Self::stop_spec(*old(self)),
    {
        self.encoder_active = false;
        self.output_on = false;
        self.value = 0;
        self.triggered = false;
        self.current_run = 0;
        self.manual_output_override = false;
    }

    /// Stopping is idempotent: a second `stop` on an already-stopped state
    /// changes nothing. Whatever the prior state, one `stop` leaves the
    /// sequence inactive, the output released, the trigger and the manual
    /// override cleared, the position at zero, and the run counter at zero.
    pub proof fn lemma_stop_idempotent(s: Self)
        ensures
            Self::stop_spec(Self::stop_spec(s)) == Self::stop_spec(s),
            !Self::stop_spec(s).encoder_active,
            !Self::stop_spec(s).output_on,
            !Self::stop_spec(s).triggered,
            !Self::stop_spec(s).manual_output_override,
            Self::stop_spec(s).value == 0,
            Self::stop_spec(s).current_run == 0,
    {
    }

    /// Install a new target sequence and start it: each requested angle is
    /// clamped to one turn and rounded to whole steps, the cursor and
    /// position are rezeroed, the trigger state is cleared, and run 1 of
    /// `settings.number_of_runs` begins.
    pub fn set_target_angles(&mut self, angles: Vec<i64>)
        requires
            old(self).wf(),
        ensures
            final(self).wf(),
            final(self).target_angles@.len() == angles@.len(),
            forall|i: int|
                0 <= i < angles@.len() ==> #[trigger] final(self).target_angles@[i] as int
                    == target_steps(angles@[i] as int, old(self).settings.step_mode),
            *final(self) == (RotaryEncoderState {
                target_angles: final(self).target_angles,
                current_target_index: 0,
                triggered: false,
                reset_detected: false,
                encoder_active: true,
                value: 0,
                current_run: 1,
                total_runs: run_count_i32(old(self).settings.number_of_runs) as i32,
                ..*old(self)
            }),
    {
        let multiplier = self.settings.step_mode.steps_per_degree_i64();
        let ghost mode = self.settings.step_mode;
        let mut targets: Vec<i32> = Vec::new();
        let mut i: usize = 0;
        while i < angles.len()
            invariant
                targets@.len() == i,
                i <= angles@.len(),
                multiplier == mode.steps_per_degree(),
                forall|j: int|
                    0 <= j < i ==> #[trigger] targets@[j] as int == target_steps(
                        angles@[j] as int,
                        mode,
                    ),
                forall|j: int| 0 <= j < i ==> 0 <= #[trigger] targets@[j] <= 720,
            decreases angles@.len() - i,
        {
            let angle = angles[i];
            let clamped: i64 = if angle < 0 {
                0
            } else if angle > 360000 {
                360000
            } else {
                angle
            };
            let steps = ((clamped * multiplier + 500) / 1000) as i32;
            proof {
                lemma_target_steps_bounds(angles@[i as int] as int, mode);
            }
            targets.push(steps);
            i = i + 1;
        }
        self.target_angles = targets;
        self.current_target_index = 0;
        self.triggered = false;
        self.reset_detected = false;
        self.encoder_active = true;
        self.value = 0;
        self.current_run = 1;
        self.total_runs = if self.settings.number_of_runs > 0x7fff_ffff {
            0x7fff_ffff
        } else {
            self.settings.number_of_runs as i32
        };
    }

    /// Read the stored targets back as millidegree angles; exact, because a
    /// stored target is a whole number of steps.
    pub fn get_target_angles(&self) -> (r: Vec<i64>)
        ensures
            r@.len() == self.target_angles@.len(),
            forall|i: int|
                0 <= i < r@.len() ==> #[trigger] r@[i] as int == angle_millideg(
                    self.target_angles@[i] as int,
                    self.settings.step_mode,
                ),
    {
        let per_step = self.settings.step_mode.millideg_per_step_i64();
        let mut r: Vec<i64> = Vec::new();
        let mut i: usize = 0;
        while i < self.target_angles.len()
            invariant
                r@.len() == i,
                i <= self.target_angles@.len(),
                per_step == self.settings.step_mode.millideg_per_step(),
                forall|j: int|
                    0 <= j < i ==> #[trigger] r@[j] as int == angle_millideg(
                        self.target_angles@[j] as int,
                        self.settings.step_mode,
                    ),
            decreases self.target_angles@.len() - i,
        {
            let t = self.target_angles[i];
            r.push((t as i64) * per_step);
            i = i + 1;
        }
        r
    }

    /// The debug-reporting snapshot: raw position, derived angle, and the
    /// live debug flag, taken together.
    pub fn get_debug_info(&self) -> (d: DebugInfo)
        ensures
            d.raw_value == self.value,
            d.angle_millideg == self.angle_now(),
            d.debug_mode == self.debug_mode,
    {
        DebugInfo {
            raw_value: self.value,
            angle_millideg: self.get_angle(),
            debug_mode: self.debug_mode,
        }
    }

    /// Whether the cursor points at a target.
    pub open spec fn has_current_target(self) -> bool {
        self.target_angles@.len() > 0 && (self.current_target_index as int)
            < self.target_angles@.len()
    }

    /// The target at the cursor, in steps.
    pub open spec fn current_target(self) -> int {
        self.target_angles@[self.current_target_index as int] as int
    }

    /// The current angle, in millidegrees.
    pub open spec fn angle_now(self) -> int {
        angle_millideg(self.value as int, self.settings.step_mode)
    }

    /// Whether the angle has fallen below the configured release threshold.
    pub open spec fn below_release_threshold(self) -> bool {
        self.angle_now() < self.settings.minimum_angle_threshold_millideg
    }

    /// The automatic output rule for one tick: assert the output the moment
    /// the position reaches the target; after that, release it when the
    /// angle drops below the threshold (if holding) or as soon as the
    /// position drops below the target (otherwise); with no pending trigger
    /// and the target not reached, keep the output released.
    pub open spec fn auto_output_rule(pre: Self) -> (Self, OutputAction) {
        if !pre.triggered && pre.value as int >= pre.current_target() {
            (RotaryEncoderState { output_on: true, triggered: true, ..pre }, OutputAction::SetHigh)
        } else if pre.triggered {
            if pre.settings.hold_output_until_threshold {
                if pre.below_release_threshold() {
                    (RotaryEncoderState { output_on: false, ..pre }, OutputAction::SetLow)
                } else {
                    (pre, OutputAction::NoChange)
                }
            } else {
                if (pre.value as int) < pre.current_target() {
                    (RotaryEncoderState { output_on: false, ..pre }, OutputAction::SetLow)
                } else {
                    (pre, OutputAction::NoChange)
                }
            }
        } else {
            (RotaryEncoderState { output_on: false, ..pre }, OutputAction::SetLow)
        }
    }

    /// The reset/advance rule, applied after the output rule: once the
    /// output was asserted and the angle has returned below the threshold
    /// (and the reset guard is not already armed), rezero the position, arm
    /// the guard, clear the trigger and any manual override, and move the
    /// cursor on. Past the last target, either the next run starts at the
    /// first target, or — with no runs left — the sequence stops. The second
    /// component reports whether it stopped.
    pub open spec fn reset_advance_rule(pre: Self) -> (Self, bool) {
        if pre.triggered && pre.below_release_threshold() && !pre.reset_detected {
            let s = RotaryEncoderState {
                value: 0,
                reset_detected: true,
                triggered: false,
                manual_output_override: false,
                current_target_index: (pre.current_target_index + 1) as usize,
                ..pre
            };
            if s.current_target_index as int >= s.target_angles@.len() {
                if s.current_run < s.total_runs {
                    (
                        RotaryEncoderState {
                            current_run: (s.current_run + 1) as i32,
                            current_target_index: 0,
                            ..s
                        },
                        false,
                    )
                } else {
                    (Self::stop_spec(s), true)
                }
            } else {
                (s, false)
            }
        } else {
            (pre, false)
        }
    }

    /// One whole evaluation tick. A manual override bypasses the automatic
    /// rules entirely: the output simply mirrors the desired state. While
    /// active with a target under the cursor, the output rule, the
    /// reset/advance rule, and the hysteresis rule (re-arm the reset guard
    /// once the pre-tick angle exceeds 5°) run in that order, all judging
    /// the angle read at the start of the tick. While active without a
    /// target nothing changes; while idle the output is kept released.
    pub open spec fn tick_spec(pre: Self) -> (Self, OutputAction) {
        if pre.manual_output_override {
            (
                RotaryEncoderState { output_on: pre.manual_output_state, ..pre },
                if pre.manual_output_state {
                    OutputAction::SetHigh
                } else {
                    OutputAction::SetLow
                },
            )
        } else if pre.encoder_active && pre.has_current_target() {
            let (s1, act) = Self::auto_output_rule(pre);
            let (s2, stopped) = Self::reset_advance_rule(s1);
            let s3 = if pre.angle_now() > 5000 {
                RotaryEncoderState { reset_detected: false, ..s2 }
            } else {
                s2
            };
            (
                s3,
                if stopped {
                    OutputAction::SetLow
                } else {
                    act
                },
            )
        } else if pre.encoder_active {
            (pre, OutputAction::NoChange)
        } else {
            (RotaryEncoderState { output_on: false, ..pre }, OutputAction::SetLow)
        }
    }

    /// The trigger rule in full: while active, not overridden, with a target
    /// under the cursor and no pending trigger, a tick taken with the
    /// position at or past the target asserts the output. The angle must
    /// still be at or above the release threshold at tick entry; otherwise
    /// the very same tick also runs the reset rule (a target smaller than
    /// the threshold), and the trigger does not survive to the tick's end.
    pub proof fn lemma_tick_asserts_at_target(pre: Self)
        requires
            pre.encoder_active,
            !pre.manual_output_override,
            pre.has_current_target(),
            !pre.triggered,
            pre.value as int >= pre.current_target(),
            !pre.below_release_threshold(),
        ensures
            Self::tick_spec(pre).1 == OutputAction::SetHigh,
            Self::tick_spec(pre).0.output_on,
            Self::tick_spec(pre).0.triggered,
    {
    }

    /// The reset/advance rule in full: while active, not overridden, with a
    /// target under the cursor, a tick taken with the trigger pending, the
    /// angle below the release threshold and the reset guard unarmed rezeroes
    /// the position, arms the guard, clears the trigger, and moves the cursor
    /// to the next target. Stated for a next index still inside the list (at
    /// the end of the list the cursor instead wraps to 0 for the next run, or
    /// the sequence stops) and a threshold of at most 5°, past which the
    /// hysteresis rule would re-clear the guard within the same tick.
    pub proof fn lemma_tick_reset_advances(pre: Self)
        requires
            pre.encoder_active,
            !pre.manual_output_override,
            pre.has_current_target(),
            pre.triggered,
            pre.below_release_threshold(),
            !pre.reset_detected,
            pre.current_target_index as int + 1 < pre.target_angles@.len(),
            pre.settings.minimum_angle_threshold_millideg <= 5000,
        ensures
            Self::tick_spec(pre).0.value == 0,
            Self::tick_spec(pre).0.reset_detected,
            !Self::tick_spec(pre).0.triggered,
            !Self::tick_spec(pre).0.manual_output_override,
            Self::tick_spec(pre).0.current_target_index as int == pre.current_target_index as int
                + 1,
            Self::tick_spec(pre).0.encoder_active,
    {
        // A vector never holds more than usize::MAX elements, so the
        // advanced cursor still fits its type.
        broadcast use vstd::std_specs::vec::axiom_spec_len;

        assert(pre.target_angles.len() == pre.target_angles@.len());
    }

    /// The trigger flag is only ever set at the moment the position has
    /// reached the active target, and only by the automatic rules (active,
    /// not overridden).
    pub proof fn lemma_trigger_only_at_target(pre: Self)
        requires
            !pre.triggered,
            Self::tick_spec(pre).0.triggered,
        ensures
            pre.encoder_active,
            !pre.manual_output_override,
            pre.has_current_target(),
            pre.value as int >= pre.current_target(),
    {
    }

    /// While the manual override is engaged, a tick bypasses the automatic
    /// rules entirely: the output mirrors the desired state and nothing else
    /// changes.
    pub proof fn lemma_manual_override_bypasses(pre: Self)
        requires
            pre.manual_output_override,
        ensures
            Self::tick_spec(pre).0 == (RotaryEncoderState {
                output_on: pre.manual_output_state,
                ..pre
            }),
            Self::tick_spec(pre).1 == (if pre.manual_output_state {
                OutputAction::SetHigh
            } else {
                OutputAction::SetLow
            }),
    {
    }

    /// Evaluate one tick and report what the sampling loop must do to the
    /// output pin. The entire transition follows `tick_spec`.
    pub fn tick(&mut self) -> (action: OutputAction)
        requires
            old(self).wf(),
        ensures
            final(self).wf(),
            *final(self) == Self::tick_spec(*old(self)).0,
            action == Self::tick_spec(*old(self)).1,
    {
        if self.is_manual_output_override() {
            let state = self.manual_output_state;
            self.output_on = state;
            if state {
                OutputAction::SetHigh
            } else {
                OutputAction::SetLow
            }
        } else if self.encoder_active && self.target_angles.len() > 0 && self.current_target_index
            < self.target_angles.len() {
            let target = self.target_angles[self.current_target_index];
            let steps = self.value;
            let angle = self.get_angle();
            let threshold = self.settings.minimum_angle_threshold_millideg;

            let action: OutputAction;
            if !self.triggered && steps >= target {
                self.output_on = true;
                self.triggered = true;
                action = OutputAction::SetHigh;
            } else if self.triggered {
                if self.settings.hold_output_until_threshold {
                    if angle < threshold {
                        self.output_on = false;
                        action = OutputAction::SetLow;
                    } else {
                        action = OutputAction::NoChange;
                    }
                } else {
                    if steps < target {
                        self.output_on = false;
                        action = OutputAction::SetLow;
                    } else {
                        action = OutputAction::NoChange;
                    }
                }
            } else {
                self.output_on = false;
                action = OutputAction::SetLow;
            }

            let mut stopped = false;
            if self.triggered && angle < threshold && !self.reset_detected {
                self.value = 0;
                self.reset_detected = true;
                self.triggered = false;
                self.manual_output_override = false;
                self.current_target_index = self.current_target_index + 1;
                if self.current_target_index >= self.target_angles.len() {
                    if self.current_run < self.total_runs {
                        self.current_run = self.current_run + 1;
                        self.current_target_index = 0;
                    } else {
                        self.stop();
                        stopped = true;
                    }
                }
            }
            if angle > 5000 {
                self.reset_detected = false;
            }
            if stopped {
                OutputAction::SetLow
            } else {
                action
            }
        } else if self.encoder_active {
            OutputAction::NoChange
        } else {
            self.output_on = false;
            OutputAction::SetLow
        }
    }
}

} // verus!
