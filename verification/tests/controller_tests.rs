use rotary_control::controller::{OutputAction, RotaryEncoderState};
use rotary_control::settings::{ForwardDirection, Settings, StepMode};

/// Degrees to millidegrees, for writing test inputs the way an operator
/// would phrase them.
fn millideg(deg: f32) -> i64 {
    (deg as f64 * 1000.0).round() as i64
}

fn make_state_with_step_mode(mode: StepMode) -> RotaryEncoderState {
    let mut state = RotaryEncoderState::new(0, 720);
    let mut settings = Settings::default();
    settings.step_mode = mode;
    state.set_settings(settings);
    state
}

// --- StepMode default ---

#[test]
fn default_step_mode_is_full() {
    let settings = Settings::default();
    assert_eq!(settings.step_mode, StepMode::Full);
}

// --- set_target_angles: rounding instead of truncation ---

#[test]
fn target_angle_half_degree_full_mode_rounds_to_one_step() {
    // With Full mode (1 step per degree), 0.5° should round to 1 step, not
    // truncate to 0 (a zero target would trigger immediately at start).
    let mut state = make_state_with_step_mode(StepMode::Full);
    state.set_target_angles(vec![millideg(0.5)]);
    assert_eq!(
        state.target_angles[0], 1,
        "0.5° in Full mode must round to 1 step, not truncate to 0"
    );
}

#[test]
fn target_angle_zero_not_set_for_half_degree_full_mode() {
    let mut state = make_state_with_step_mode(StepMode::Full);
    state.set_target_angles(vec![millideg(0.5)]);
    assert_ne!(
        state.target_angles[0], 0,
        "Target of 0 steps would trigger immediately at start"
    );
}

#[test]
fn target_angle_one_degree_full_mode_is_one_step() {
    let mut state = make_state_with_step_mode(StepMode::Full);
    state.set_target_angles(vec![millideg(1.0)]);
    assert_eq!(state.target_angles[0], 1);
}

#[test]
fn target_angle_half_degree_half_mode_is_one_step() {
    let mut state = make_state_with_step_mode(StepMode::Half);
    state.set_target_angles(vec![millideg(0.5)]);
    assert_eq!(state.target_angles[0], 1);
}

#[test]
fn target_angle_one_degree_half_mode_is_two_steps() {
    let mut state = make_state_with_step_mode(StepMode::Half);
    state.set_target_angles(vec![millideg(1.0)]);
    assert_eq!(state.target_angles[0], 2);
}

#[test]
fn target_angle_45_degrees_full_mode() {
    let mut state = make_state_with_step_mode(StepMode::Full);
    state.set_target_angles(vec![millideg(45.0)]);
    assert_eq!(state.target_angles[0], 45);
}

#[test]
fn target_angle_45_degrees_half_mode() {
    let mut state = make_state_with_step_mode(StepMode::Half);
    state.set_target_angles(vec![millideg(45.0)]);
    assert_eq!(state.target_angles[0], 90);
}

// --- get_angle: correct degree conversion ---

#[test]
fn get_angle_full_mode_one_step_is_one_degree() {
    let mut state = make_state_with_step_mode(StepMode::Full);
    state.set_value(1);
    assert_eq!(state.get_angle(), millideg(1.0));
}

#[test]
fn get_angle_half_mode_two_steps_is_one_degree() {
    let mut state = make_state_with_step_mode(StepMode::Half);
    state.set_value(2);
    assert_eq!(state.get_angle(), millideg(1.0));
}

// --- get_target_angles: round-trip conversion ---

#[test]
fn get_target_angles_round_trip_full_mode() {
    let mut state = make_state_with_step_mode(StepMode::Full);
    state.set_target_angles(vec![millideg(45.0), millideg(90.0), millideg(180.0)]);
    let retrieved = state.get_target_angles();
    assert_eq!(retrieved, vec![millideg(45.0), millideg(90.0), millideg(180.0)]);
}

#[test]
fn get_target_angles_round_trip_half_mode() {
    let mut state = make_state_with_step_mode(StepMode::Half);
    state.set_target_angles(vec![millideg(45.0), millideg(90.0)]);
    let retrieved = state.get_target_angles();
    assert_eq!(retrieved, vec![millideg(45.0), millideg(90.0)]);
}

// --- angle clamping ---

#[test]
fn target_angle_negative_clamped_to_zero() {
    let mut state = make_state_with_step_mode(StepMode::Full);
    state.set_target_angles(vec![millideg(-10.0)]);
    assert_eq!(state.target_angles[0], 0);
}

#[test]
fn target_angle_above_360_clamped_to_360() {
    let mut state = make_state_with_step_mode(StepMode::Full);
    state.set_target_angles(vec![millideg(400.0)]);
    assert_eq!(state.target_angles[0], 360);
}

// --- update_from_direction ---

#[test]
fn update_from_direction_clockwise_increments() {
    let mut state = RotaryEncoderState::new(0, 720);
    state.update_from_direction(1);
    assert_eq!(state.get_value(), 1);
}

#[test]
fn update_from_direction_anticlockwise_decrements_clamped_at_min() {
    let mut state = RotaryEncoderState::new(0, 720);
    state.update_from_direction(-1);
    // Clamped at min_val=0
    assert_eq!(state.get_value(), 0);
}

// --- stop: highest priority ---

#[test]
fn stop_deactivates_output() {
    let mut state = RotaryEncoderState::new(0, 720);
    state.output_on = true;
    state.stop();
    assert!(
        !state.is_output_on(),
        "stop() must deactivate the output (set output_on to false)"
    );
}

#[test]
fn stop_clears_manual_output_override() {
    let mut state = RotaryEncoderState::new(0, 720);
    state.set_manual_output(true);
    assert!(state.is_manual_output_override());
    state.stop();
    assert!(
        !state.is_manual_output_override(),
        "stop() must clear manual output override (Stop has highest priority)"
    );
}

#[test]
fn stop_clears_manual_output_override_when_output_off() {
    let mut state = RotaryEncoderState::new(0, 720);
    state.set_manual_output(false);
    assert!(state.is_manual_output_override());
    state.stop();
    assert!(
        !state.is_manual_output_override(),
        "stop() must clear manual output override regardless of manual state"
    );
}

#[test]
fn stop_deactivates_encoder() {
    let mut state = RotaryEncoderState::new(0, 720);
    state.set_target_angles(vec![millideg(45.0)]);
    assert!(state.is_active());
    state.stop();
    assert!(!state.is_active(), "stop() must deactivate the encoder");
}

// --- stop: idempotence and full reset ---

#[test]
fn stop_is_idempotent() {
    let mut state = RotaryEncoderState::new(0, 720);
    state.set_target_angles(vec![millideg(45.0)]);
    state.set_manual_output(true);
    state.set_value(30);
    state.stop();
    let after_once = (
        state.is_active(),
        state.is_output_on(),
        state.is_target_reached(),
        state.is_manual_output_override(),
        state.get_value(),
        state.get_current_run(),
    );
    state.stop();
    let after_twice = (
        state.is_active(),
        state.is_output_on(),
        state.is_target_reached(),
        state.is_manual_output_override(),
        state.get_value(),
        state.get_current_run(),
    );
    assert_eq!(after_once, (false, false, false, false, 0, 0));
    assert_eq!(after_twice, after_once);
}

#[test]
fn stop_clears_triggered() {
    let mut state = make_state_with_step_mode(StepMode::Full);
    state.set_target_angles(vec![millideg(45.0)]);
    drive_to(&mut state, 45);
    state.tick();
    assert!(state.is_target_reached());
    state.stop();
    assert!(
        !state.is_target_reached(),
        "stop() must clear the trigger; target_reached would report a stale true while idle"
    );
}

// --- settings ---

#[test]
fn set_settings_clamps_update_rate() {
    let mut state = RotaryEncoderState::new(0, 720);
    let mut settings = Settings::default();
    settings.update_rate_ms = 500;
    state.set_settings(settings);
    assert_eq!(state.get_settings().update_rate_ms, 200);
    settings.update_rate_ms = 0;
    state.set_settings(settings);
    assert_eq!(state.get_settings().update_rate_ms, 1);
    settings.update_rate_ms = 50;
    state.set_settings(settings);
    assert_eq!(state.get_settings().update_rate_ms, 50);
}

#[test]
fn set_settings_clamps_number_of_runs_to_one() {
    let mut state = RotaryEncoderState::new(0, 720);
    let mut settings = Settings::default();
    settings.number_of_runs = 0;
    state.set_settings(settings);
    assert_eq!(state.get_settings().number_of_runs, 1);
    state.set_target_angles(vec![millideg(45.0)]);
    assert_eq!(state.get_total_runs(), 1);
    assert_eq!(state.get_current_run(), 1);
    settings.number_of_runs = 3;
    state.set_settings(settings);
    assert_eq!(state.get_settings().number_of_runs, 3);
}

#[test]
fn get_settings_mirrors_debug_mode() {
    let mut state = RotaryEncoderState::new(0, 720);
    state.set_debug_mode(true);
    assert!(state.get_settings().debug_enabled);
    state.set_debug_mode(false);
    assert!(!state.get_settings().debug_enabled);
}

// --- manual override ---

#[test]
fn manual_override_mirrors_desired_state_while_idle() {
    let mut state = RotaryEncoderState::new(0, 720);
    state.set_manual_output(true);
    assert_eq!(state.tick(), OutputAction::SetHigh);
    assert!(state.is_output_on());
    state.set_manual_output(false);
    assert_eq!(state.tick(), OutputAction::SetLow);
    assert!(!state.is_output_on());
}

#[test]
fn manual_override_bypasses_automatic_rules() {
    let mut state = make_state_with_step_mode(StepMode::Full);
    state.set_target_angles(vec![millideg(45.0)]);
    state.set_value(45);
    state.set_manual_output(false);
    // Position is at the target, but the override forces the output low and
    // the trigger state stays untouched.
    assert_eq!(state.tick(), OutputAction::SetLow);
    assert!(!state.is_output_on());
    assert!(!state.is_target_reached());
    // Clearing the override resumes automatic control.
    state.clear_manual_output();
    assert_eq!(state.tick(), OutputAction::SetHigh);
    assert!(state.is_output_on());
    assert!(state.is_target_reached());
}

// --- end-to-end sequencing ---

fn drive_to(state: &mut RotaryEncoderState, steps: i32) {
    while state.get_value() < steps {
        state.update_from_direction(1);
    }
    while state.get_value() > steps {
        state.update_from_direction(-1);
    }
}

#[test]
fn end_to_end_single_run_two_targets() {
    let mut state = make_state_with_step_mode(StepMode::Full);
    state.set_target_angles(vec![millideg(45.0), millideg(90.0)]);
    assert!(state.is_active());
    assert_eq!(state.get_current_run(), 1);
    assert_eq!(state.get_total_runs(), 1);

    // Reach the first target: output asserted.
    drive_to(&mut state, 45);
    assert_eq!(state.tick(), OutputAction::SetHigh);
    assert!(state.is_output_on());
    assert!(state.is_target_reached());

    // Return below the 2.5° threshold: reset, advance to the second target.
    drive_to(&mut state, 2);
    assert_eq!(state.tick(), OutputAction::SetLow);
    assert!(!state.is_target_reached());
    assert_eq!(state.get_value(), 0);
    assert_eq!(state.get_current_target_index(), 1);
    assert!(state.is_active());

    // Reach the second target: output asserted again.
    drive_to(&mut state, 90);
    assert_eq!(state.tick(), OutputAction::SetHigh);
    assert!(state.is_output_on());

    // Return below the threshold a second time: the run is complete.
    drive_to(&mut state, 2);
    assert_eq!(state.tick(), OutputAction::SetLow);
    assert!(!state.is_active());
    assert!(!state.is_output_on());
    assert_eq!(state.get_current_run(), 0);
}

#[test]
fn end_to_end_two_runs_repeats_target_list() {
    let mut state = make_state_with_step_mode(StepMode::Full);
    let mut settings = state.get_settings();
    settings.number_of_runs = 2;
    state.set_settings(settings);
    state.set_target_angles(vec![millideg(45.0), millideg(90.0)]);
    assert_eq!(state.get_total_runs(), 2);

    // First pass over both targets.
    drive_to(&mut state, 45);
    state.tick();
    drive_to(&mut state, 2);
    state.tick();
    drive_to(&mut state, 90);
    state.tick();
    drive_to(&mut state, 2);
    state.tick();

    // Instead of stopping, the second run begins at the first target.
    assert!(state.is_active());
    assert_eq!(state.get_current_run(), 2);
    assert_eq!(state.get_current_target_index(), 0);

    // Second pass completes the sequence.
    drive_to(&mut state, 45);
    state.tick();
    drive_to(&mut state, 2);
    state.tick();
    drive_to(&mut state, 90);
    state.tick();
    drive_to(&mut state, 2);
    state.tick();

    assert!(!state.is_active());
    assert!(!state.is_output_on());
    assert_eq!(state.get_current_run(), 0);
}

#[test]
fn hold_output_until_threshold_keeps_output_high() {
    let mut state = make_state_with_step_mode(StepMode::Full);
    let mut settings = state.get_settings();
    settings.hold_output_until_threshold = true;
    state.set_settings(settings);
    state.set_target_angles(vec![millideg(45.0)]);

    drive_to(&mut state, 45);
    assert_eq!(state.tick(), OutputAction::SetHigh);

    // Below the target but above the 2.5° threshold: the output holds.
    drive_to(&mut state, 10);
    assert_eq!(state.tick(), OutputAction::NoChange);
    assert!(state.is_output_on());

    // Below the threshold: released (and the run completes).
    drive_to(&mut state, 2);
    assert_eq!(state.tick(), OutputAction::SetLow);
    assert!(!state.is_output_on());
}

#[test]
fn release_without_hold_as_soon_as_below_target() {
    let mut state = make_state_with_step_mode(StepMode::Full);
    state.set_target_angles(vec![millideg(45.0)]);

    drive_to(&mut state, 45);
    assert_eq!(state.tick(), OutputAction::SetHigh);

    // One step below the target: released immediately, even though the
    // angle is far above the reset threshold.
    drive_to(&mut state, 44);
    assert_eq!(state.tick(), OutputAction::SetLow);
    assert!(!state.is_output_on());
    // No reset happened: still on the first target, position kept.
    assert_eq!(state.get_current_target_index(), 0);
    assert_eq!(state.get_value(), 44);
}

#[test]
fn position_clamped_at_max() {
    let mut state = RotaryEncoderState::new(0, 720);
    state.set_value(720);
    state.update_from_direction(1);
    assert_eq!(state.get_value(), 720);
}

#[test]
fn counterclockwise_forward_direction_inverts_delta() {
    let mut state = RotaryEncoderState::new(0, 720);
    let mut settings = state.get_settings();
    settings.forward_direction = ForwardDirection::CounterClockwise;
    state.set_settings(settings);
    state.set_value(10);
    state.update_from_direction(1);
    assert_eq!(state.get_value(), 9);
    state.update_from_direction(-1);
    assert_eq!(state.get_value(), 10);
}

#[test]
fn inactive_without_override_keeps_output_released() {
    let mut state = RotaryEncoderState::new(0, 720);
    state.output_on = true;
    assert_eq!(state.tick(), OutputAction::SetLow);
    assert!(!state.is_output_on());
}

#[test]
fn debug_info_reports_position_angle_and_flag() {
    let mut state = make_state_with_step_mode(StepMode::Half);
    state.set_value(3);
    state.set_debug_mode(true);
    let info = state.get_debug_info();
    assert_eq!(info.raw_value, 3);
    assert_eq!(info.angle_millideg, millideg(1.5));
    assert!(info.debug_mode);
}
