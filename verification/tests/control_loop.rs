use thermal_calibrator::control::{
    concat_chunks, CalibrationPayload, CalibrationStep, ControlLoop, ControlOp, Phase, Stage, TickOutcome,
    TickReading, NANOS_PER_SECOND, TICK_INTERVAL_MS,
};

const SECOND: u64 = NANOS_PER_SECOND;

fn step(target_value: f32, dwell_duration: u32) -> CalibrationStep<f32> {
    CalibrationStep { target_value, dwell_duration }
}

fn reading(clock: u64, is_stable: bool) -> TickReading<f32> {
    TickReading {
        timestamp: 1_700_000_000_000 + clock / 1_000_000,
        clock,
        reference_temperature: Some(25.0),
        is_stable,
        chunks: vec![],
    }
}

fn in_first_step(steps: Vec<CalibrationStep<f32>>) -> ControlLoop<f32> {
    let mut ctl = ControlLoop::new(steps, 0.0);
    assert_eq!(ctl.poll(true), ControlOp::EnableHeating);
    assert!(matches!(ctl.poll(true), ControlOp::SetSetpoint(_)));
    ctl
}

fn emitted(outcome: TickOutcome<f32>) -> CalibrationPayload<f32> {
    match outcome {
        TickOutcome::Emit(payload) => payload,
        other => panic!("no snapshot: {:?}", other),
    }
}

#[test]
fn timing_constants() {
    assert_eq!(TICK_INTERVAL_MS, 1000);
    assert_eq!(NANOS_PER_SECOND, 1_000_000_000);
}

#[test]
fn phase_tokens() {
    assert_eq!(Phase::Ramp.token(), "RAMPA");
    assert_eq!(Phase::Dwell.token(), "DWELL");
}

#[test]
fn chunks_are_joined_in_order() {
    assert_eq!(concat_chunks(&vec![vec![1, 2], vec![], vec![3], vec![4, 5, 6]]), vec![1, 2, 3, 4, 5, 6]);
    assert_eq!(concat_chunks(&vec![]), Vec::<u8>::new());
    assert_eq!(concat_chunks(&vec![vec![], vec![]]), Vec::<u8>::new());
}

#[test]
fn one_step_of_one_minute_runs_to_its_end() {
    let mut ctl = ControlLoop::new(vec![step(60.0, 1)], 0.0);
    assert_eq!(ctl.stage(), Stage::Created);
    assert_eq!(ctl.poll(true), ControlOp::EnableHeating);
    assert_eq!(ctl.poll(true), ControlOp::SetSetpoint(60.0));
    assert_eq!(ctl.stage(), Stage::InStep);

    // The bath is not yet stable: three ticks of ramp.
    for second in 0..3u64 {
        assert_eq!(ctl.poll(true), ControlOp::Measure);
        let snapshot = emitted(ctl.tick(reading(second * SECOND, false)));
        assert_eq!(snapshot.phase, Phase::Ramp);
        assert_eq!(snapshot.elapsed_dwell_seconds, 0);
        assert_eq!(snapshot.total_dwell_seconds, 60);
        assert_eq!(snapshot.step_index, 1);
        assert_eq!(snapshot.total_steps, 1);
        assert!(!snapshot.is_stable);
    }

    // The bath turns stable at T = 3 s: the dwell begins there.
    let stable_at = 3 * SECOND;
    assert_eq!(ctl.poll(true), ControlOp::Measure);
    let snapshot = emitted(ctl.tick(reading(stable_at, true)));
    assert_eq!(snapshot.phase, Phase::Dwell);
    assert_eq!(snapshot.elapsed_dwell_seconds, 0);
    assert!(snapshot.is_stable);
    assert_eq!(ctl.phase(), Phase::Dwell);

    // Fifty-nine ticks of dwell, one second apart.
    for second in 1..60u64 {
        assert_eq!(ctl.poll(true), ControlOp::Measure);
        let snapshot = emitted(ctl.tick(reading(stable_at + second * SECOND, true)));
        assert_eq!(snapshot.phase, Phase::Dwell);
        assert_eq!(snapshot.elapsed_dwell_seconds, second);
        assert_eq!(snapshot.total_dwell_seconds, 60);
    }
    assert_eq!(ctl.completed_steps(), 0);

    // At T + 60 s the step is complete and the run ends with heating off.
    assert_eq!(ctl.poll(true), ControlOp::Measure);
    assert_eq!(ctl.tick(reading(stable_at + 60 * SECOND, true)), TickOutcome::StepComplete);
    assert_eq!(ctl.completed_steps(), 1);
    assert_eq!(ctl.stage(), Stage::StepDone);
    assert_eq!(ctl.poll(true), ControlOp::DisableHeating);
    assert_eq!(ctl.poll(true), ControlOp::Finish);
    assert_eq!(ctl.stage(), Stage::Done);
    assert_eq!(ctl.poll(true), ControlOp::Finish);
}

#[test]
fn dwell_is_not_over_one_nanosecond_early() {
    let mut ctl = in_first_step(vec![step(60.0, 1)]);
    emitted(ctl.tick(reading(5, true)));
    let snapshot = emitted(ctl.tick(reading(5 + 60 * SECOND - 1, true)));
    assert_eq!(snapshot.elapsed_dwell_seconds, 59);
    assert_eq!(ctl.tick(reading(5 + 60 * SECOND, true)), TickOutcome::StepComplete);
}

#[test]
fn elapsed_time_counts_whole_seconds() {
    let mut ctl = in_first_step(vec![step(60.0, 2)]);
    emitted(ctl.tick(reading(1_000, true)));
    assert_eq!(emitted(ctl.tick(reading(1_000 + SECOND - 1, true))).elapsed_dwell_seconds, 0);
    assert_eq!(emitted(ctl.tick(reading(1_000 + SECOND, true))).elapsed_dwell_seconds, 1);
    assert_eq!(emitted(ctl.tick(reading(1_000 + 2 * SECOND - 1, true))).elapsed_dwell_seconds, 1);
    let snapshot = emitted(ctl.tick(reading(1_000 + 119 * SECOND + 999_999_999, true)));
    assert_eq!(snapshot.elapsed_dwell_seconds, 119);
    assert_eq!(snapshot.total_dwell_seconds, 120);
}

#[test]
fn clock_before_the_dwell_start_counts_as_zero() {
    let mut ctl = in_first_step(vec![step(60.0, 1)]);
    emitted(ctl.tick(reading(10 * SECOND, true)));
    let snapshot = emitted(ctl.tick(reading(2 * SECOND, true)));
    assert_eq!(snapshot.phase, Phase::Dwell);
    assert_eq!(snapshot.elapsed_dwell_seconds, 0);
}

#[test]
fn step_without_dwell_ends_on_the_tick_after_stability() {
    let mut ctl = in_first_step(vec![step(30.0, 0), step(40.0, 0)]);
    let snapshot = emitted(ctl.tick(reading(0, false)));
    assert_eq!(snapshot.phase, Phase::Ramp);
    assert_eq!(snapshot.total_dwell_seconds, 0);
    let snapshot = emitted(ctl.tick(reading(SECOND, true)));
    assert_eq!(snapshot.phase, Phase::Dwell);
    assert_eq!(snapshot.elapsed_dwell_seconds, 0);
    assert_eq!(ctl.poll(true), ControlOp::Measure);
    assert_eq!(ctl.tick(reading(SECOND, false)), TickOutcome::StepComplete);
    assert_eq!(ctl.completed_steps(), 1);
}

#[test]
fn dwell_does_not_fall_back_to_ramp() {
    let mut ctl = in_first_step(vec![step(60.0, 1)]);
    emitted(ctl.tick(reading(0, true)));
    let flags = [false, false, true, false, true, true, false];
    for (i, flag) in flags.iter().enumerate() {
        assert_eq!(ctl.poll(true), ControlOp::Measure);
        let snapshot = emitted(ctl.tick(reading((i as u64 + 1) * SECOND, *flag)));
        assert_eq!(snapshot.phase, Phase::Dwell);
        assert_eq!(snapshot.is_stable, *flag);
        assert_eq!(snapshot.elapsed_dwell_seconds, i as u64 + 1);
        assert_eq!(ctl.phase(), Phase::Dwell);
    }
}

#[test]
fn dwell_starts_at_the_first_stable_reading_only() {
    let mut ctl = in_first_step(vec![step(60.0, 1)]);
    emitted(ctl.tick(reading(7 * SECOND, true)));
    emitted(ctl.tick(reading(8 * SECOND, false)));
    let snapshot = emitted(ctl.tick(reading(10 * SECOND, true)));
    assert_eq!(snapshot.elapsed_dwell_seconds, 3);
}

#[test]
fn cleared_flag_inside_a_step_stops_the_run() {
    let mut ctl = in_first_step(vec![step(60.0, 1), step(70.0, 1)]);
    emitted(ctl.tick(reading(0, false)));
    assert_eq!(ctl.poll(false), ControlOp::DisableHeating);
    assert_eq!(ctl.stage(), Stage::Stopping);
    assert_eq!(ctl.poll(true), ControlOp::Finish);
    assert_eq!(ctl.poll(true), ControlOp::Finish);
    assert_eq!(ctl.completed_steps(), 0);
}

#[test]
fn cleared_flag_after_a_step_stops_the_run() {
    let mut ctl = in_first_step(vec![step(60.0, 0), step(70.0, 1)]);
    emitted(ctl.tick(reading(0, true)));
    assert_eq!(ctl.tick(reading(1, true)), TickOutcome::StepComplete);
    assert_eq!(ctl.poll(false), ControlOp::DisableHeating);
    assert_eq!(ctl.poll(false), ControlOp::Finish);
    assert_eq!(ctl.completed_steps(), 1);
}

#[test]
fn first_setpoint_is_programmed_whatever_the_flag() {
    let mut ctl = ControlLoop::new(vec![step(60.0, 1)], 0.0);
    assert_eq!(ctl.poll(false), ControlOp::EnableHeating);
    assert_eq!(ctl.poll(false), ControlOp::SetSetpoint(60.0));
    assert_eq!(ctl.poll(false), ControlOp::DisableHeating);
    assert_eq!(ctl.poll(false), ControlOp::Finish);
}

#[test]
fn run_without_steps_only_toggles_heating() {
    let mut ctl: ControlLoop<f32> = ControlLoop::new(vec![], 0.0);
    assert_eq!(ctl.poll(true), ControlOp::EnableHeating);
    assert_eq!(ctl.poll(true), ControlOp::DisableHeating);
    assert_eq!(ctl.poll(true), ControlOp::Finish);
}

#[test]
fn steps_run_in_the_order_given() {
    let mut ctl = ControlLoop::new(vec![step(30.0, 0), step(20.0, 0), step(50.0, 0)], 0.0);
    assert_eq!(ctl.poll(true), ControlOp::EnableHeating);
    for (i, target) in [30.0f32, 20.0, 50.0].iter().enumerate() {
        assert_eq!(ctl.poll(true), ControlOp::SetSetpoint(*target));
        assert_eq!(ctl.phase(), Phase::Ramp);
        assert_eq!(ctl.poll(true), ControlOp::Measure);
        let snapshot = emitted(ctl.tick(reading(0, true)));
        assert_eq!(snapshot.step_index, i + 1);
        assert_eq!(snapshot.total_steps, 3);
        assert_eq!(ctl.poll(true), ControlOp::Measure);
        assert_eq!(ctl.tick(reading(0, true)), TickOutcome::StepComplete);
    }
    assert_eq!(ctl.poll(true), ControlOp::DisableHeating);
    assert_eq!(ctl.poll(true), ControlOp::Finish);
}

#[test]
fn next_step_starts_in_ramp() {
    let mut ctl = in_first_step(vec![step(30.0, 0), step(40.0, 1)]);
    emitted(ctl.tick(reading(0, true)));
    assert_eq!(ctl.tick(reading(SECOND, true)), TickOutcome::StepComplete);
    assert_eq!(ctl.poll(true), ControlOp::SetSetpoint(40.0));
    let snapshot = emitted(ctl.tick(reading(2 * SECOND, false)));
    assert_eq!(snapshot.phase, Phase::Ramp);
    assert_eq!(snapshot.elapsed_dwell_seconds, 0);
    assert_eq!(snapshot.step_index, 2);
    assert_eq!(snapshot.total_dwell_seconds, 60);
}

#[test]
fn snapshot_carries_the_reading() {
    let mut ctl = in_first_step(vec![step(60.0, 3)]);
    let outcome = ctl.tick(TickReading {
        timestamp: 1_234_567,
        clock: 99,
        reference_temperature: Some(59.97),
        is_stable: false,
        chunks: vec![vec![0x40], vec![0x00, 0x00], vec![0x07, 0xAA]],
    });
    assert_eq!(
        outcome,
        TickOutcome::Emit(CalibrationPayload {
            timestamp: 1_234_567,
            reference_temperature: 59.97,
            sensor_samples: vec![16384, 7],
            is_stable: false,
            step_index: 1,
            total_steps: 1,
            elapsed_dwell_seconds: 0,
            total_dwell_seconds: 180,
            phase: Phase::Ramp,
        })
    );
}

#[test]
fn tick_without_sensor_data_reports_no_samples() {
    let mut ctl = in_first_step(vec![step(60.0, 1)]);
    assert_eq!(emitted(ctl.tick(reading(0, false))).sensor_samples, Vec::<u16>::new());
}

#[test]
fn missing_bath_reading_degrades_to_the_stand_in() {
    let mut ctl = ControlLoop::new(vec![step(60.0, 1)], -1.5f32);
    ctl.poll(true);
    ctl.poll(true);
    let mut gathered = reading(0, true);
    gathered.reference_temperature = None;
    let snapshot = emitted(ctl.tick(gathered));
    assert_eq!(snapshot.reference_temperature, -1.5);
    assert_eq!(snapshot.phase, Phase::Dwell);
    let mut ctl = in_first_step(vec![step(60.0, 1)]);
    let mut gathered = reading(0, false);
    gathered.reference_temperature = None;
    assert_eq!(emitted(ctl.tick(gathered)).reference_temperature, 0.0);
}

#[test]
fn longest_dwell_does_not_overflow() {
    let mut ctl = in_first_step(vec![step(60.0, u32::MAX)]);
    emitted(ctl.tick(reading(0, true)));
    let snapshot = emitted(ctl.tick(reading(u64::MAX, true)));
    assert_eq!(snapshot.total_dwell_seconds, u32::MAX as u64 * 60);
    assert_eq!(snapshot.elapsed_dwell_seconds, u64::MAX / SECOND);
}

#[test]
fn tick_outside_a_step_is_idle() {
    let mut ctl = ControlLoop::new(vec![step(60.0, 1)], 0.0);
    assert_eq!(ctl.tick(reading(0, true)), TickOutcome::Idle);
    assert_eq!(ctl.stage(), Stage::Created);
    ctl.poll(true);
    assert_eq!(ctl.tick(reading(0, true)), TickOutcome::Idle);
    ctl.poll(true);
    ctl.poll(false);
    assert_eq!(ctl.tick(reading(0, true)), TickOutcome::Idle);
    assert_eq!(ctl.stage(), Stage::Stopping);
    ctl.poll(false);
    assert_eq!(ctl.tick(reading(0, true)), TickOutcome::Idle);
    assert_eq!(ctl.stage(), Stage::Done);
}

#[test]
fn lost_bath_ends_the_run_through_heating_off() {
    let mut ctl = in_first_step(vec![step(60.0, 1), step(70.0, 1)]);
    emitted(ctl.tick(reading(0, true)));
    ctl.bath_failed();
    assert_eq!(ctl.stage(), Stage::Failed);
    assert_eq!(ctl.tick(reading(SECOND, true)), TickOutcome::Idle);
    assert_eq!(ctl.poll(true), ControlOp::DisableHeating);
    assert_eq!(ctl.poll(true), ControlOp::Finish);
    assert_eq!(ctl.stage(), Stage::Done);
    assert_eq!(ctl.completed_steps(), 0);
}

#[test]
fn bath_lost_before_the_first_command_sends_no_setpoint() {
    let mut ctl = ControlLoop::new(vec![step(60.0, 1)], 0.0);
    ctl.bath_failed();
    assert_eq!(ctl.poll(true), ControlOp::DisableHeating);
    assert_eq!(ctl.poll(true), ControlOp::Finish);
}

#[test]
fn late_report_of_a_lost_bath_changes_nothing() {
    let mut ctl = in_first_step(vec![step(60.0, 1)]);
    assert_eq!(ctl.poll(false), ControlOp::DisableHeating);
    ctl.bath_failed();
    assert_eq!(ctl.stage(), Stage::Stopping);
    assert_eq!(ctl.poll(true), ControlOp::Finish);
    ctl.bath_failed();
    assert_eq!(ctl.stage(), Stage::Done);
}
