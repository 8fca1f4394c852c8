use sleep_timer::clock::ClockTime;
use sleep_timer::display::format_remaining_min_sec;
use sleep_timer::engine::{CountdownEngine, EngineState, PersistedConfig, TickOutcome};
use sleep_timer::resolver::{SchedulingMode, ValidationError};

fn fresh_engine(mode: SchedulingMode, input: &str) -> CountdownEngine {
    let mut engine = CountdownEngine::new(PersistedConfig::default());
    engine.set_mode(mode);
    engine.set_input(input.to_string());
    engine
}

#[test]
fn one_minute_delay_scenario() {
    // mode=AfterDelay, input="1", now=12:00:00: start succeeds with target
    // 12:01:00; at 12:00:30 the engine stays armed showing "0 min 30 sec";
    // at 12:01:00 it fires, and a successful pipeline returns it to Idle.
    let mut engine = fresh_engine(SchedulingMode::AfterDelay, "1");
    let target = engine.start(ClockTime::from_hms(12, 0, 0)).unwrap();
    assert_eq!(target, ClockTime::from_hms(12, 1, 0));
    assert_eq!(engine.state, EngineState::Armed);
    assert!(engine.wants_ticks());

    let outcome = engine.tick(ClockTime::from_hms(12, 0, 30));
    assert_eq!(outcome, TickOutcome::Remaining(30));
    assert_eq!(engine.state, EngineState::Armed);
    assert_eq!(format_remaining_min_sec(30), "0 min 30 sec");

    let outcome = engine.tick(ClockTime::from_hms(12, 1, 0));
    assert_eq!(outcome, TickOutcome::Fire);
    assert_eq!(engine.state, EngineState::Firing);
    assert_eq!(engine.target, None);

    engine.finish_firing(Ok(()));
    assert_eq!(engine.state, EngineState::Idle);
    assert_eq!(engine.error, None);
}

#[test]
fn pipeline_failure_leaves_engine_errored() {
    let mut engine = fresh_engine(SchedulingMode::AfterDelay, "0");
    engine.start(ClockTime::from_hms(10, 0, 0)).unwrap();
    assert_eq!(engine.tick(ClockTime::from_hms(10, 0, 1)), TickOutcome::Fire);
    engine.finish_firing(Err("suspend failed: exit status 1".to_string()));
    assert_eq!(engine.state, EngineState::Errored);
    assert_eq!(engine.error.as_deref(), Some("suspend failed: exit status 1"));
    // an errored engine does not block re-arming
    engine.start(ClockTime::from_hms(10, 5, 0)).unwrap();
    assert_eq!(engine.state, EngineState::Armed);
    assert_eq!(engine.error, None);
}

#[test]
fn bad_clock_input_errors_without_target() {
    // mode=AtClockTime, input="25:00": start fails with a format error, the
    // engine is errored, and no target is held.
    let mut engine = fresh_engine(SchedulingMode::AtClockTime, "25:00");
    let r = engine.start(ClockTime::from_hms(12, 0, 0));
    assert_eq!(r, Err(ValidationError::BadTimeFormat));
    assert_eq!(engine.state, EngineState::Errored);
    assert_eq!(engine.target, None);
    assert_eq!(engine.error.as_deref(), Some("time must be given as HH:MM"));
    assert!(!engine.wants_ticks());
}

#[test]
fn start_while_armed_replaces_target() {
    // a second start abandons the prior target; only the new one is held
    let mut engine = fresh_engine(SchedulingMode::AfterDelay, "10");
    engine.start(ClockTime::from_hms(9, 0, 0)).unwrap();
    assert_eq!(engine.target, Some(ClockTime::from_hms(9, 10, 0)));

    engine.set_input("30".to_string());
    engine.start(ClockTime::from_hms(9, 1, 0)).unwrap();
    assert_eq!(engine.target, Some(ClockTime::from_hms(9, 31, 0)));
    assert_eq!(engine.state, EngineState::Armed);

    // the abandoned target does not fire
    let outcome = engine.tick(ClockTime::from_hms(9, 10, 0));
    assert_eq!(outcome, TickOutcome::Remaining(21 * 60));
}

#[test]
fn ticks_before_target_keep_engine_armed() {
    // repeated ticks before the target never leave Armed and never fire
    let mut engine = fresh_engine(SchedulingMode::AfterDelay, "2");
    engine.start(ClockTime::from_hms(12, 0, 0)).unwrap();
    for s in 1u32..=119 {
        let now = ClockTime::from_seconds_of_day(12 * 3600 + s);
        let outcome = engine.tick(now);
        assert_eq!(outcome, TickOutcome::Remaining(120 - s));
        assert_eq!(engine.state, EngineState::Armed);
        assert_eq!(engine.target, Some(ClockTime::from_hms(12, 2, 0)));
    }
}

#[test]
fn fires_exactly_once_across_crossing_ticks() {
    let mut engine = fresh_engine(SchedulingMode::AfterDelay, "1");
    engine.start(ClockTime::from_hms(12, 0, 0)).unwrap();
    let mut fires = 0;
    for s in [30u32, 59, 60, 61, 62] {
        let now = ClockTime::from_seconds_of_day(12 * 3600 + s);
        if engine.tick(now) == TickOutcome::Fire {
            fires += 1;
        }
    }
    assert_eq!(fires, 1);
    assert_eq!(engine.state, EngineState::Firing);
}

#[test]
fn tick_is_a_no_op_when_idle_or_errored() {
    let mut engine = fresh_engine(SchedulingMode::AfterDelay, "1");
    assert_eq!(engine.tick(ClockTime::from_hms(12, 0, 0)), TickOutcome::Inactive);
    assert_eq!(engine.state, EngineState::Idle);

    engine.set_input("oops".to_string());
    assert!(engine.start(ClockTime::from_hms(12, 0, 0)).is_err());
    assert_eq!(engine.tick(ClockTime::from_hms(12, 0, 0)), TickOutcome::Inactive);
    assert_eq!(engine.state, EngineState::Errored);
}

#[test]
fn mode_change_clears_target_and_error() {
    let mut engine = fresh_engine(SchedulingMode::AfterDelay, "5");
    engine.start(ClockTime::from_hms(12, 0, 0)).unwrap();
    engine.set_mode(SchedulingMode::AtClockTime);
    assert_eq!(engine.state, EngineState::Idle);
    assert_eq!(engine.target, None);
    assert_eq!(engine.error, None);

    // choosing the current mode again changes nothing
    engine.set_input("22:00".to_string());
    engine.start(ClockTime::from_hms(12, 0, 0)).unwrap();
    engine.set_mode(SchedulingMode::AtClockTime);
    assert_eq!(engine.state, EngineState::Armed);
    assert_eq!(engine.target, Some(ClockTime::from_hms(22, 0, 0)));
}

#[test]
fn config_round_trip_through_engine() {
    let config = PersistedConfig {
        mode: SchedulingMode::AtClockTime,
        last_input: "21:30".to_string(),
        auto_start: true,
    };
    let mut engine = CountdownEngine::new(config);
    assert_eq!(engine.mode, SchedulingMode::AtClockTime);
    assert_eq!(engine.input, "21:30");
    assert!(engine.auto_start);

    engine.set_auto_start(false);
    let saved = engine.config();
    assert_eq!(saved.mode, SchedulingMode::AtClockTime);
    assert_eq!(saved.last_input, "21:30");
    assert!(!saved.auto_start);
}

#[test]
fn default_config_is_delay_mode_with_empty_input() {
    let config = PersistedConfig::default();
    assert_eq!(config.mode, SchedulingMode::AfterDelay);
    assert_eq!(config.last_input, "");
    assert!(!config.auto_start);
}
