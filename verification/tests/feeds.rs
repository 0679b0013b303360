use pista_feeds::alert::Alert;
use pista_feeds::backoff::{BackoffSchedule, Controller};
use pista_feeds::bluetooth::{DeviceState, State};
use pista_feeds::clock::Clock;
use pista_feeds::error::FeedError;
use pista_feeds::pipeline::{self, State as _};
use pista_feeds::weather::{Cli, UserAgent};

#[test]
fn device_state_byte_mapping() {
    assert_eq!(DeviceState::from_byte(0), Ok(DeviceState::OffSoft));
    assert_eq!(DeviceState::from_byte(1), Ok(DeviceState::On));
    assert_eq!(DeviceState::from_byte(2), Ok(DeviceState::OffHard));
    assert_eq!(DeviceState::from_byte(254), Ok(DeviceState::NoDev));
}

#[test]
fn device_state_invalid_bytes_are_errors() {
    assert_eq!(DeviceState::from_byte(3), Err(FeedError::InvalidStateByte(3)));
    assert_eq!(DeviceState::from_byte(7), Err(FeedError::InvalidStateByte(7)));
    assert_eq!(
        DeviceState::from_byte(255),
        Err(FeedError::InvalidStateByte(255))
    );
}

#[test]
fn rendered_symbols() {
    let mut s = State::new("b ".to_string());
    assert_eq!(s.display(), "b --\n");
    assert_eq!(s.update(Some(DeviceState::On)), Ok(None));
    assert_eq!(s.display(), "b on\n");
    assert_eq!(s.update(Some(DeviceState::OffSoft)), Ok(None));
    assert_eq!(s.display(), "b off\n");
    assert_eq!(s.update(Some(DeviceState::OffHard)), Ok(None));
    assert_eq!(s.display(), "b off\n");
    assert_eq!(s.update(Some(DeviceState::NoDev)), Ok(None));
    assert_eq!(s.display(), "b --\n");
    assert_eq!(s.update(None), Ok(None));
    assert_eq!(s.display(), "b --\n");
}

#[test]
fn display_is_pure_between_updates() {
    let mut s = State::new("bt ".to_string());
    s.update(Some(DeviceState::On)).unwrap();
    assert_eq!(s.display(), s.display());
}

#[test]
fn replay_yields_identical_output() {
    let results: Vec<Result<Option<DeviceState>, FeedError>> = vec![
        Ok(Some(DeviceState::On)),
        Ok(None),
        Err(FeedError::SourceReadFailed),
        Ok(Some(DeviceState::OffSoft)),
        Ok(Some(DeviceState::NoDev)),
    ];
    let first = pista_feeds::bluetooth::run("b ", &results);
    let second = pista_feeds::bluetooth::run("b ", &results);
    assert_eq!(first, second);
}

#[test]
fn scenario_steady_value_renders_identical_lines() {
    // Interval of 2 time units, the adapter always succeeds with the same
    // value: one identical line per tick.
    let clock = Clock::new(2);
    assert_eq!(clock.interval_s, 2);
    let results: Vec<Result<Option<DeviceState>, FeedError>> = vec![
        Ok(Some(DeviceState::On)),
        Ok(Some(DeviceState::On)),
        Ok(Some(DeviceState::On)),
    ];
    let lines = pista_feeds::bluetooth::run("b ", &results);
    assert_eq!(lines, vec!["b on\n", "b on\n", "b on\n"]);
}

#[test]
fn scenario_three_failures_then_success() {
    // Base delay 15, polling interval 1800: retries come 15, 30 and 60
    // units after the respective failures, and the first success resets the
    // schedule to the base delay and sleeps the polling interval.
    let mut c = Controller::new(15, 1800);
    c.timer_fired();
    assert_eq!(c.attempt_finished(false), 15);
    c.timer_fired();
    assert_eq!(c.attempt_finished(false), 30);
    c.timer_fired();
    assert_eq!(c.attempt_finished(false), 60);
    c.timer_fired();
    assert_eq!(c.attempt_finished(true), 1800);
    assert_eq!(c.schedule.curr_delay_s, 15);
    c.timer_fired();
    assert_eq!(c.attempt_finished(false), 15);
}

#[test]
fn scenario_malformed_byte_keeps_prior_line() {
    // A malformed device byte is an invariant violation: no line is
    // rendered for that cycle and the prior line stands.
    assert!(DeviceState::from_byte(7).is_err());
    let results: Vec<Result<Option<DeviceState>, FeedError>> = vec![
        Ok(Some(DeviceState::On)),
        Err(FeedError::InvalidStateByte(7)),
        Ok(Some(DeviceState::NoDev)),
    ];
    let lines = pista_feeds::bluetooth::run("b ", &results);
    assert_eq!(lines, vec!["b on\n", "b --\n"]);
}

#[test]
fn backoff_doubles_and_resets() {
    let mut b = BackoffSchedule::new(15);
    assert_eq!(b.on_failure(), 15);
    assert_eq!(b.curr_delay_s, 30);
    assert_eq!(b.on_failure(), 30);
    assert_eq!(b.curr_delay_s, 60);
    assert_eq!(b.on_failure(), 60);
    b.on_success();
    assert_eq!(b.curr_delay_s, 15);
    assert_eq!(b.initial_delay_s, 15);
}

#[test]
fn backoff_saturates_instead_of_overflowing() {
    let mut b = BackoffSchedule::new(u64::MAX / 2 + 1);
    assert_eq!(b.on_failure(), u64::MAX / 2 + 1);
    assert_eq!(b.curr_delay_s, u64::MAX);
    assert_eq!(b.on_failure(), u64::MAX);
    assert_eq!(b.curr_delay_s, u64::MAX);
}

#[test]
fn clock_hands_over_one_tick_at_a_time() {
    let mut clock = Clock::new(5);
    assert_eq!((clock.emitted, clock.consumed), (0, 0));
    let tick = clock.emit();
    assert_eq!((clock.emitted, clock.consumed), (1, 0));
    clock.consume(tick);
    assert_eq!((clock.emitted, clock.consumed), (1, 1));
    let tick = clock.emit();
    clock.consume(tick);
    assert_eq!((clock.emitted, clock.consumed), (2, 2));
}

#[test]
fn pipeline_step_renders_and_raises_no_alert() {
    let mut s = State::new("b ".to_string());
    let out = pipeline::step(&mut s, Some(DeviceState::On));
    assert_eq!(out.line, Some("b on\n".to_string()));
    assert!(out.alerts.is_empty());
}

#[test]
fn pipeline_run_collects_lines_and_alerts() {
    let mut s = State::new("b ".to_string());
    let events = vec![Some(DeviceState::On), None];
    let out = pipeline::run(&mut s, &events);
    assert_eq!(out.lines, vec!["b on\n", "b --\n"]);
    assert!(out.alerts.is_empty());
}

#[test]
fn alert_carries_its_message() {
    let a = Alert::new("battery low".to_string());
    assert_eq!(a.message, "battery low");
}

#[test]
fn user_agent_header_value() {
    let cli = Cli {
        station_id: "KBOS".to_string(),
        interval: 1800,
        summary_file: None,
        app_name: "pista-sensor-weather".to_string(),
        app_version: "HEAD".to_string(),
        app_url: "https://github.com/xandkar/pista-sensors".to_string(),
        admin_email: "user-has-not-provided-contact-info".to_string(),
    };
    let ua = UserAgent::from_cli(&cli);
    assert_eq!(
        ua.header_value(),
        "pista-sensor-weather/HEAD (https://github.com/xandkar/pista-sensors; \
         user-has-not-provided-contact-info)"
    );
}

#[test]
fn station_url_for_station() {
    assert_eq!(
        pista_feeds::weather::station_url("KBOS"),
        "https://api.weather.gov/stations/KBOS/observations/latest?require_qc=false"
    );
}

#[test]
fn retry_delay_base_value() {
    assert_eq!(pista_feeds::weather::RETRY_DELAY_S, 15);
}
