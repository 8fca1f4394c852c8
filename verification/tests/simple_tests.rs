use sleep_timer::display::format_remaining;
use sleep_timer::simple::{parse_total_seconds, SimpleTimer};

#[test]
fn parses_hours_and_minutes_to_seconds() {
    assert_eq!(parse_total_seconds("1", "30"), Ok(5400));
    assert_eq!(parse_total_seconds("0", "1"), Ok(60));
    assert_eq!(parse_total_seconds("0", "0"), Ok(0));
    assert_eq!(parse_total_seconds(" 2 ", " 05 "), Ok(7500));
}

#[test]
fn rejects_bad_hours_and_minutes() {
    assert_eq!(
        parse_total_seconds("x", "0"),
        Err("Hours must be a non-negative integer.".to_string())
    );
    assert_eq!(
        parse_total_seconds("-1", "0"),
        Err("Hours must be a non-negative integer.".to_string())
    );
    assert_eq!(
        parse_total_seconds("0", "y"),
        Err("Minutes must be a non-negative integer.".to_string())
    );
    assert_eq!(
        parse_total_seconds("", "0"),
        Err("Hours must be a non-negative integer.".to_string())
    );
}

#[test]
fn rejects_minutes_of_an_hour_or_more() {
    // hours "0", minutes "65": the minutes field must stay below 60
    assert_eq!(
        parse_total_seconds("0", "65"),
        Err("Minutes must be less than 60.".to_string())
    );
    assert_eq!(
        parse_total_seconds("1", "60"),
        Err("Minutes must be less than 60.".to_string())
    );
}

#[test]
fn rejects_a_duration_beyond_u32_seconds() {
    assert_eq!(
        parse_total_seconds("1193047", "0"),
        Err("The timer duration is too large.".to_string())
    );
    assert_eq!(parse_total_seconds("1193046", "0"), Ok(1193046 * 3600));
}

#[test]
fn zero_duration_only_sets_the_error() {
    let mut timer = SimpleTimer::new();
    timer.set_hours("0".to_string());
    timer.set_minutes("0".to_string());
    timer.start_pressed();
    assert_eq!(
        timer.error.as_deref(),
        Some("Please enter a duration greater than zero.")
    );
    assert_eq!(timer.remaining_seconds, None);
    assert!(!timer.wants_ticks());
}

#[test]
fn bad_minutes_field_surfaces_its_message() {
    let mut timer = SimpleTimer::new();
    timer.set_minutes("65".to_string());
    timer.start_pressed();
    assert_eq!(timer.error.as_deref(), Some("Minutes must be less than 60."));
    assert_eq!(timer.remaining_seconds, None);
}

#[test]
fn countdown_runs_to_the_fire() {
    let mut timer = SimpleTimer::new();
    timer.set_hours("0".to_string());
    timer.set_minutes("1".to_string());
    timer.start_pressed();
    assert_eq!(timer.remaining_seconds, Some(60));
    assert!(timer.wants_ticks());

    let mut fires = 0;
    for _ in 0..60 {
        if timer.tick() {
            fires += 1;
        }
    }
    assert_eq!(fires, 1);
    assert!(timer.finished);
    assert_eq!(timer.remaining_seconds, None);
    assert!(!timer.wants_ticks());

    // further ticks change nothing and never fire again
    assert!(!timer.tick());
    assert!(timer.finished);

    timer.sleep_finished(Err("systemctl suspend exited with status: 1".to_string()));
    assert_eq!(
        timer.error.as_deref(),
        Some("systemctl suspend exited with status: 1")
    );
    timer.sleep_finished(Ok(()));
    assert_eq!(timer.error, None);
}

#[test]
fn editing_a_field_clears_the_error() {
    let mut timer = SimpleTimer::new();
    timer.set_minutes("bad".to_string());
    timer.start_pressed();
    assert!(timer.error.is_some());
    timer.set_minutes("5".to_string());
    assert_eq!(timer.error, None);
}

#[test]
fn formats_remaining_time_padded() {
    assert_eq!(format_remaining(0), "00:00:00 remaining");
    assert_eq!(format_remaining(3723), "01:02:03 remaining");
    assert_eq!(format_remaining(59), "00:00:59 remaining");
    assert_eq!(format_remaining(3600), "01:00:00 remaining");
    assert_eq!(format_remaining(360000), "100:00:00 remaining");
}
