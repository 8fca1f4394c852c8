use sleep_timer::autostart::{autostart_entry_content, disable_autostart, enable_autostart};
use sleep_timer::clock::ClockTime;
use sleep_timer::display::format_remaining_min_sec;
use sleep_timer::text::{decimal_string, parse_u32_input, two_digit_string};

#[test]
fn reads_plain_and_decorated_integers() {
    assert_eq!(parse_u32_input("0"), Some(0));
    assert_eq!(parse_u32_input("42"), Some(42));
    assert_eq!(parse_u32_input("  7\t"), Some(7));
    assert_eq!(parse_u32_input("+12"), Some(12));
    assert_eq!(parse_u32_input("007"), Some(7));
    assert_eq!(parse_u32_input("4294967295"), Some(u32::MAX));
}

#[test]
fn rejects_text_that_is_no_u32() {
    assert_eq!(parse_u32_input(""), None);
    assert_eq!(parse_u32_input("   "), None);
    assert_eq!(parse_u32_input("+"), None);
    assert_eq!(parse_u32_input("-3"), None);
    assert_eq!(parse_u32_input("12a"), None);
    assert_eq!(parse_u32_input("1 2"), None);
    assert_eq!(parse_u32_input("4294967296"), None);
    assert_eq!(parse_u32_input("99999999999999999999"), None);
    assert_eq!(parse_u32_input("1e3"), None);
}

#[test]
fn writes_numbers_in_decimal() {
    assert_eq!(decimal_string(0), "0");
    assert_eq!(decimal_string(9), "9");
    assert_eq!(decimal_string(10), "10");
    assert_eq!(decimal_string(1439), "1439");
    assert_eq!(decimal_string(u32::MAX), "4294967295");
    assert_eq!(two_digit_string(0), "00");
    assert_eq!(two_digit_string(9), "09");
    assert_eq!(two_digit_string(59), "59");
    assert_eq!(two_digit_string(100), "100");
}

#[test]
fn formats_minutes_and_seconds() {
    assert_eq!(format_remaining_min_sec(30), "0 min 30 sec");
    assert_eq!(format_remaining_min_sec(90), "1 min 30 sec");
    assert_eq!(format_remaining_min_sec(0), "0 min 0 sec");
    assert_eq!(format_remaining_min_sec(3599), "59 min 59 sec");
}

#[test]
fn clock_time_components() {
    let t = ClockTime::from_hms(23, 59, 58);
    assert_eq!(t.seconds_of_day(), 86398);
    assert_eq!(t.hour(), 23);
    assert_eq!(t.minute(), 59);
    assert_eq!(t.second(), 58);
    let t = ClockTime::from_seconds_of_day(3661);
    assert_eq!((t.hour(), t.minute(), t.second()), (1, 1, 1));
}

#[test]
fn clock_time_minute_arithmetic() {
    let t = ClockTime::from_hms(10, 20, 30);
    assert_eq!(t.plus_minutes_truncated(0), ClockTime::from_hms(10, 20, 0));
    assert_eq!(t.plus_minutes_truncated(40), ClockTime::from_hms(11, 0, 0));
    assert_eq!(
        ClockTime::from_hms(23, 59, 59).plus_minutes_truncated(1),
        ClockTime::from_hms(0, 0, 0)
    );
    // a huge delay still lands inside the day
    let far = ClockTime::from_hms(0, 0, 0).plus_minutes_truncated(u32::MAX);
    assert!(far.seconds_of_day() < 86400);
    assert_eq!(far.seconds_of_day() % 60, 0);
}

#[test]
fn portable_autostart_always_declines() {
    assert_eq!(
        enable_autostart(),
        Err("autostart is not supported on this platform".to_string())
    );
    assert_eq!(
        disable_autostart(),
        Err("autostart is not supported on this platform".to_string())
    );
}

#[test]
fn desktop_entry_content_embeds_the_path() {
    assert_eq!(
        autostart_entry_content("/usr/bin/sleep_timer"),
        "[Desktop Entry]\nType=Application\nName=Sleep Timer\nExec=\"/usr/bin/sleep_timer\"\n"
    );
}
