use healthcheck::clock::Weekday;
use healthcheck::settings::{
    check_reminder_times, database_path, flag_value, load_debounce_settings, load_poll_settings,
    load_reminder_settings, load_weekly_report_settings, weekday_value,
};

#[test]
fn poll_settings_by_default() {
    let settings = load_poll_settings(None, None);
    assert_eq!(settings.poll_interval_secs, 60);
    assert_eq!(settings.request_timeout_ms, 5_000);
}

#[test]
fn poll_settings_as_set() {
    let settings = load_poll_settings(Some("15"), Some("+750"));
    assert_eq!(settings.poll_interval_secs, 15);
    assert_eq!(settings.request_timeout_ms, 750);
}

#[test]
fn poll_settings_have_lower_bounds() {
    let settings = load_poll_settings(Some("0"), Some("499"));
    assert_eq!(settings.poll_interval_secs, 5);
    assert_eq!(settings.request_timeout_ms, 500);
}

#[test]
fn texts_that_are_no_numbers_are_ignored() {
    for text in ["", "+", "-1", " 7", "7 ", "7s", "1_000", "++1", "18446744073709551616", "٣"] {
        let settings = load_poll_settings(Some(text), Some(text));
        assert_eq!(settings.poll_interval_secs, 60, "{}", text);
        assert_eq!(settings.request_timeout_ms, 5_000, "{}", text);
    }
    let settings = load_poll_settings(Some("18446744073709551615"), Some("0000600"));
    assert_eq!(settings.poll_interval_secs, u64::MAX);
    assert_eq!(settings.request_timeout_ms, 600);
}

#[test]
fn reminder_settings_by_default() {
    let settings = load_reminder_settings(None, None, None, None);
    assert!(settings.enabled);
    assert_eq!(settings.outage_threshold_secs, 1_800);
    assert_eq!(settings.repeat_interval_secs, 1_800);
    assert_eq!(settings.check_interval_secs, 60);
}

#[test]
fn reminders_repeat_at_the_threshold_unless_set() {
    let settings = load_reminder_settings(None, Some("10"), Some("often"), Some("5"));
    assert_eq!(settings.outage_threshold_secs, 600);
    assert_eq!(settings.repeat_interval_secs, 600);
    assert_eq!(settings.check_interval_secs, 30);
    let settings = load_reminder_settings(None, Some("0"), Some("45"), None);
    assert_eq!(settings.outage_threshold_secs, 60);
    assert_eq!(settings.repeat_interval_secs, 2_700);
}

#[test]
fn reminder_times_must_fit() {
    let most = (u64::MAX / 60).to_string();
    let more = (u64::MAX / 60 + 1).to_string();
    assert!(check_reminder_times(None, None));
    assert!(check_reminder_times(Some(&most), Some(&most)));
    assert!(!check_reminder_times(Some(&more), Some("1")));
    assert!(!check_reminder_times(Some("1"), Some(&more)));
    assert!(!check_reminder_times(Some(&more), None));
    let settings = load_reminder_settings(None, Some(&most), None, None);
    assert_eq!(settings.outage_threshold_secs, u64::MAX / 60 * 60);
}

#[test]
fn switches_in_any_case() {
    for text in ["0", "false", "FALSE", "False", "off", "OFF"] {
        assert!(!load_reminder_settings(Some(text), None, None, None).enabled, "{}", text);
        assert!(!load_weekly_report_settings(Some(text), None, None).enabled, "{}", text);
    }
    for text in ["1", "true", "", "no", "off "] {
        assert!(load_reminder_settings(Some(text), None, None, None).enabled, "{}", text);
        assert!(load_weekly_report_settings(Some(text), None, None).enabled, "{}", text);
    }
    assert!(!flag_value("off"));
    assert!(flag_value("OFF"));
}

#[test]
fn grace_period() {
    assert_eq!(load_debounce_settings(None).grace_period_secs, 120);
    assert_eq!(load_debounce_settings(Some("0")).grace_period_secs, 0);
    assert_eq!(load_debounce_settings(Some("x")).grace_period_secs, 120);
}

#[test]
fn report_day_and_hour() {
    let settings = load_weekly_report_settings(None, None, None);
    assert!(settings.enabled);
    assert_eq!(settings.day, Weekday::Sun);
    assert_eq!(settings.hour, 9);
    let settings = load_weekly_report_settings(None, Some("WEDNESDAY"), Some("17"));
    assert_eq!(settings.day, Weekday::Wed);
    assert_eq!(settings.hour, 17);
    let settings = load_weekly_report_settings(None, Some("someday"), Some("24"));
    assert_eq!(settings.day, Weekday::Sun);
    assert_eq!(settings.hour, 23);
    let settings = load_weekly_report_settings(None, Some("Fri"), Some("4294967296"));
    assert_eq!(settings.day, Weekday::Fri);
    assert_eq!(settings.hour, 9);
}

#[test]
fn weekday_names() {
    let names = [
        ("monday", "mon", "1", Weekday::Mon),
        ("tuesday", "tue", "2", Weekday::Tue),
        ("wednesday", "wed", "3", Weekday::Wed),
        ("thursday", "thu", "4", Weekday::Thu),
        ("friday", "fri", "5", Weekday::Fri),
        ("saturday", "sat", "6", Weekday::Sat),
        ("sunday", "sun", "7", Weekday::Sun),
    ];
    for (full, short, number, day) in names {
        assert_eq!(weekday_value(full), Some(day));
        assert_eq!(weekday_value(short), Some(day));
        assert_eq!(weekday_value(number), Some(day));
    }
    assert_eq!(weekday_value("0"), Some(Weekday::Sun));
    assert_eq!(weekday_value("8"), None);
    assert_eq!(weekday_value("Monday"), None);
}

#[test]
fn database_path_has_a_default() {
    assert_eq!(database_path(None), "healthcheck.db");
    assert_eq!(database_path(Some("/var/lib/hc.db".to_string())), "/var/lib/hc.db");
}
