use healthcheck::clock::{
    current_timestamp, format_duration, iso_timestamp, iso_timestamp_or, timestamp_of_reading, to_signed,
    to_unsigned, Weekday,
};
use healthcheck::text::decimal;

#[test]
fn decimal_writes_numbers() {
    assert_eq!(decimal(0), "0");
    assert_eq!(decimal(9), "9");
    assert_eq!(decimal(10), "10");
    assert_eq!(decimal(1203), "1203");
    assert_eq!(decimal(u128::MAX), u128::MAX.to_string());
}

#[test]
fn iso_timestamp_is_rfc3339_in_utc() {
    assert_eq!(iso_timestamp(0), "1970-01-01T00:00:00+00:00");
    assert_eq!(iso_timestamp(1_431_648_000), "2015-05-15T00:00:00+00:00");
    assert_eq!(iso_timestamp(1_709_210_096), "2024-02-29T12:34:56+00:00");
}

#[test]
fn iso_timestamp_reads_high_bits_as_sign() {
    assert_eq!(iso_timestamp(u64::MAX), "1969-12-31T23:59:59+00:00");
}

#[test]
fn iso_timestamp_covers_the_whole_calendar() {
    assert_eq!(iso_timestamp(8_210_266_876_799), "+262142-12-31T23:59:59+00:00");
    assert_eq!(iso_timestamp((-8_334_601_228_800_i64) as u64), "-262143-01-01T00:00:00+00:00");
}

#[test]
fn another_text_stands_in_outside_the_calendar() {
    let other = || "some day".to_string();
    assert_eq!(iso_timestamp_or(1_709_210_096, other()), "2024-02-29T12:34:56+00:00");
    assert_eq!(iso_timestamp_or(8_210_266_876_799, other()), "+262142-12-31T23:59:59+00:00");
    assert_eq!(iso_timestamp_or(8_210_266_876_800, other()), "some day");
    assert_eq!(iso_timestamp_or((-8_334_601_228_801_i64) as u64, other()), "some day");
}

#[test]
fn iso_timestamp_outside_the_calendar_is_the_present() {
    for ts in [8_210_266_876_800_u64, i64::MAX as u64, (-8_334_601_228_801_i64) as u64] {
        let text = iso_timestamp(ts);
        assert!(text.starts_with("20"), "{}", text);
        assert!(text.ends_with("+00:00"), "{}", text);
    }
}

#[test]
fn current_timestamp_is_in_this_century() {
    let now = current_timestamp();
    assert!(now > 1_700_000_000);
    assert!(now < 4_102_444_800);
}

#[test]
fn a_clock_before_1970_reads_zero() {
    assert_eq!(timestamp_of_reading(None), 0);
    assert_eq!(timestamp_of_reading(Some(77)), 77);
}

#[test]
fn timestamps_keep_their_bits() {
    for ts in [0, 1, i64::MAX as u64, i64::MAX as u64 + 1, u64::MAX] {
        assert_eq!(to_unsigned(to_signed(ts)), ts);
    }
    assert_eq!(to_signed(u64::MAX), -1);
    assert_eq!(to_unsigned(i64::MIN), 1 << 63);
}

#[test]
fn durations_in_hours_and_minutes() {
    assert_eq!(format_duration(0), "0m");
    assert_eq!(format_duration(59), "0m");
    assert_eq!(format_duration(60), "1m");
    assert_eq!(format_duration(3_599), "59m");
    assert_eq!(format_duration(3_600), "1h 0m");
    assert_eq!(format_duration(90_061), "25h 1m");
}

#[test]
fn weekdays_count_from_sunday() {
    let days = [
        Weekday::Sun,
        Weekday::Mon,
        Weekday::Tue,
        Weekday::Wed,
        Weekday::Thu,
        Weekday::Fri,
        Weekday::Sat,
    ];
    for (i, day) in days.iter().enumerate() {
        assert_eq!(day.num_days_from_sunday(), i as u32);
    }
}
