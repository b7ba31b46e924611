use healthcheck::clock::{iso_timestamp, Weekday};
use healthcheck::schedule::{days_until_weekday, next_report, ReportPlan};

/// 2024-03-01 was a Friday; this is its midnight.
const FRIDAY: i64 = 1_709_251_200;
const HOUR: i64 = 3_600;
const DAY: i64 = 86_400;

const DAYS: [Weekday; 7] = [
    Weekday::Sun,
    Weekday::Mon,
    Weekday::Tue,
    Weekday::Wed,
    Weekday::Thu,
    Weekday::Fri,
    Weekday::Sat,
];

fn check_wait(plan: &ReportPlan, now: i64, nanos: u32) {
    let waited = (now as i128 + plan.wait_secs as i128) * 1_000_000_000
        + nanos as i128
        + plan.wait_nanos as i128;
    assert_eq!(waited, plan.target as i128 * 1_000_000_000);
    assert!(plan.wait_nanos < 1_000_000_000);
}

#[test]
fn days_until_each_weekday() {
    for (i, current) in DAYS.iter().enumerate() {
        for (j, target) in DAYS.iter().enumerate() {
            let days = days_until_weekday(*current, *target);
            assert_eq!((i + days as usize) % 7, j);
            assert!(days < 7);
        }
    }
    assert_eq!(days_until_weekday(Weekday::Sat, Weekday::Sun), 1);
    assert_eq!(days_until_weekday(Weekday::Mon, Weekday::Sun), 6);
    assert_eq!(days_until_weekday(Weekday::Wed, Weekday::Wed), 0);
}

#[test]
fn report_later_on_the_same_day() {
    let now = FRIDAY + 7 * HOUR + 59 * 60;
    let plan = next_report(now, 0, Weekday::Fri, 9);
    assert_eq!(plan.target, FRIDAY + 9 * HOUR);
    assert_eq!(plan.wait_secs, 61 * 60);
    assert_eq!(plan.wait_nanos, 0);
}

#[test]
fn report_of_the_day_has_gone_out() {
    let now = FRIDAY + 9 * HOUR + 1;
    let plan = next_report(now, 0, Weekday::Fri, 9);
    assert_eq!(plan.target, FRIDAY + 7 * DAY + 9 * HOUR);
    check_wait(&plan, now, 0);
}

#[test]
fn on_the_full_hour_the_next_report_is_a_week_away() {
    let now = FRIDAY + 9 * HOUR;
    let plan = next_report(now, 0, Weekday::Fri, 9);
    assert_eq!(plan.target, now + 7 * DAY);
    assert_eq!(plan.wait_secs, 7 * DAY as u64);
}

#[test]
fn report_on_another_day() {
    let now = FRIDAY + 22 * HOUR;
    let plan = next_report(now, 500, Weekday::Sun, 9);
    assert_eq!(plan.target, FRIDAY + 2 * DAY + 9 * HOUR);
    assert_eq!(iso_timestamp(plan.target as u64), "2024-03-03T09:00:00+00:00");
    assert_eq!(plan.wait_secs, 35 * HOUR as u64 - 1);
    assert_eq!(plan.wait_nanos, 999_999_500);
    check_wait(&plan, now, 500);
}

#[test]
fn report_before_1970() {
    // The last second of 1969, a Wednesday.
    let plan = next_report(-1, 0, Weekday::Wed, 23);
    assert_eq!(plan.target, 6 * DAY + 23 * HOUR);
    let plan = next_report(-2 * HOUR, 1, Weekday::Wed, 23);
    assert_eq!(plan.target, -HOUR);
    check_wait(&plan, -2 * HOUR, 1);
}

#[test]
fn next_report_is_the_first_to_come() {
    for step in 0..200 {
        let now = FRIDAY + step * 5_431;
        for day in DAYS {
            for hour in [0, 9, 23] {
                let plan = next_report(now, 3, day, hour);
                assert!(plan.target > now && plan.target <= now + 7 * DAY);
                assert_eq!(plan.target % HOUR, 0);
                assert_eq!(plan.target % DAY / HOUR, hour as i64);
                let weekday = (plan.target / DAY + 4) % 7;
                assert_eq!(weekday, day.num_days_from_sunday() as i64);
                check_wait(&plan, now, 3);
            }
        }
    }
}
