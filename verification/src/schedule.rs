//! When the next weekly report goes out.

use vstd::prelude::*;

use crate::clock::{
    day_number, hour_of, in_calendar, utc_hour, utc_weekday, weekday_number, Weekday, DAY_SECS,
};

verus! {

/// The days from one weekday to the next time the other comes, 0 if they are
/// the same.
pub open spec fn days_between(current: int, target: int) -> int {
    (target - current) % 7
}

/// The days from one weekday to the next time the other comes.
pub fn days_until_weekday(current: Weekday, target: Weekday) -> (days: u32)
    ensures
        days == days_between(current.from_sunday(), target.from_sunday()),
        days < 7,
        (current.from_sunday() + days) % 7 == target.from_sunday(),
{
    let current_num: u32 = current.num_days_from_sunday();
    let target_num: u32 = target.num_days_from_sunday();
    if target_num >= current_num {
        target_num - current_num
    } else {
        7 - (current_num - target_num)
    }
}

/// The days from a point in time to the day of the next report: none if it is
/// due later on the same day, a week if the hour of the report has come.
pub open spec fn days_ahead(now: int, day: Weekday, hour: int) -> int {
    let days = days_between(weekday_number(now), day.from_sunday());
    if days == 0 && hour_of(now) >= hour {
        7
    } else {
        days
    }
}

/// When the next report is due, in seconds since 1970.
pub open spec fn report_time(now: int, day: Weekday, hour: int) -> int {
    (day_number(now) + days_ahead(now, day, hour)) * DAY_SECS + hour * 3600
}

/// When the next report goes out.
#[derive(Debug)]
pub struct ReportPlan {
    /// The time of the report, in seconds since 1970.
    pub target: i64,
    /// Whole seconds to wait until then.
    pub wait_secs: u64,
    /// Nanoseconds to wait on top of the whole seconds.
    pub wait_nanos: u32,
}

/// Whether the next report after a point in time can be planned: the hour is
/// one of the day, and neither the present nor the day of the report is past
/// the end of the calendar.
pub open spec fn can_plan(now_secs: i64, now_nanos: u32, day: Weekday, hour: u32) -> bool {
    &&& hour <= 23
    &&& now_nanos < 1_000_000_000
    &&& in_calendar(now_secs as int)
    &&& in_calendar(now_secs + days_ahead(now_secs as int, day, hour as int) * DAY_SECS)
}

/// Whether a plan is the one for the next report: it names the time of the
/// report, and waiting as it says leads to that time exactly.
pub open spec fn is_next_plan(
    plan: ReportPlan,
    now_secs: i64,
    now_nanos: u32,
    day: Weekday,
    hour: u32,
) -> bool {
    &&& plan.target == report_time(now_secs as int, day, hour as int)
    &&& plan.wait_nanos < 1_000_000_000
    &&& (now_secs + plan.wait_secs) * 1_000_000_000 + now_nanos + plan.wait_nanos == plan.target
        * 1_000_000_000
}

/// Works out when the next report is due and how long to wait for it. The
/// present time is given in seconds since 1970 and nanoseconds.
pub fn next_report(now_secs: i64, now_nanos: u32, day: Weekday, hour: u32) -> (plan: ReportPlan)
    requires
        can_plan(now_secs, now_nanos, day, hour),
    ensures
        is_next_plan(plan, now_secs, now_nanos, day, hour),
        plan.wait_nanos < 1_000_000_000,
        (now_secs + plan.wait_secs) * 1_000_000_000 + now_nanos + plan.wait_nanos == plan.target
            * 1_000_000_000,
        now_secs < plan.target <= now_secs + 604_800,
        plan.target % 86_400 == hour * 3600,
        (plan.target as int / 86_400 + 4) % 7 == day.from_sunday(),
{
    let days_until: u32 = days_until_weekday(utc_weekday(now_secs), day);
    let ahead: i64 = if days_until == 0 && utc_hour(now_secs) >= hour {
        7
    } else {
        days_until as i64
    };
    let since_midnight: i64 = now_secs.checked_rem_euclid(DAY_SECS).unwrap();
    let midnight: i64 = now_secs - since_midnight;
    let target: i64 = midnight + ahead * DAY_SECS + hour as i64 * 3600;
    let apart: i64 = target - now_secs;
    assert(target == report_time(now_secs as int, day, hour as int));
    proof {
        law_report_time_by_the_calendar(now_secs as int, day, hour as int);
    }
    if now_nanos == 0 {
        ReportPlan { target, wait_secs: apart as u64, wait_nanos: 0 }
    } else {
        ReportPlan { target, wait_secs: (apart - 1) as u64, wait_nanos: 1_000_000_000 - now_nanos }
    }
}

/// Whether a report may go out at a point in time: on the given weekday, on the
/// full hour.
pub open spec fn is_report_time(secs: int, day: Weekday, hour: int) -> bool {
    &&& weekday_number(secs) == day.from_sunday()
    &&& hour_of(secs) == hour
    &&& secs % 3600 == 0
}

/// Counting the days on from a weekday leads to the other one, and no smaller
/// count does.
pub proof fn law_days_between_leads_to_target(current: Weekday, target: Weekday)
    ensures
        ({
            let days = days_between(current.from_sunday(), target.from_sunday());
            &&& 0 <= days < 7
            &&& (current.from_sunday() + days) % 7 == target.from_sunday()
            &&& forall|fewer: int|
                0 <= fewer < days ==> #[trigger] ((current.from_sunday() + fewer) % 7)
                    != target.from_sunday()
        }),
{
}

/// The next report is the first one to come: it is due on the right weekday at
/// the right hour, later than now and within a week, and no such time lies
/// between.
#[verifier::spinoff_prover]
#[verifier::rlimit(40)]
pub proof fn law_report_time_is_next(now: int, day: Weekday, hour: int)
    requires
        0 <= hour <= 23,
    ensures
        is_report_time(report_time(now, day, hour), day, hour),
        now < report_time(now, day, hour) <= now + 7 * DAY_SECS,
        forall|secs: int|
            now < secs && #[trigger] is_report_time(secs, day, hour) ==> report_time(now, day, hour)
                <= secs,
{
    let target = report_time(now, day, hour);
    let today = day_number(now);
    let ahead = days_ahead(now, day, hour);
    assert(day_number(target) == today + ahead);
    assert(target % DAY_SECS as int == hour * 3600);
    assert forall|secs: int|
        now < secs && #[trigger] is_report_time(secs, day, hour) implies target <= secs by {
        let then = day_number(secs);
        assert(secs == then * DAY_SECS + hour * 3600);
        if secs < target {
            assert(today <= then < today + ahead);
            if then == today {
                assert(hour_of(now) <= hour);
            } else {
                assert((then + 4) % 7 == day.from_sunday());
                assert((today + ahead + 4) % 7 == day.from_sunday());
            }
        }
    }
}

/// The next report is due on the full hour of the given day of the week, later
/// than now and within seven days, and any other such time that is still to come
/// lies at least a week further on.
#[verifier::spinoff_prover]
#[verifier::rlimit(40)]
pub proof fn law_report_time_by_the_calendar(now: int, day: Weekday, hour: int)
    requires
        0 <= hour <= 23,
    ensures
        ({
            let target = report_time(now, day, hour);
            &&& now < target <= now + 604_800
            &&& target % 86_400 == hour * 3600
            &&& (target / 86_400 + 4) % 7 == day.from_sunday()
            &&& forall|secs: int|
                now < secs && secs % 86_400 == hour * 3600 && #[trigger] ((secs / 86_400 + 4) % 7)
                    == day.from_sunday() ==> secs == target || secs >= target + 604_800
        }),
{
    let target = report_time(now, day, hour);
    law_report_time_is_next(now, day, hour);
    assert(is_report_time(target, day, hour));
    assert forall|secs: int|
        now < secs && secs % 86_400 == hour * 3600 && #[trigger] ((secs / 86_400 + 4) % 7)
            == day.from_sunday() implies secs == target || secs >= target + 604_800 by {
        assert(is_report_time(secs, day, hour));
        assert(target <= secs);
    }
}

/// A plan names the time of the next report, and waiting from now on for as long
/// as it says leads to that time, to the nanosecond.
pub proof fn law_plan_leads_to_report_time(
    plan: ReportPlan,
    now_secs: i64,
    now_nanos: u32,
    day: Weekday,
    hour: u32,
)
    requires
        is_next_plan(plan, now_secs, now_nanos, day, hour),
        hour <= 23,
    ensures
        now_secs < plan.target <= now_secs + 604_800,
        plan.target % 86_400 == hour * 3600,
        (plan.target as int / 86_400 + 4) % 7 == day.from_sunday(),
        plan.wait_nanos < 1_000_000_000,
        (now_secs + plan.wait_secs) * 1_000_000_000 + now_nanos + plan.wait_nanos == plan.target
            * 1_000_000_000,
{
    law_report_time_by_the_calendar(now_secs as int, day, hour as int);
}

/// A report can be planned at any time of the calendar that leaves a week to its
/// end, for any hour of the day.
pub proof fn law_reports_can_be_planned(now_secs: i64, now_nanos: u32, day: Weekday, hour: u32)
    requires
        hour <= 23,
        now_nanos < 1_000_000_000,
        -8_334_601_228_800 <= now_secs <= 8_210_266_876_799 - 604_800,
    ensures
        can_plan(now_secs, now_nanos, day, hour),
{
}

} // verus!
