//! The watchers beside the polling engine: what they do each time they wake.

use vstd::prelude::*;

use crate::discord::ReminderContext;
use crate::reminders::{due_reminders, reminders_of, IncidentWithMeta};
use crate::schedule::{can_plan, is_next_plan, next_report, ReportPlan};
use crate::settings::{ReminderSettings, WeeklyReportSettings};
use crate::webhook::DiscordNotifier;
use crate::weekly::{week_before, week_start};

verus! {

/// What the watcher of long outages does when it wakes.
#[derive(Debug, PartialEq, Eq, Structural)]
pub enum ReminderStep {
    /// Reminders are turned off: end the watcher.
    Stop,
    /// There is nobody to remind: sleep on.
    Skip,
    /// Look at the open incidents.
    Look,
}

/// What the watcher of long outages does when it wakes.
pub fn reminder_step(settings: &ReminderSettings, notifier: &DiscordNotifier) -> (step:
    ReminderStep)
    ensures
        step == (if !settings.enabled {
            ReminderStep::Stop
        } else if notifier.webhook_url is None {
            ReminderStep::Skip
        } else {
            ReminderStep::Look
        }),
{
    if !settings.enabled {
        ReminderStep::Stop
    } else if !notifier.is_configured() {
        ReminderStep::Skip
    } else {
        ReminderStep::Look
    }
}

/// The reminders to send once the open incidents were looked up; none if they
/// could not be read.
pub fn reminders_after_lookup(
    open: Option<Vec<IncidentWithMeta>>,
    settings: &ReminderSettings,
    now: u64,
) -> (due: Vec<ReminderContext>)
    ensures
        due@ == (match open {
            Some(open) => reminders_of(open@, *settings, now),
            None => Seq::empty(),
        }),
{
    match open {
        Some(open) => due_reminders(&open, settings, now),
        None => Vec::new(),
    }
}

/// What the watcher of the weekly report does next.
#[derive(Debug)]
pub enum ReportStep {
    /// Reports are turned off: end the watcher.
    Stop,
    /// Wait for the next report.
    Wait(ReportPlan),
}

/// What the watcher of the weekly report does next. The present time is given
/// in seconds since 1970 and nanoseconds.
pub fn report_step(settings: &WeeklyReportSettings, now_secs: i64, now_nanos: u32) -> (step:
    ReportStep)
    requires
        settings.enabled ==> can_plan(now_secs, now_nanos, settings.day, settings.hour),
    ensures
        match step {
            ReportStep::Stop => !settings.enabled,
            ReportStep::Wait(plan) => settings.enabled && is_next_plan(
                plan,
                now_secs,
                now_nanos,
                settings.day,
                settings.hour,
            ),
        },
        step matches ReportStep::Wait(plan) ==> {
            &&& now_secs < plan.target <= now_secs + 604_800
            &&& plan.target % 86_400 == settings.hour * 3600
            &&& (plan.target as int / 86_400 + 4) % 7 == settings.day.from_sunday()
            &&& (now_secs + plan.wait_secs) * 1_000_000_000 + now_nanos + plan.wait_nanos
                == plan.target * 1_000_000_000
        },
{
    if !settings.enabled {
        return ReportStep::Stop;
    }
    ReportStep::Wait(next_report(now_secs, now_nanos, settings.day, settings.hour))
}

/// The week to report on once the wait for a report is over; nothing is reported
/// if there is nobody to tell.
pub fn after_wait(notifier: &DiscordNotifier, now: u64) -> (week: Option<(u64, u64)>)
    ensures
        week is Some <==> notifier.webhook_url is Some,
        week matches Some(week) ==> week.0 == week_start(now) && week.1 == now,
        week matches Some(week) ==> {
            &&& now >= 604_800 ==> week.0 + 604_800 == now
            &&& now < 604_800 ==> week.0 == 0
        },
{
    if notifier.is_configured() {
        Some(week_before(now))
    } else {
        None
    }
}

} // verus!
