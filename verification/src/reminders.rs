//! Reminders of incidents that stay open.

use vstd::prelude::*;

use crate::discord::ReminderContext;
use crate::models::Incident;
use crate::poll::elapsed;
use crate::settings::ReminderSettings;

verus! {

/// An open incident, and when it was last brought up.
#[derive(Debug, Clone)]
pub struct IncidentWithMeta {
    pub incident: Incident,
    pub last_reminded_at: Option<u64>,
}

/// Whether an open incident is to be brought up: it is old enough, and long
/// enough ago it began or was last brought up.
pub open spec fn is_due(meta: IncidentWithMeta, settings: ReminderSettings, now: u64) -> bool {
    &&& elapsed(meta.incident.started_at, now) >= settings.outage_threshold_secs
    &&& elapsed(
        match meta.last_reminded_at {
            Some(last) => last,
            None => meta.incident.started_at,
        },
        now,
    ) >= settings.repeat_interval_secs
}

/// The age of an incident in whole minutes, at least one.
pub open spec fn minutes_open(incident: Incident, now: u64) -> int {
    let minutes = elapsed(incident.started_at, now) / 60;
    if minutes < 1 {
        1
    } else {
        minutes
    }
}

/// The reminder of an incident.
pub open spec fn reminder_of(incident: Incident, now: u64) -> ReminderContext {
    ReminderContext {
        service: incident.service,
        incident_id: incident.id,
        duration_minutes: minutes_open(incident, now) as u64,
    }
}

/// The reminder of an open incident, if one is due.
pub fn due_reminder(meta: &IncidentWithMeta, settings: &ReminderSettings, now: u64) -> (reminder:
    Option<ReminderContext>)
    ensures
        reminder == (if is_due(*meta, *settings, now) {
            Some(reminder_of(meta.incident, now))
        } else {
            None
        }),
        reminder matches Some(reminder) ==> {
            &&& reminder.service == meta.incident.service
            &&& reminder.incident_id == meta.incident.id
            &&& reminder.duration_minutes >= 1
            &&& now >= meta.incident.started_at + 60 ==> reminder.duration_minutes * 60 <= now
                - meta.incident.started_at < (reminder.duration_minutes + 1) * 60
            &&& now < meta.incident.started_at + 60 ==> reminder.duration_minutes == 1
        },
{
    let age_secs: u64 = now.saturating_sub(meta.incident.started_at);
    if age_secs < settings.outage_threshold_secs {
        return None;
    }
    let last: u64 = meta.last_reminded_at.unwrap_or(meta.incident.started_at);
    if now.saturating_sub(last) < settings.repeat_interval_secs {
        return None;
    }
    let minutes: u64 = age_secs / 60;
    Some(
        ReminderContext {
            service: meta.incident.service.clone(),
            incident_id: meta.incident.id.clone(),
            duration_minutes: if minutes < 1 {
                1
            } else {
                minutes
            },
        },
    )
}

/// The reminders that are due of a list of open incidents.
pub open spec fn reminders_of(
    open: Seq<IncidentWithMeta>,
    settings: ReminderSettings,
    now: u64,
) -> Seq<ReminderContext> {
    open.filter(|meta: IncidentWithMeta| is_due(meta, settings, now)).map_values(
        |meta: IncidentWithMeta| reminder_of(meta.incident, now),
    )
}

/// The reminders to send for the open incidents, in their order.
pub fn due_reminders(open: &Vec<IncidentWithMeta>, settings: &ReminderSettings, now: u64) -> (due:
    Vec<ReminderContext>)
    ensures
        due@ == reminders_of(open@, *settings, now),
{
    let mut due: Vec<ReminderContext> = Vec::new();
    let mut i: usize = 0;
    proof {
        reveal(Seq::filter);
        assert(due@ =~= reminders_of(open@.take(0), *settings, now));
    }
    while i < open.len()
        invariant
            i <= open@.len(),
            due@ == reminders_of(open@.take(i as int), *settings, now),
        decreases open.len() - i,
    {
        let ghost before = due@;
        if let Some(reminder) = due_reminder(&open[i], settings, now) {
            due.push(reminder);
        }
        i = i + 1;
        proof {
            reveal(Seq::filter);
            assert(open@.take(i as int).drop_last() =~= open@.take(i - 1));
            assert(due@ =~= reminders_of(open@.take(i as int), *settings, now));
        }
    }
    assert(open@.take(i as int) =~= open@);
    due
}

/// No incident is brought up before it has reached the threshold.
pub proof fn law_no_reminder_before_threshold(
    meta: IncidentWithMeta,
    settings: ReminderSettings,
    now: u64,
)
    requires
        elapsed(meta.incident.started_at, now) < settings.outage_threshold_secs,
    ensures
        !is_due(meta, settings, now),
{
}

/// Once an incident has been brought up, it is brought up again when the repeat
/// interval has gone by, and not before.
pub proof fn law_reminders_keep_their_distance(
    meta: IncidentWithMeta,
    settings: ReminderSettings,
    reminded_at: u64,
    now: u64,
)
    requires
        is_due(meta, settings, reminded_at),
        reminded_at <= now,
    ensures
        ({
            let reminded = IncidentWithMeta {
                last_reminded_at: Some(reminded_at),
                ..meta
            };
            is_due(reminded, settings, now) <==> now - reminded_at >= settings.repeat_interval_secs
        }),
{
}

/// A reminder of an open incident is due exactly when the incident began the
/// threshold ago or earlier, and it was last brought up, or else began, the
/// repeat interval ago or earlier. A time that lies ahead is no time ago.
pub proof fn law_due_by_age_and_distance(
    meta: IncidentWithMeta,
    settings: ReminderSettings,
    now: u64,
)
    ensures
        is_due(meta, settings, now) <==> {
            &&& settings.outage_threshold_secs == 0 || meta.incident.started_at
                + settings.outage_threshold_secs <= now
            &&& settings.repeat_interval_secs == 0 || (if meta.last_reminded_at is Some {
                meta.last_reminded_at->0
            } else {
                meta.incident.started_at
            }) + settings.repeat_interval_secs <= now
        },
{
}

/// A reminder names the incident and its service, and says for how many whole
/// minutes the incident has been open, counted from its start however often it
/// was brought up; under a minute counts as one.
pub proof fn law_reminder_tells_whole_minutes(incident: Incident, now: u64)
    ensures
        ({
            let reminder = reminder_of(incident, now);
            &&& reminder.service == incident.service
            &&& reminder.incident_id == incident.id
            &&& now >= incident.started_at + 60 ==> reminder.duration_minutes * 60 <= now
                - incident.started_at < (reminder.duration_minutes + 1) * 60
            &&& now < incident.started_at + 60 ==> reminder.duration_minutes == 1
        }),
{
}

/// Every open incident is looked at on its own and in its turn: one more in the
/// list adds its reminder at the end if that is due, and changes nothing else.
pub proof fn law_each_incident_in_its_turn(
    open: Seq<IncidentWithMeta>,
    next: IncidentWithMeta,
    settings: ReminderSettings,
    now: u64,
)
    ensures
        reminders_of(Seq::empty(), settings, now).len() == 0,
        ({
            let start = next.incident.started_at;
            let since = if next.last_reminded_at is Some {
                next.last_reminded_at->0
            } else {
                start
            };
            let due = (settings.outage_threshold_secs == 0 || start
                + settings.outage_threshold_secs <= now) && (settings.repeat_interval_secs == 0
                || since + settings.repeat_interval_secs <= now);
            let before = reminders_of(open, settings, now);
            let after = reminders_of(open.push(next), settings, now);
            &&& !due ==> after == before
            &&& due ==> {
                &&& after.len() == before.len() + 1
                &&& after.take(before.len() as int) == before
                &&& after.last().service == next.incident.service
                &&& after.last().incident_id == next.incident.id
                &&& now >= start + 60 ==> after.last().duration_minutes * 60 <= now - start < (
                after.last().duration_minutes + 1) * 60
                &&& now < start + 60 ==> after.last().duration_minutes == 1
            }
        }),
{
    reveal(Seq::filter);
    assert(open.push(next).drop_last() =~= open);
    let before = reminders_of(open, settings, now);
    let after = reminders_of(open.push(next), settings, now);
    if is_due(next, settings, now) {
        assert(after =~= before.push(reminder_of(next.incident, now)));
        assert(after.take(before.len() as int) =~= before);
    } else {
        assert(after =~= before);
    }
}

} // verus!
