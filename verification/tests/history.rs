use healthcheck::clock::Weekday;
use healthcheck::models::{Incident, ServiceConfig, ServiceHealth, ServiceStatus, StateSnapshot};
use healthcheck::reminders::{due_reminder, due_reminders, IncidentWithMeta};
use healthcheck::rows::{
    incident_of_row, open_incident_of_row, row_of_incident, OpenIncidentRow,
};
use healthcheck::settings::{ReminderSettings, WeeklyReportSettings};
use healthcheck::state::{hydrated, initial_snapshot_at};
use healthcheck::watchers::{
    after_wait, reminder_step, reminders_after_lookup, report_step, ReminderStep, ReportStep,
};
use healthcheck::webhook::DiscordNotifier;
use healthcheck::weekly::{longest_outage, week_before, weekly_stats, ServiceWeeklyStats};

fn incident(service: &str, started_at: u64, ended_at: Option<u64>) -> Incident {
    Incident {
        id: format!("{}-{}", service, started_at),
        service: service.to_string(),
        started_at,
        ended_at,
        summary: Some("s".to_string()),
        remediation: None,
    }
}

const SETTINGS: ReminderSettings = ReminderSettings {
    enabled: true,
    check_interval_secs: 60,
    outage_threshold_secs: 1_800,
    repeat_interval_secs: 600,
};

fn meta(started_at: u64, last_reminded_at: Option<u64>) -> IncidentWithMeta {
    IncidentWithMeta { incident: incident("a", started_at, None), last_reminded_at }
}

#[test]
fn no_reminder_before_the_threshold() {
    assert!(due_reminder(&meta(1_000, None), &SETTINGS, 2_799).is_none());
    let reminder = due_reminder(&meta(1_000, None), &SETTINGS, 2_800).unwrap();
    assert_eq!(reminder.service, "a");
    assert_eq!(reminder.incident_id, "a-1000");
    assert_eq!(reminder.duration_minutes, 30);
}

#[test]
fn reminders_keep_their_distance() {
    assert!(due_reminder(&meta(1_000, Some(2_800)), &SETTINGS, 3_399).is_none());
    let reminder = due_reminder(&meta(1_000, Some(2_800)), &SETTINGS, 3_400).unwrap();
    assert_eq!(reminder.duration_minutes, 40);
}

#[test]
fn a_long_repeat_interval_delays_the_first_reminder() {
    let settings = ReminderSettings { repeat_interval_secs: 7_200, ..SETTINGS };
    assert!(due_reminder(&meta(1_000, None), &settings, 8_199).is_none());
    assert!(due_reminder(&meta(1_000, None), &settings, 8_200).is_some());
}

#[test]
fn an_age_under_a_minute_counts_as_one() {
    let settings =
        ReminderSettings { outage_threshold_secs: 0, repeat_interval_secs: 0, ..SETTINGS };
    assert_eq!(due_reminder(&meta(1_000, None), &settings, 1_030).unwrap().duration_minutes, 1);
    // A clock that went back shows no age at all.
    assert_eq!(due_reminder(&meta(1_000, None), &settings, 3).unwrap().duration_minutes, 1);
    assert!(due_reminder(&meta(1_000, None), &SETTINGS, 3).is_none());
}

#[test]
fn due_reminders_in_order() {
    let open = vec![meta(1_000, None), meta(9_000, None), meta(500, Some(9_999)), meta(2_000, None)];
    let due = due_reminders(&open, &SETTINGS, 10_000);
    let ids: Vec<&str> = due.iter().map(|r| r.incident_id.as_str()).collect();
    assert_eq!(ids, ["a-1000", "a-2000"]);
    assert!(due_reminders(&Vec::new(), &SETTINGS, 10_000).is_empty());
}

#[test]
fn rows_keep_incidents() {
    for (started_at, ended_at) in
        [(0, None), (5, Some(9)), (u64::MAX, Some(1 << 63)), (i64::MAX as u64, Some(u64::MAX))]
    {
        let written = incident("a", started_at, ended_at);
        let row = row_of_incident(&written);
        assert_eq!(row.started_at, started_at as i64);
        let read = incident_of_row(row);
        assert_eq!(read.id, written.id);
        assert_eq!(read.service, written.service);
        assert_eq!(read.started_at, written.started_at);
        assert_eq!(read.ended_at, written.ended_at);
        assert_eq!(read.summary, written.summary);
        assert_eq!(read.remediation, written.remediation);
    }
}

#[test]
fn rows_of_open_incidents() {
    let meta = open_incident_of_row(OpenIncidentRow {
        id: "i".to_string(),
        service: "a".to_string(),
        started_at: -1,
        summary: None,
        remediation: Some("restart".to_string()),
        last_reminded_at: Some(7),
    });
    assert_eq!(meta.incident.id, "i");
    assert_eq!(meta.incident.service, "a");
    assert_eq!(meta.incident.started_at, u64::MAX);
    assert_eq!(meta.incident.ended_at, None);
    assert_eq!(meta.incident.remediation.as_deref(), Some("restart"));
    assert_eq!(meta.last_reminded_at, Some(7));
}

fn checked(name: &str, health: ServiceHealth, latency_ms: Option<u128>) -> ServiceStatus {
    let cfg = ServiceConfig {
        name: name.to_string(),
        url: String::new(),
        host: String::new(),
        icon: String::new(),
        expected_status: Vec::new(),
        offline_signals: Vec::new(),
        headers: None,
        timeout_ms: None,
    };
    ServiceStatus { health, latency_ms, ..ServiceStatus::from_config(&cfg) }
}

fn snapshot(services: Vec<ServiceStatus>) -> StateSnapshot {
    StateSnapshot {
        generated_at: 0,
        services,
        incidents: Vec::new(),
        config_version: None,
        poll_interval_secs: None,
    }
}

#[test]
fn a_week_is_counted_up() {
    let (up, down) = (ServiceHealth::Up, ServiceHealth::Down);
    let degraded = ServiceHealth::Degraded;
    let snapshots = vec![
        snapshot(vec![checked("a", up, Some(10)), checked("b", down, None)]),
        snapshot(vec![]),
        snapshot(vec![checked("b", down, None), checked("a", degraded, Some(30))]),
        snapshot(vec![checked("a", up, None), checked("c", up, Some(1))]),
    ];
    let incidents = vec![
        incident("a", 100, Some(400)),
        incident("b", 500, None),
        incident("c", 700, Some(1_000)),
    ];
    let stats = weekly_stats(&snapshots, &incidents, 800);
    let names: Vec<&str> = stats.services.iter().map(|(name, _)| name.as_str()).collect();
    assert_eq!(names, ["a", "b", "c"]);
    let a = &stats.services[0].1;
    assert_eq!((a.total_checks, a.up_checks), (3, 2));
    assert_eq!(a.latencies, [10, 30]);
    assert_eq!(a.latency_sum(), Some(40));
    let b = &stats.services[1].1;
    assert_eq!((b.total_checks, b.up_checks), (2, 0));
    assert!(b.latencies.is_empty());
    let c = &stats.services[2].1;
    assert_eq!((c.total_checks, c.up_checks), (1, 1));
    assert_eq!(stats.total_incidents, 3);
    // Three outages of 300 seconds: the last one is reported.
    let longest = stats.longest_outage.unwrap();
    assert_eq!(longest.service, "c");
    assert_eq!(longest.duration_secs, 300);
}

#[test]
fn an_empty_week() {
    let stats = weekly_stats(&Vec::new(), &Vec::new(), 800);
    assert!(stats.services.is_empty());
    assert_eq!(stats.total_incidents, 0);
    assert!(stats.longest_outage.is_none());
}

#[test]
fn outages_that_end_before_they_start_have_no_length() {
    let longest = longest_outage(&vec![incident("a", 100, Some(50))], 800).unwrap();
    assert_eq!(longest.duration_secs, 0);
    let longest = longest_outage(&vec![incident("a", 900, None)], 800).unwrap();
    assert_eq!(longest.duration_secs, 0);
}

#[test]
fn a_sum_of_latencies_may_not_fit() {
    let stats = ServiceWeeklyStats {
        latencies: vec![u128::MAX - 5, 5],
        total_checks: 2,
        up_checks: 2,
    };
    assert_eq!(stats.latency_sum(), Some(u128::MAX));
    let stats = ServiceWeeklyStats { latencies: vec![u128::MAX, 0, 1], ..stats };
    assert_eq!(stats.latency_sum(), None);
    assert_eq!(ServiceWeeklyStats::default().latency_sum(), Some(0));
}

#[test]
fn the_week_before() {
    assert_eq!(week_before(1_000_000), (395_200, 1_000_000));
    assert_eq!(week_before(604_799), (0, 604_799));
}

fn notifier(url: Option<&str>) -> DiscordNotifier {
    DiscordNotifier::new(url.map(|url| url.to_string()))
}

#[test]
fn the_reminder_watcher_stops_skips_or_looks() {
    let (with, without) = (notifier(Some("https://d")), notifier(None));
    let off = ReminderSettings { enabled: false, ..SETTINGS };
    assert_eq!(reminder_step(&off, &with), ReminderStep::Stop);
    assert_eq!(reminder_step(&off, &without), ReminderStep::Stop);
    assert_eq!(reminder_step(&SETTINGS, &without), ReminderStep::Skip);
    assert_eq!(reminder_step(&SETTINGS, &with), ReminderStep::Look);
}

#[test]
fn nobody_is_reminded_of_incidents_that_cannot_be_read() {
    let open = vec![meta(1_000, None), meta(9_900, None)];
    let due = reminders_after_lookup(Some(open), &SETTINGS, 10_000);
    assert_eq!(due.len(), 1);
    assert_eq!(due[0].incident_id, "a-1000");
    assert!(reminders_after_lookup(None, &SETTINGS, 10_000).is_empty());
}

#[test]
fn the_report_watcher_stops_or_waits() {
    let on = WeeklyReportSettings { enabled: true, day: Weekday::Sun, hour: 9 };
    let off = WeeklyReportSettings { enabled: false, ..on };
    assert!(matches!(report_step(&off, 0, 0), ReportStep::Stop));
    // 2024-03-01 was a Friday; the Sunday after it comes two days later.
    match report_step(&on, 1_709_251_200, 500) {
        ReportStep::Wait(plan) => {
            assert_eq!(plan.target, 1_709_251_200 + 2 * 86_400 + 9 * 3_600);
            assert_eq!(plan.wait_secs, 2 * 86_400 + 9 * 3_600 - 1);
            assert_eq!(plan.wait_nanos, 999_999_500);
        }
        ReportStep::Stop => panic!("stopped"),
    }
}

#[test]
fn a_report_needs_a_webhook() {
    assert_eq!(after_wait(&notifier(None), 1_000_000), None);
    assert_eq!(after_wait(&notifier(Some("https://d")), 1_000_000), Some((395_200, 1_000_000)));
    assert_eq!(after_wait(&notifier(Some("https://d")), 7), Some((0, 7)));
}

#[test]
fn stored_incidents_come_back() {
    let before = initial_snapshot_at(&[], 60, 5);
    let after = hydrated(before.clone(), Some(vec![incident("a", 1, None)]));
    assert_eq!(after.incidents.len(), 1);
    assert_eq!(after.incidents[0].id, "a-1");
    assert_eq!((after.generated_at, after.poll_interval_secs), (5, Some(60)));
    assert_eq!(after.config_version.as_deref(), Some("0 services"));
    let unread = hydrated(after, None);
    assert_eq!(unread.incidents.len(), 1);
    assert!(hydrated(unread, Some(vec![])).incidents.is_empty());
}
