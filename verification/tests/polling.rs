use healthcheck::check::{check_failure, CheckResult};
use healthcheck::discord::NotificationResult;
use healthcheck::incidents::{find_open_incident, handle_incident_transition, open_incident};
use healthcheck::models::{
    Incident, ServiceConfig, ServiceHealth, ServiceStatus, StateSnapshot,
};
use healthcheck::poll::{
    last_known_status, observe_service, PendingOutages, PollRound, TransitionNotice,
};
use healthcheck::poll_loop::{LoopAction, LoopEvent, PollCommand, PollLoop};
use healthcheck::state::{
    build_initial_snapshot, incident_history, initial_snapshot_at, status,
};

const GRACE: u64 = 120;

fn config(name: &str) -> ServiceConfig {
    ServiceConfig {
        name: name.to_string(),
        url: format!("https://{}.example.com", name),
        host: format!("{}.example.com", name),
        icon: "bolt".to_string(),
        expected_status: vec![200],
        offline_signals: vec![503],
        headers: None,
        timeout_ms: None,
    }
}

fn incident(id: &str, service: &str, started_at: u64, ended_at: Option<u64>) -> Incident {
    Incident {
        id: id.to_string(),
        service: service.to_string(),
        started_at,
        ended_at,
        summary: None,
        remediation: None,
    }
}

fn up() -> CheckResult {
    CheckResult { health: ServiceHealth::Up, latency_ms: Some(7), error: None }
}

fn down() -> CheckResult {
    check_failure("timed out".to_string())
}

fn degraded() -> CheckResult {
    CheckResult {
        health: ServiceHealth::Degraded,
        latency_ms: Some(9),
        error: Some("Unexpected status 404 from a".to_string()),
    }
}

fn looks_like_an_id(id: &str) -> bool {
    let bytes = id.as_bytes();
    bytes.len() == 36
        && bytes.iter().enumerate().all(|(i, b)| match i {
            8 | 13 | 18 | 23 => *b == b'-',
            14 => *b == b'4',
            19 => b"89ab".contains(b),
            _ => b.is_ascii_digit() || (b'a'..=b'f').contains(b),
        })
}

struct Bench {
    cfg: ServiceConfig,
    status: ServiceStatus,
    incidents: Vec<Incident>,
    pending: PendingOutages,
}

impl Bench {
    fn new() -> Bench {
        let cfg = config("a");
        let status = ServiceStatus::from_config(&cfg);
        Bench { cfg, status, incidents: Vec::new(), pending: PendingOutages::new() }
    }

    fn check(&mut self, result: CheckResult, now: u64) -> Option<TransitionNotice> {
        let (status, notice) = observe_service(
            &self.cfg,
            self.status.clone(),
            result,
            now,
            GRACE,
            true,
            &mut self.incidents,
            &mut self.pending,
        );
        self.status = status;
        notice
    }
}

#[test]
fn the_latest_open_incident_is_found() {
    let mut incidents = vec![
        incident("1", "a", 1, None),
        incident("2", "b", 2, None),
        incident("3", "a", 3, None),
        incident("4", "a", 4, Some(5)),
    ];
    find_open_incident("a", &mut incidents).unwrap().ended_at = Some(9);
    assert_eq!(incidents[2].ended_at, Some(9));
    assert_eq!(find_open_incident("a", &mut incidents).unwrap().id, "1");
    assert!(find_open_incident("c", &mut incidents).is_none());
    assert!(find_open_incident("a", &mut []).is_none());
}

#[test]
fn an_incident_is_opened_under_the_given_id() {
    let cfg = config("a");
    let mut status = ServiceStatus::from_config(&cfg);
    status.error = Some("boom".to_string());
    let mut incidents = Vec::new();
    open_incident(&cfg, 50, "id-1".to_string(), &mut status, &mut incidents);
    assert_eq!(status.incident_id.as_deref(), Some("id-1"));
    assert_eq!(incidents.len(), 1);
    assert_eq!(incidents[0].id, "id-1");
    assert_eq!(incidents[0].service, "a");
    assert_eq!(incidents[0].started_at, 50);
    assert_eq!(incidents[0].ended_at, None);
    assert_eq!(incidents[0].summary.as_deref(), Some("boom"));
    assert_eq!(incidents[0].remediation, None);
}

#[test]
fn transitions_open_join_and_end_incidents() {
    let cfg = config("a");
    let mut status = ServiceStatus::from_config(&cfg);
    let mut incidents = Vec::new();
    let (new, old) = (ServiceHealth::Down, ServiceHealth::Up);
    handle_incident_transition(&cfg, new, old, 10, &mut status, &mut incidents);
    assert_eq!(incidents.len(), 1);
    assert!(looks_like_an_id(&incidents[0].id));
    assert_eq!(status.incident_id.as_ref(), Some(&incidents[0].id));

    // Nothing happens where the health did not change.
    status.incident_id = None;
    handle_incident_transition(&cfg, new, new, 11, &mut status, &mut incidents);
    assert_eq!(status.incident_id, None);
    assert_eq!(incidents.len(), 1);

    // A change from one trouble to another joins the open incident.
    let (new, old) = (ServiceHealth::Degraded, ServiceHealth::Down);
    handle_incident_transition(&cfg, new, old, 12, &mut status, &mut incidents);
    assert_eq!(status.incident_id.as_ref(), Some(&incidents[0].id));
    assert_eq!(incidents.len(), 1);

    let (new, old) = (ServiceHealth::Unknown, ServiceHealth::Down);
    handle_incident_transition(&cfg, new, old, 13, &mut status, &mut incidents);
    assert_eq!(status.incident_id, None);
    assert_eq!(incidents[0].ended_at, None);

    let (new, old) = (ServiceHealth::Up, ServiceHealth::Down);
    handle_incident_transition(&cfg, new, old, 14, &mut status, &mut incidents);
    assert_eq!(incidents[0].ended_at, Some(14));
    assert_eq!(status.incident_id, None);
}

#[test]
fn a_short_outage_leaves_no_incident() {
    let mut bench = Bench::new();
    assert!(bench.check(up(), 1_000).is_none());
    assert!(bench.check(down(), 1_060).is_none());
    assert_eq!(bench.pending.get("a"), Some(1_060));
    assert_eq!(bench.status.health, ServiceHealth::Down);
    assert_eq!(bench.status.error.as_deref(), Some("timed out"));
    assert!(bench.check(degraded(), 1_120).is_none());
    assert!(bench.check(down(), 1_179).is_none());
    assert_eq!(bench.pending.get("a"), Some(1_060));
    assert!(bench.check(up(), 1_240).is_none());
    assert!(bench.incidents.is_empty());
    assert_eq!(bench.pending.get("a"), None);
    assert_eq!(bench.status.last_changed, None);
    assert_eq!(bench.status.last_checked, Some(1_240));
}

#[test]
fn a_long_outage_opens_one_incident() {
    let mut bench = Bench::new();
    bench.check(up(), 1_000);
    bench.check(down(), 1_060);
    let notice = bench.check(degraded(), 1_180).unwrap();
    assert_eq!(bench.incidents.len(), 1);
    let id = bench.incidents[0].id.clone();
    assert!(looks_like_an_id(&id));
    assert_eq!(bench.incidents[0].started_at, 1_060);
    assert_eq!(bench.incidents[0].summary.as_deref(), Some("Unexpected status 404 from a"));
    assert_eq!(bench.status.last_changed, Some(1_060));
    assert_eq!(bench.status.incident_id.as_ref(), Some(&id));
    assert_eq!(notice.context.service, "a");
    assert_eq!(notice.context.previous, ServiceHealth::Up);
    assert_eq!(notice.context.current, ServiceHealth::Degraded);
    assert_eq!(notice.context.timestamp, 1_180);
    assert_eq!(notice.context.latency_ms, Some(9));
    assert_eq!(notice.context.incident_id.as_ref(), Some(&id));
    assert_eq!(notice.context.error.as_deref(), Some("Unexpected status 404 from a"));
    assert_eq!(notice.message_id, None);
    bench.status.discord_message_id = Some("m1".to_string());

    // Another trouble is news, more of the same is not.
    let notice = bench.check(down(), 1_240).unwrap();
    assert_eq!(notice.context.service, "a");
    assert_eq!(notice.context.previous, ServiceHealth::Degraded);
    assert_eq!(notice.context.current, ServiceHealth::Down);
    assert_eq!(notice.context.timestamp, 1_240);
    assert_eq!(notice.context.latency_ms, None);
    assert_eq!(notice.context.incident_id.as_ref(), Some(&id));
    assert_eq!(notice.context.error.as_deref(), Some("timed out"));
    assert_eq!(notice.message_id.as_deref(), Some("m1"));
    for now in [1_250, 1_300, 9_999] {
        assert!(bench.check(down(), now).is_none());
        assert_eq!(bench.incidents.len(), 1);
        assert_eq!(bench.status.incident_id.as_ref(), Some(&id));
    }

    let notice = bench.check(up(), 10_000).unwrap();
    assert_eq!(bench.incidents[0].ended_at, Some(10_000));
    assert_eq!(notice.message_id.as_deref(), Some("m1"));
    assert_eq!(notice.context.previous, ServiceHealth::Down);
    assert_eq!(notice.context.current, ServiceHealth::Up);
    assert_eq!(notice.context.incident_id.as_ref(), Some(&id));
    assert_eq!(notice.context.error, None);
    assert_eq!(bench.status.last_changed, Some(10_000));
    assert_eq!(bench.status.incident_id, None);
    assert_eq!(bench.pending.get("a"), None);

    // Being up goes on without any news.
    assert!(bench.check(up(), 10_060).is_none());
    assert_eq!(bench.incidents.len(), 1);
}

#[test]
fn an_outage_after_a_restart_joins_the_open_incident() {
    let mut bench = Bench::new();
    bench.incidents.push(incident("old", "a", 500, None));
    assert!(bench.check(down(), 1_000).is_none());
    assert_eq!(bench.status.incident_id, None);
    assert!(bench.check(down(), 1_120).is_none());
    assert_eq!(bench.status.incident_id.as_deref(), Some("old"));
    assert_eq!(bench.incidents.len(), 1);
}

#[test]
fn another_trouble_is_announced_within_the_grace_period_if_an_incident_is_open() {
    let mut bench = Bench::new();
    bench.incidents.push(incident("old", "a", 500, None));
    assert!(bench.check(down(), 1_000).is_none());
    let notice = bench.check(degraded(), 1_060).unwrap();
    assert_eq!(notice.context.previous, ServiceHealth::Down);
    assert_eq!(notice.context.current, ServiceHealth::Degraded);
    assert_eq!(notice.context.incident_id.as_deref(), Some("old"));
    assert_eq!(notice.context.error.as_deref(), Some("Unexpected status 404 from a"));
    assert_eq!(notice.message_id, None);
    assert_eq!(bench.status.incident_id, None);
    assert_eq!(bench.incidents.len(), 1);
    assert!(bench.check(degraded(), 1_070).is_none());
}

#[test]
fn trouble_that_was_there_before_is_not_pending() {
    let mut bench = Bench::new();
    bench.status.health = ServiceHealth::Down;
    for now in [1_000, 2_000, 3_000] {
        assert!(bench.check(down(), now).is_none());
    }
    assert_eq!(bench.pending.get("a"), None);
    assert!(bench.incidents.is_empty());
}

#[test]
fn a_clock_that_goes_back_shows_no_time_gone_by() {
    let mut bench = Bench::new();
    bench.check(down(), 1_000);
    assert!(bench.check(down(), 10).is_none());
    assert!(bench.incidents.is_empty());
}

#[test]
fn an_unknown_result_only_unlinks() {
    let mut bench = Bench::new();
    bench.status.incident_id = Some("x".to_string());
    bench.incidents.push(incident("x", "a", 1, None));
    let unknown = CheckResult { health: ServiceHealth::Unknown, latency_ms: None, error: None };
    assert!(bench.check(unknown, 5).is_none());
    assert_eq!(bench.status.incident_id, None);
    assert_eq!(bench.incidents[0].ended_at, None);
}

#[test]
fn a_check_keeps_to_its_own_service() {
    let mut bench = Bench::new();
    bench.incidents.push(incident("b-1", "b", 1, None));
    bench.incidents.push(incident("a-1", "a", 2, Some(3)));
    bench.pending.note("b", 1);
    bench.check(down(), 1_000);
    bench.check(down(), 1_200);
    assert_eq!(bench.incidents.len(), 3);
    assert_eq!(bench.incidents[2].service, "a");
    bench.check(up(), 1_300);
    assert_eq!(bench.incidents[0].ended_at, None);
    assert_eq!(bench.incidents[1].ended_at, Some(3));
    assert_eq!(bench.incidents[2].ended_at, Some(1_300));
    assert_eq!(bench.pending.get("b"), Some(1));
}

#[test]
fn checks_never_leave_two_open_incidents() {
    let mut bench = Bench::new();
    for round in 0..40u64 {
        let result = match round % 5 {
            0 => up(),
            1 | 2 => degraded(),
            _ => down(),
        };
        bench.check(result, 1_000 + round * 60);
        let open = bench.incidents.iter().filter(|i| i.ended_at.is_none()).count();
        assert!(open <= 1);
    }
    assert_eq!(bench.incidents.len(), 8);
}

#[test]
fn the_last_known_status_is_the_first_of_its_name() {
    let cfg = config("a");
    let mut first = ServiceStatus::from_config(&cfg);
    first.health = ServiceHealth::Up;
    let second = ServiceStatus::from_config(&cfg);
    let other = ServiceStatus::from_config(&config("b"));
    let services = vec![other, first, second];
    assert_eq!(last_known_status(&services, &cfg).health, ServiceHealth::Up);
    let fresh = last_known_status(&services, &config("c"));
    assert_eq!(fresh.service, "c");
    assert_eq!(fresh.icon.as_deref(), Some("bolt"));
    assert_eq!(fresh.health, ServiceHealth::Unknown);
}

#[test]
fn without_services_there_is_no_round() {
    let configs: Vec<ServiceConfig> = Vec::new();
    let previous = initial_snapshot_at(&configs, 60, 1);
    assert!(PollRound::start(&configs, previous, 2, GRACE, true).is_none());
}

fn run_round(
    configs: &Vec<ServiceConfig>,
    previous: StateSnapshot,
    now: u64,
    emit: bool,
    engine: &mut PollLoop,
    results: Vec<CheckResult>,
    message: &str,
) -> (StateSnapshot, usize) {
    let mut round = PollRound::start(configs, previous, now, 0, emit).unwrap();
    let mut notices = 0;
    let mut results = results.into_iter();
    while let Some(cfg) = round.next_check() {
        assert_eq!(cfg.name, configs[round.services.len()].name);
        if engine.observe(&mut round, results.next().unwrap()).is_some() {
            notices += 1;
            round.record_notification(NotificationResult::Created(message.to_string()));
        }
    }
    (round.finish(30), notices)
}

#[test]
fn a_round_goes_through_all_services_in_order() {
    let configs = vec![config("a"), config("b"), config("c")];
    let mut engine = PollLoop::new();
    let start = initial_snapshot_at(&configs, 60, 1);
    let results = vec![up(), down(), degraded()];
    let (first, notices) = run_round(&configs, start, 100, true, &mut engine, results, "m1");
    assert_eq!(notices, 2);
    assert_eq!(first.generated_at, 100);
    assert_eq!(first.config_version.as_deref(), Some("3 services"));
    assert_eq!(first.poll_interval_secs, Some(30));
    let names: Vec<&str> = first.services.iter().map(|s| s.service.as_str()).collect();
    assert_eq!(names, ["a", "b", "c"]);
    assert_eq!(first.incidents.len(), 2);
    assert_eq!(first.services[0].discord_message_id, None);
    assert_eq!(first.services[1].discord_message_id.as_deref(), Some("m1"));

    let results = vec![up(), up(), down()];
    let (second, notices) =
        run_round(&configs, status(&first), 160, true, &mut engine, results, "m2");
    assert_eq!(notices, 2);
    assert_eq!(second.incidents.len(), 2);
    assert_eq!(second.incidents[0].ended_at, Some(160));
    assert_eq!(second.incidents[1].ended_at, None);
    assert_eq!(second.incidents[0].id, first.incidents[0].id);
    assert_eq!(second.services[1].discord_message_id.as_deref(), Some("m2"));
    assert_eq!(second.services[2].discord_message_id.as_deref(), Some("m2"));
    assert_eq!(second.services[2].latency_ms, None);
    assert_eq!(second.services[2].error.as_deref(), Some("timed out"));
    assert_eq!(incident_history(&second).len(), 2);
}

#[test]
fn a_silent_round_announces_nothing() {
    let configs = vec![config("a")];
    let mut engine = PollLoop::new();
    let start = initial_snapshot_at(&configs, 60, 1);
    let (after, notices) =
        run_round(&configs, start, 100, false, &mut engine, vec![down()], "m");
    assert_eq!(notices, 0);
    assert_eq!(after.incidents.len(), 1);
}

#[test]
fn a_silent_run_differs_in_message_ids_only() {
    let configs = vec![config("a"), config("b")];
    let (mut quiet_engine, mut loud_engine) = (PollLoop::new(), PollLoop::new());
    let mut quiet = initial_snapshot_at(&configs, 60, 1);
    let mut loud = initial_snapshot_at(&configs, 60, 1);
    let mut said = 0;
    for (i, results) in [
        || vec![up(), down()],
        || vec![down(), degraded()],
        || vec![degraded(), up()],
        || vec![up(), up()],
    ]
    .iter()
    .enumerate()
    {
        let now = 100 + i as u64 * 60;
        let silent = run_round(&configs, quiet, now, false, &mut quiet_engine, results(), "m");
        assert_eq!(silent.1, 0);
        quiet = silent.0;
        let heard = run_round(&configs, loud, now, true, &mut loud_engine, results(), "m");
        said += heard.1;
        loud = heard.0;
        for (a, b) in quiet.services.iter().zip(&loud.services) {
            assert_eq!((&a.service, a.health, a.latency_ms), (&b.service, b.health, b.latency_ms));
            assert_eq!((a.last_changed, &a.error), (b.last_changed, &b.error));
            assert_eq!(a.incident_id.is_some(), b.incident_id.is_some());
            assert_eq!(a.discord_message_id, None);
        }
        let times = |s: &StateSnapshot| -> Vec<(String, u64, Option<u64>)> {
            s.incidents.iter().map(|i| (i.service.clone(), i.started_at, i.ended_at)).collect()
        };
        assert_eq!(times(&quiet), times(&loud));
        for name in ["a", "b"] {
            assert_eq!(quiet_engine.pending_since(name), loud_engine.pending_since(name));
        }
    }
    assert_eq!(said, 6);
    assert_eq!(loud.services[0].discord_message_id.as_deref(), Some("m"));
}

#[test]
fn pending_outages_pass_from_round_to_round() {
    let configs = vec![config("a")];
    let mut engine = PollLoop::new();
    assert_eq!(engine.pending_since("a"), None);
    let mut known = initial_snapshot_at(&configs, 60, 1);
    let mut opened = Vec::new();
    for (now, result) in [(100, up()), (160, down()), (220, down()), (280, down()), (340, up())] {
        engine.on_event(LoopEvent::Tick);
        let mut round = PollRound::start(&configs, known, now, GRACE, true).unwrap();
        engine.observe(&mut round, result);
        known = round.finish(60);
        opened.push((engine.pending_since("a"), known.incidents.len()));
    }
    assert_eq!(
        opened,
        [(None, 0), (Some(160), 0), (Some(160), 0), (Some(160), 1), (None, 1)]
    );
    assert_eq!(known.incidents[0].started_at, 160);
    assert_eq!(known.incidents[0].ended_at, Some(340));
}

#[test]
fn what_became_of_an_announcement_is_kept() {
    let configs = vec![config("a")];
    let start = initial_snapshot_at(&configs, 60, 1);
    let mut pending = PendingOutages::new();
    let mut round = PollRound::start(&configs, start, 5, 0, true).unwrap();
    round.observe(down(), &mut pending);
    round.record_notification(NotificationResult::Created("m".to_string()));
    assert_eq!(round.services[0].discord_message_id.as_deref(), Some("m"));
    round.record_notification(NotificationResult::Updated);
    assert_eq!(round.services[0].discord_message_id.as_deref(), Some("m"));
    round.record_notification(NotificationResult::Failed);
    assert_eq!(round.services[0].discord_message_id, None);
}

#[test]
fn pending_outages_keep_their_first_time() {
    let mut pending = PendingOutages::new();
    pending.note("a", 5);
    pending.note("a", 9);
    pending.note("b", 7);
    assert_eq!(pending.get("a"), Some(5));
    pending.forget("a");
    assert_eq!(pending.get("a"), None);
    assert_eq!(pending.get("b"), Some(7));
}

#[test]
fn the_initial_snapshot() {
    let configs = vec![config("a"), config("b")];
    let snapshot = build_initial_snapshot(&configs, 60);
    assert!(snapshot.generated_at > 1_700_000_000);
    assert_eq!(snapshot.services.len(), 2);
    assert_eq!(snapshot.services[1].service, "b");
    assert_eq!(snapshot.services[1].health, ServiceHealth::Unknown);
    assert!(snapshot.incidents.is_empty());
    assert_eq!(snapshot.config_version.as_deref(), Some("2 services"));
    assert_eq!(snapshot.poll_interval_secs, Some(60));
}

#[test]
fn only_the_first_round_is_silent() {
    let mut state = PollLoop::new();
    let mut loud = Vec::new();
    for event in [
        LoopEvent::Command(PollCommand::RefreshNow),
        LoopEvent::Tick,
        LoopEvent::Command(PollCommand::RefreshNow),
        LoopEvent::Tick,
    ] {
        match state.on_event(event) {
            LoopAction::Poll { emit_notifications } => loud.push(emit_notifications),
            LoopAction::Stop => panic!("stopped"),
        }
    }
    assert_eq!(loud, [false, true, true, true]);
    assert!(matches!(state.on_event(LoopEvent::Closed), LoopAction::Stop));
}
