use healthcheck::discord::{
    reminder_payload, status_color, transition_payload, transition_payload_at,
    weekly_report_payload, weekly_report_payload_at, NotificationResult, ReminderContext,
    ServiceReport, TransitionContext,
};
use healthcheck::models::ServiceHealth;
use healthcheck::webhook::{accepted, Delivery, DiscordNotifier};
use healthcheck::weekly::LongestOutage;

fn outage() -> TransitionContext {
    TransitionContext {
        service: "api".to_string(),
        previous: ServiceHealth::Up,
        current: ServiceHealth::Down,
        timestamp: 1_431_648_000,
        latency_ms: Some(123),
        incident_id: Some("id-7".to_string()),
        error: Some("timed out".to_string()),
    }
}

#[test]
fn colors() {
    assert_eq!(status_color(ServiceHealth::Up), 0x4ade80);
    assert_eq!(status_color(ServiceHealth::Degraded), 0xfacc15);
    assert_eq!(status_color(ServiceHealth::Down), 0xf87171);
    assert_eq!(status_color(ServiceHealth::Unknown), 0x94a3b8);
}

#[test]
fn an_outage_is_announced() {
    let payload = transition_payload(&outage());
    assert_eq!(payload.username, "Portal Healthcheck");
    assert_eq!(
        payload.content,
        "**api** status changed: `Up` → `Down` at 2015-05-15T00:00:00+00:00"
    );
    assert_eq!(payload.embeds.len(), 1);
    let embed = &payload.embeds[0];
    assert_eq!(embed.title, "Status Transition");
    assert_eq!(embed.description, "timed out");
    assert_eq!(embed.color, 0xf87171);
    assert_eq!(embed.fields.len(), 2);
    assert_eq!(embed.fields[0].name, "Latency (ms)");
    assert_eq!(embed.fields[0].value, "123");
    assert!(embed.fields[0].inline);
    assert_eq!(embed.fields[1].name, "Incident");
    assert_eq!(embed.fields[1].value, "id-7");
    assert!(embed.fields[1].inline);
}

#[test]
fn what_is_not_known_is_said() {
    let context = TransitionContext {
        previous: ServiceHealth::Unknown,
        current: ServiceHealth::Degraded,
        latency_ms: None,
        incident_id: None,
        error: None,
        ..outage()
    };
    let payload = transition_payload_at(&context, "noon");
    assert_eq!(payload.content, "**api** status changed: `Unknown` → `Degraded` at noon");
    let embed = &payload.embeds[0];
    assert_eq!(embed.description, "No error reported");
    assert_eq!(embed.color, 0xfacc15);
    assert_eq!(embed.fields[0].value, "n/a");
    assert_eq!(embed.fields[1].value, "n/a");
}

#[test]
fn a_reminder() {
    let payload = reminder_payload(&ReminderContext {
        service: "api".to_string(),
        incident_id: "id-7".to_string(),
        duration_minutes: 95,
    });
    assert_eq!(payload.username, "Portal Healthcheck");
    assert_eq!(payload.content, ":warning: Incident `id-7` for **api** still open (95 min).");
    let embed = &payload.embeds[0];
    assert_eq!(embed.title, "Prolonged outage reminder");
    assert_eq!(
        embed.description,
        "This service remains impaired. Please review ongoing remediation."
    );
    assert_eq!(embed.color, 0xf87171);
    assert_eq!(embed.fields.len(), 1);
    assert_eq!(embed.fields[0].name, "Duration (minutes)");
    assert_eq!(embed.fields[0].value, "95");
}

#[test]
fn a_weekly_report() {
    let services = vec![
        ServiceReport {
            name: "api".to_string(),
            uptime: "99.50".to_string(),
            latency: Some("12.3".to_string()),
        },
        ServiceReport { name: "web".to_string(), uptime: "0.00".to_string(), latency: None },
    ];
    let longest = Some(LongestOutage { service: "web".to_string(), duration_secs: 7_260 });
    let payload = weekly_report_payload(&services, 3, &longest, 0, 604_800);
    assert_eq!(
        payload.content,
        ":bar_chart: **Weekly Status Report** \
         (1970-01-01T00:00:00+00:00 - 1970-01-08T00:00:00+00:00)"
    );
    let embed = &payload.embeds[0];
    assert_eq!(embed.title, "Service Health Summary");
    assert_eq!(embed.description, "Weekly performance metrics for all monitored services.");
    assert_eq!(embed.color, 0x3b82f6);
    let fields: Vec<(&str, &str)> =
        embed.fields.iter().map(|f| (f.name.as_str(), f.value.as_str())).collect();
    assert_eq!(
        fields,
        [
            ("api", "Uptime: 99.50%\nAvg Latency: 12.3ms"),
            ("web", "Uptime: 0.00%\nAvg Latency: n/a"),
            ("Total Incidents", "3"),
            ("Longest Outage", "web: 2h 1m"),
        ]
    );
    assert!(embed.fields.iter().all(|f| f.inline));
}

#[test]
fn a_quiet_week() {
    let payload = weekly_report_payload_at(&Vec::new(), 0, &None, "then", "now");
    assert_eq!(payload.content, ":bar_chart: **Weekly Status Report** (then - now)");
    assert_eq!(payload.embeds[0].fields.len(), 1);
    assert_eq!(payload.embeds[0].fields[0].value, "0");
}

#[test]
fn addresses() {
    assert_eq!(DiscordNotifier::base_url("https://d/w/1?thread=2?x"), "https://d/w/1");
    assert_eq!(DiscordNotifier::base_url("https://d/w/1"), "https://d/w/1");
    assert_eq!(DiscordNotifier::base_url("?a"), "");
    assert_eq!(DiscordNotifier::base_url("https://dé/w?ü"), "https://dé/w");
    assert_eq!(DiscordNotifier::wait_url("https://d/w/1"), "https://d/w/1?wait=true");
    assert_eq!(DiscordNotifier::wait_url("https://d/w/1?t=2"), "https://d/w/1?t=2&wait=true");
    assert_eq!(DiscordNotifier::message_url("https://d/w/1", "9"), "https://d/w/1/messages/9");
    assert_eq!(
        DiscordNotifier::message_url("https://d/w/1//?t=2", "9"),
        "https://d/w/1/messages/9"
    );
    assert_eq!(DiscordNotifier::message_url("//", "9"), "/messages/9");
}

#[test]
fn without_a_webhook_nothing_is_delivered() {
    let notifier = DiscordNotifier::new(None);
    assert!(!notifier.is_configured());
    assert!(matches!(
        notifier.start_delivery(Some("9")),
        Delivery::Done(NotificationResult::Failed)
    ));
    assert!(matches!(notifier.start_delivery(None), Delivery::Done(NotificationResult::Failed)));
    assert!(matches!(notifier.after_edit(false), Delivery::Done(NotificationResult::Failed)));
}

#[test]
fn a_known_message_is_edited() {
    let notifier = DiscordNotifier::new(Some("https://d/w/1?t=2".to_string()));
    assert!(notifier.is_configured());
    match notifier.start_delivery(Some("9")) {
        Delivery::Edit { url } => assert_eq!(url, "https://d/w/1/messages/9"),
        step => panic!("{:?}", step),
    }
    assert!(matches!(notifier.after_edit(true), Delivery::Done(NotificationResult::Updated)));
    match notifier.after_edit(false) {
        Delivery::Create { url } => assert_eq!(url, "https://d/w/1?t=2&wait=true"),
        step => panic!("{:?}", step),
    }
}

#[test]
fn a_new_message_is_posted() {
    let notifier = DiscordNotifier::new(Some("https://d/w/1".to_string()));
    match notifier.start_delivery(None) {
        Delivery::Create { url } => assert_eq!(url, "https://d/w/1?wait=true"),
        step => panic!("{:?}", step),
    }
    match DiscordNotifier::after_create(Some("12".to_string())) {
        NotificationResult::Created(id) => assert_eq!(id, "12"),
        result => panic!("{:?}", result),
    }
    assert!(matches!(DiscordNotifier::after_create(None), NotificationResult::Failed));
}

#[test]
fn messages_without_an_id_go_to_the_webhook_itself() {
    let notifier = DiscordNotifier::new(Some("https://d/hook?x=1".to_string()));
    assert_eq!(notifier.post_url(), Some("https://d/hook?x=1"));
    assert_eq!(DiscordNotifier::new(None).post_url(), None);
}

#[test]
fn codes_of_success_are_accepted() {
    for (code, ok) in [(199, false), (200, true), (204, true), (299, true), (300, false)] {
        assert_eq!(accepted(code), ok, "{}", code);
    }
    assert!(!accepted(404));
}
