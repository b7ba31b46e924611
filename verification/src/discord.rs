//! Messages to the Discord channel: what they say and how they are delivered.

use vstd::prelude::*;

use crate::clock::{
    duration_text, format_duration, is_time_text, iso_timestamp, timestamp_text,
};
use crate::models::ServiceHealth;
use crate::text::{decimal, decimal_text};
use crate::weekly::LongestOutage;

verus! {

/// A change of health to announce.
#[derive(Debug)]
pub struct TransitionContext {
    pub service: String,
    pub previous: ServiceHealth,
    pub current: ServiceHealth,
    pub timestamp: u64,
    pub latency_ms: Option<u128>,
    pub incident_id: Option<String>,
    pub error: Option<String>,
}

/// A long outage to bring up again.
#[derive(Debug)]
pub struct ReminderContext {
    pub service: String,
    pub incident_id: String,
    pub duration_minutes: u64,
}

/// What a weekly report says about one service, the numbers already written
/// out.
#[derive(Debug)]
pub struct ServiceReport {
    pub name: String,
    /// The share of checks that found the service up, in percent.
    pub uptime: String,
    /// The average latency in milliseconds, if it is known.
    pub latency: Option<String>,
}

/// What became of an announcement.
#[derive(Debug)]
pub enum NotificationResult {
    /// A new message was posted; it has this id.
    Created(String),
    /// The message that was there was edited.
    Updated,
    /// Nothing was posted.
    Failed,
}

/// A message as the webhook takes it.
#[derive(Debug)]
pub struct DiscordPayload {
    pub username: &'static str,
    pub content: String,
    pub embeds: Vec<DiscordEmbed>,
}

/// A box in a message.
#[derive(Debug)]
pub struct DiscordEmbed {
    pub title: String,
    pub description: String,
    pub color: u32,
    pub fields: Vec<DiscordField>,
}

/// A labelled value in a box.
#[derive(Debug)]
pub struct DiscordField {
    pub name: String,
    pub value: String,
    pub inline: bool,
}

/// What a message says.
pub struct PayloadView {
    pub username: Seq<char>,
    pub content: Seq<char>,
    pub embeds: Seq<EmbedView>,
}

/// What a box says.
pub struct EmbedView {
    pub title: Seq<char>,
    pub description: Seq<char>,
    pub color: u32,
    pub fields: Seq<FieldView>,
}

/// What a field says.
pub struct FieldView {
    pub name: Seq<char>,
    pub value: Seq<char>,
    pub inline: bool,
}

impl View for DiscordField {
    type V = FieldView;

    open spec fn view(&self) -> FieldView {
        FieldView { name: self.name@, value: self.value@, inline: self.inline }
    }
}

impl View for DiscordEmbed {
    type V = EmbedView;

    open spec fn view(&self) -> EmbedView {
        EmbedView {
            title: self.title@,
            description: self.description@,
            color: self.color,
            fields: self.fields@.map_values(|field: DiscordField| field@),
        }
    }
}

impl View for DiscordPayload {
    type V = PayloadView;

    open spec fn view(&self) -> PayloadView {
        PayloadView {
            username: self.username@,
            content: self.content@,
            embeds: self.embeds@.map_values(|embed: DiscordEmbed| embed@),
        }
    }
}

/// The color that stands for a health.
pub open spec fn color_of(health: ServiceHealth) -> u32 {
    match health {
        ServiceHealth::Up => 0x4ade80,
        ServiceHealth::Degraded => 0xfacc15,
        ServiceHealth::Down => 0xf87171,
        ServiceHealth::Unknown => 0x94a3b8,
    }
}

/// The color that stands for a health.
pub fn status_color(health: ServiceHealth) -> (color: u32)
    ensures
        color == color_of(health),
{
    match health {
        ServiceHealth::Up => 0x4ade80,
        ServiceHealth::Degraded => 0xfacc15,
        ServiceHealth::Down => 0xf87171,
        ServiceHealth::Unknown => 0x94a3b8,
    }
}

/// The word for a health.
pub open spec fn health_word(health: ServiceHealth) -> Seq<char> {
    match health {
        ServiceHealth::Up => "Up"@,
        ServiceHealth::Degraded => "Degraded"@,
        ServiceHealth::Down => "Down"@,
        ServiceHealth::Unknown => "Unknown"@,
    }
}

fn health_text(health: ServiceHealth) -> (text: &'static str)
    ensures
        text@ == health_word(health),
{
    match health {
        ServiceHealth::Up => "Up",
        ServiceHealth::Degraded => "Degraded",
        ServiceHealth::Down => "Down",
        ServiceHealth::Unknown => "Unknown",
    }
}

fn inline_field(name: String, value: String) -> (field: DiscordField)
    ensures
        field@ == (FieldView { name: name@, value: value@, inline: true }),
{
    DiscordField { name, value, inline: true }
}

/// The message that announces a change of health at the given time.
pub open spec fn transition_view(context: TransitionContext, when: Seq<char>) -> PayloadView {
    PayloadView {
        username: "Portal Healthcheck"@,
        content: "**"@ + context.service@ + "** status changed: `"@ + health_word(context.previous)
            + "` → `"@ + health_word(context.current) + "` at "@ + when,
        embeds: seq![
            EmbedView {
                title: "Status Transition"@,
                description: match context.error {
                    Some(error) => error@,
                    None => "No error reported"@,
                },
                color: color_of(context.current),
                fields: seq![
                    FieldView {
                        name: "Latency (ms)"@,
                        value: match context.latency_ms {
                            Some(latency) => decimal_text(latency as nat),
                            None => "n/a"@,
                        },
                        inline: true,
                    },
                    FieldView {
                        name: "Incident"@,
                        value: match context.incident_id {
                            Some(id) => id@,
                            None => "n/a"@,
                        },
                        inline: true,
                    },
                ],
            },
        ],
    }
}

/// The message that announces a change of health, the time already written out.
pub fn transition_payload_at(context: &TransitionContext, when: &str) -> (payload: DiscordPayload)
    ensures
        payload@ == transition_view(*context, when@),
        payload.username@ == "Portal Healthcheck"@,
        payload.content@ == "**"@ + context.service@ + "** status changed: `"@ + health_word(
            context.previous,
        ) + "` → `"@ + health_word(context.current) + "` at "@ + when@,
        payload.embeds@.len() == 1,
        payload.embeds@[0].title@ == "Status Transition"@,
        payload.embeds@[0].description@ == (match context.error {
            Some(error) => error@,
            None => "No error reported"@,
        }),
        payload.embeds@[0].color == color_of(context.current),
        payload.embeds@[0].fields@.len() == 2,
        payload.embeds@[0].fields@[0].name@ == "Latency (ms)"@,
        payload.embeds@[0].fields@[0].value@ == (match context.latency_ms {
            Some(latency) => decimal_text(latency as nat),
            None => "n/a"@,
        }),
        payload.embeds@[0].fields@[0].inline,
        payload.embeds@[0].fields@[1].name@ == "Incident"@,
        payload.embeds@[0].fields@[1].value@ == (match context.incident_id {
            Some(id) => id@,
            None => "n/a"@,
        }),
        payload.embeds@[0].fields@[1].inline,
{
    let mut content = "**".to_owned();
    content.append(context.service.as_str());
    content.append("** status changed: `");
    content.append(health_text(context.previous));
    content.append("` → `");
    content.append(health_text(context.current));
    content.append("` at ");
    content.append(when);
    let description = match &context.error {
        Some(error) => error.clone(),
        None => "No error reported".to_owned(),
    };
    let latency = match context.latency_ms {
        Some(latency) => decimal(latency),
        None => "n/a".to_owned(),
    };
    let incident = match &context.incident_id {
        Some(id) => id.clone(),
        None => "n/a".to_owned(),
    };
    let mut fields: Vec<DiscordField> = Vec::new();
    fields.push(inline_field("Latency (ms)".to_owned(), latency));
    fields.push(inline_field("Incident".to_owned(), incident));
    let embed = DiscordEmbed {
        title: "Status Transition".to_owned(),
        description,
        color: status_color(context.current),
        fields,
    };
    assert(embed@.fields =~= transition_view(*context, when@).embeds[0].fields);
    let mut embeds: Vec<DiscordEmbed> = Vec::new();
    embeds.push(embed);
    let payload = DiscordPayload { username: "Portal Healthcheck", content, embeds };
    assert(payload@.embeds =~= transition_view(*context, when@).embeds);
    assert(payload@.content =~= transition_view(*context, when@).content);
    payload
}

/// The message that announces a change of health. A time outside the calendar is
/// replaced by the present one.
pub fn transition_payload(context: &TransitionContext) -> (payload: DiscordPayload)
    ensures
        exists|present: Seq<char>|
            is_time_text(present) && payload@ == transition_view(
                *context,
                #[trigger] timestamp_text(context.timestamp, present),
            ),
{
    let when = iso_timestamp(context.timestamp);
    transition_payload_at(context, when.as_str())
}

/// The message that brings up a long outage.
pub open spec fn reminder_view(context: ReminderContext) -> PayloadView {
    PayloadView {
        username: "Portal Healthcheck"@,
        content: ":warning: Incident `"@ + context.incident_id@ + "` for **"@ + context.service@
            + "** still open ("@ + decimal_text(context.duration_minutes as nat) + " min)."@,
        embeds: seq![
            EmbedView {
                title: "Prolonged outage reminder"@,
                description: "This service remains impaired. Please review ongoing remediation."@,
                color: color_of(ServiceHealth::Down),
                fields: seq![
                    FieldView {
                        name: "Duration (minutes)"@,
                        value: decimal_text(context.duration_minutes as nat),
                        inline: true,
                    },
                ],
            },
        ],
    }
}

/// The message that brings up a long outage.
pub fn reminder_payload(context: &ReminderContext) -> (payload: DiscordPayload)
    ensures
        payload@ == reminder_view(*context),
        payload.username@ == "Portal Healthcheck"@,
        payload.content@ == ":warning: Incident `"@ + context.incident_id@ + "` for **"@
            + context.service@ + "** still open ("@ + decimal_text(context.duration_minutes as nat)
            + " min)."@,
        payload.embeds@.len() == 1,
        payload.embeds@[0].title@ == "Prolonged outage reminder"@,
        payload.embeds@[0].description@
            == "This service remains impaired. Please review ongoing remediation."@,
        payload.embeds@[0].color == 0xf87171,
        payload.embeds@[0].fields@.len() == 1,
        payload.embeds@[0].fields@[0].name@ == "Duration (minutes)"@,
        payload.embeds@[0].fields@[0].value@ == decimal_text(context.duration_minutes as nat),
        payload.embeds@[0].fields@[0].inline,
{
    let minutes = decimal(context.duration_minutes as u128);
    let mut content = ":warning: Incident `".to_owned();
    content.append(context.incident_id.as_str());
    content.append("` for **");
    content.append(context.service.as_str());
    content.append("** still open (");
    content.append(minutes.as_str());
    content.append(" min).");
    let mut fields: Vec<DiscordField> = Vec::new();
    fields.push(inline_field("Duration (minutes)".to_owned(), minutes));
    let embed = DiscordEmbed {
        title: "Prolonged outage reminder".to_owned(),
        description:
            "This service remains impaired. Please review ongoing remediation.".to_owned(),
        color: status_color(ServiceHealth::Down),
        fields,
    };
    assert(embed@.fields =~= reminder_view(*context).embeds[0].fields);
    let mut embeds: Vec<DiscordEmbed> = Vec::new();
    embeds.push(embed);
    let payload = DiscordPayload { username: "Portal Healthcheck", content, embeds };
    assert(payload@.embeds =~= reminder_view(*context).embeds);
    assert(payload@.content =~= reminder_view(*context).content);
    payload
}

/// What a weekly report says about one service.
pub open spec fn service_field(report: ServiceReport) -> FieldView {
    FieldView {
        name: report.name@,
        value: "Uptime: "@ + report.uptime@ + "%\nAvg Latency: "@ + match report.latency {
            Some(latency) => latency@ + "ms"@,
            None => "n/a"@,
        },
        inline: true,
    }
}

/// What a weekly report says about incidents.
pub open spec fn incident_fields(
    total_incidents: usize,
    longest_outage: Option<LongestOutage>,
) -> Seq<FieldView> {
    let total = FieldView {
        name: "Total Incidents"@,
        value: decimal_text(total_incidents as nat),
        inline: true,
    };
    match longest_outage {
        Some(longest) => seq![
            total,
            FieldView {
                name: "Longest Outage"@,
                value: longest.service@ + ": "@ + duration_text(longest.duration_secs),
                inline: true,
            },
        ],
        None => seq![total],
    }
}

/// The weekly report for the time between the two given.
pub open spec fn weekly_report_view(
    services: Seq<ServiceReport>,
    total_incidents: usize,
    longest_outage: Option<LongestOutage>,
    start: Seq<char>,
    end: Seq<char>,
) -> PayloadView {
    PayloadView {
        username: "Portal Healthcheck"@,
        content: ":bar_chart: **Weekly Status Report** ("@ + start + " - "@ + end + ")"@,
        embeds: seq![
            EmbedView {
                title: "Service Health Summary"@,
                description: "Weekly performance metrics for all monitored services."@,
                color: 0x3b82f6,
                fields: services.map_values(|report: ServiceReport| service_field(report))
                    + incident_fields(total_incidents, longest_outage),
            },
        ],
    }
}

fn service_field_of(report: &ServiceReport) -> (field: DiscordField)
    ensures
        field@ == service_field(*report),
{
    let mut value = "Uptime: ".to_owned();
    value.append(report.uptime.as_str());
    value.append("%\nAvg Latency: ");
    let latency = match &report.latency {
        Some(latency) => {
            let mut text = latency.clone();
            text.append("ms");
            text
        },
        None => "n/a".to_owned(),
    };
    value.append(latency.as_str());
    inline_field(report.name.clone(), value)
}

/// The weekly report, the times already written out.
pub fn weekly_report_payload_at(
    services: &Vec<ServiceReport>,
    total_incidents: usize,
    longest_outage: &Option<LongestOutage>,
    start: &str,
    end: &str,
) -> (payload: DiscordPayload)
    ensures
        payload@ == weekly_report_view(
            services@,
            total_incidents,
            *longest_outage,
            start@,
            end@,
        ),
        payload.username@ == "Portal Healthcheck"@,
        payload.content@ == ":bar_chart: **Weekly Status Report** ("@ + start@ + " - "@ + end@
            + ")"@,
        payload.embeds@.len() == 1,
        payload.embeds@[0].title@ == "Service Health Summary"@,
        payload.embeds@[0].description@
            == "Weekly performance metrics for all monitored services."@,
        payload.embeds@[0].color == 0x3b82f6,
        payload.embeds@[0].fields@.len() == services@.len() + (if longest_outage is Some {
            2int
        } else {
            1int
        }),
{
    let ghost expected = weekly_report_view(
        services@,
        total_incidents,
        *longest_outage,
        start@,
        end@,
    );
    let ghost written = services@.map_values(|report: ServiceReport| service_field(report));
    let mut fields: Vec<DiscordField> = Vec::new();
    let mut i: usize = 0;
    while i < services.len()
        invariant
            i <= services@.len(),
            written == services@.map_values(|report: ServiceReport| service_field(report)),
            fields@.map_values(|field: DiscordField| field@) == written.take(i as int),
        decreases services.len() - i,
    {
        let ghost before = fields@;
        let field = service_field_of(&services[i]);
        fields.push(field);
        i = i + 1;
        assert(fields@.map_values(|field: DiscordField| field@) =~= before.map_values(
            |field: DiscordField| field@,
        ).push(field@));
        assert(written.take(i as int) =~= written.take(i - 1).push(written[i - 1]));
    }
    assert(written.take(i as int) =~= written);
    let ghost of_services = fields@;
    fields.push(inline_field("Total Incidents".to_owned(), decimal(total_incidents as u128)));
    if let Some(longest) = longest_outage {
        let mut value = longest.service.clone();
        value.append(": ");
        value.append(format_duration(longest.duration_secs).as_str());
        fields.push(inline_field("Longest Outage".to_owned(), value));
    }
    assert(fields@.map_values(|field: DiscordField| field@) =~= of_services.map_values(
        |field: DiscordField| field@,
    ) + incident_fields(total_incidents, *longest_outage));
    let mut content = ":bar_chart: **Weekly Status Report** (".to_owned();
    content.append(start);
    content.append(" - ");
    content.append(end);
    content.append(")");
    let embed = DiscordEmbed {
        title: "Service Health Summary".to_owned(),
        description: "Weekly performance metrics for all monitored services.".to_owned(),
        color: 0x3b82f6,
        fields,
    };
    let mut embeds: Vec<DiscordEmbed> = Vec::new();
    embeds.push(embed);
    let payload = DiscordPayload { username: "Portal Healthcheck", content, embeds };
    assert(payload@.embeds =~= expected.embeds);
    assert(payload@.content =~= expected.content);
    payload
}

/// The weekly report for the time between two timestamps. Each of them that is
/// outside the calendar is replaced by the present time.
pub fn weekly_report_payload(
    services: &Vec<ServiceReport>,
    total_incidents: usize,
    longest_outage: &Option<LongestOutage>,
    week_start: u64,
    week_end: u64,
) -> (payload: DiscordPayload)
    ensures
        exists|at_start: Seq<char>, at_end: Seq<char>|
            {
                &&& is_time_text(at_start)
                &&& is_time_text(at_end)
                &&& payload@ == weekly_report_view(
                    services@,
                    total_incidents,
                    *longest_outage,
                    #[trigger] timestamp_text(week_start, at_start),
                    #[trigger] timestamp_text(week_end, at_end),
                )
            },
{
    let start = iso_timestamp(week_start);
    let end = iso_timestamp(week_end);
    weekly_report_payload_at(
        services,
        total_incidents,
        longest_outage,
        start.as_str(),
        end.as_str(),
    )
}

/// Every health has a word and a color of its own.
pub proof fn law_words_and_colors_of_health()
    ensures
        health_word(ServiceHealth::Up) == "Up"@,
        health_word(ServiceHealth::Degraded) == "Degraded"@,
        health_word(ServiceHealth::Down) == "Down"@,
        health_word(ServiceHealth::Unknown) == "Unknown"@,
        color_of(ServiceHealth::Up) == 0x4ade80,
        color_of(ServiceHealth::Degraded) == 0xfacc15,
        color_of(ServiceHealth::Down) == 0xf87171,
        color_of(ServiceHealth::Unknown) == 0x94a3b8,
{
}

/// An announcement names the service, then the health before the change, then
/// the one after it, then the time, whatever the change is.
pub proof fn law_announcement_tells_before_and_after(context: TransitionContext, when: Seq<char>)
    ensures
        transition_view(context, when).username == "Portal Healthcheck"@,
        transition_view(context, when).content == "**"@ + context.service@
            + "** status changed: `"@ + (match context.previous {
            ServiceHealth::Up => "Up"@,
            ServiceHealth::Degraded => "Degraded"@,
            ServiceHealth::Down => "Down"@,
            ServiceHealth::Unknown => "Unknown"@,
        }) + "` → `"@ + (match context.current {
            ServiceHealth::Up => "Up"@,
            ServiceHealth::Degraded => "Degraded"@,
            ServiceHealth::Down => "Down"@,
            ServiceHealth::Unknown => "Unknown"@,
        }) + "` at "@ + when,
{
}

/// The box of an announcement holds the error, the color of the new health, the
/// latency and the incident, each if it is known.
pub proof fn law_announcement_gives_particulars(context: TransitionContext, when: Seq<char>)
    ensures
        ({
            let view = transition_view(context, when);
            let embed = view.embeds[0];
            &&& view.embeds.len() == 1
            &&& embed.title == "Status Transition"@
            &&& context.error matches Some(error) ==> embed.description == error@
            &&& context.error is None ==> embed.description == "No error reported"@
            &&& context.current is Up ==> embed.color == 0x4ade80
            &&& context.current is Degraded ==> embed.color == 0xfacc15
            &&& context.current is Down ==> embed.color == 0xf87171
            &&& context.current is Unknown ==> embed.color == 0x94a3b8
            &&& embed.fields.len() == 2
            &&& embed.fields[0].name == "Latency (ms)"@
            &&& context.latency_ms matches Some(latency) ==> embed.fields[0].value == decimal_text(
                latency as nat,
            )
            &&& context.latency_ms is None ==> embed.fields[0].value == "n/a"@
            &&& embed.fields[1].name == "Incident"@
            &&& context.incident_id matches Some(id) ==> embed.fields[1].value == id@
            &&& context.incident_id is None ==> embed.fields[1].value == "n/a"@
            &&& embed.fields[0].inline && embed.fields[1].inline
        }),
{
}

/// A reminder names the incident, the service and the minutes, and repeats the
/// minutes in its box.
pub proof fn law_reminder_names_incident_and_minutes(context: ReminderContext)
    ensures
        ({
            let view = reminder_view(context);
            let minutes = decimal_text(context.duration_minutes as nat);
            &&& view.username == "Portal Healthcheck"@
            &&& view.content == ":warning: Incident `"@ + context.incident_id@ + "` for **"@
                + context.service@ + "** still open ("@ + minutes + " min)."@
            &&& view.embeds.len() == 1
            &&& view.embeds[0].title == "Prolonged outage reminder"@
            &&& view.embeds[0].description
                == "This service remains impaired. Please review ongoing remediation."@
            &&& view.embeds[0].color == 0xf87171
            &&& view.embeds[0].fields.len() == 1
            &&& view.embeds[0].fields[0].name == "Duration (minutes)"@
            &&& view.embeds[0].fields[0].value == minutes
            &&& view.embeds[0].fields[0].inline
        }),
{
}

/// A weekly report gives the start and the end of the week, then one field per
/// service in their order, with its uptime and its latency if that is known,
/// then the number of incidents, and last the longest outage if there was one.
pub proof fn law_report_lists_services_then_incidents(
    services: Seq<ServiceReport>,
    total_incidents: usize,
    longest_outage: Option<LongestOutage>,
    start: Seq<char>,
    end: Seq<char>,
)
    ensures
        ({
            let view = weekly_report_view(services, total_incidents, longest_outage, start, end);
            let fields = view.embeds[0].fields;
            let count = services.len() as int;
            &&& view.username == "Portal Healthcheck"@
            &&& view.content == ":bar_chart: **Weekly Status Report** ("@ + start + " - "@ + end
                + ")"@
            &&& view.embeds.len() == 1
            &&& view.embeds[0].title == "Service Health Summary"@
            &&& view.embeds[0].description
                == "Weekly performance metrics for all monitored services."@
            &&& view.embeds[0].color == 0x3b82f6
            &&& forall|i: int|
                0 <= i < count ==> {
                    &&& (#[trigger] fields[i]).name == services[i].name@
                    &&& fields[i].inline
                    &&& services[i].latency matches Some(latency) ==> fields[i].value
                        == "Uptime: "@ + services[i].uptime@ + "%\nAvg Latency: "@ + (latency@
                        + "ms"@)
                    &&& services[i].latency is None ==> fields[i].value == "Uptime: "@
                        + services[i].uptime@ + "%\nAvg Latency: "@ + "n/a"@
                }
            &&& fields[count].name == "Total Incidents"@
            &&& fields[count].value == decimal_text(total_incidents as nat)
            &&& fields[count].inline
            &&& longest_outage is None ==> fields.len() == count + 1
            &&& longest_outage matches Some(longest) ==> {
                &&& fields.len() == count + 2
                &&& fields[count + 1].name == "Longest Outage"@
                &&& fields[count + 1].value == longest.service@ + ": "@ + duration_text(
                    longest.duration_secs,
                )
                &&& fields[count + 1].inline
            }
        }),
{
}

} // verus!
