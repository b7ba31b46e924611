//! The history of incidents: finding, opening and closing them.

use vstd::prelude::*;

use crate::models::{Incident, ServiceConfig, ServiceHealth, ServiceStatus};
use crate::text::same_text;

verus! {

/// Whether a character is a hexadecimal digit in lower case.
pub open spec fn is_lower_hex(c: char) -> bool {
    '0' <= c <= '9' || 'a' <= c <= 'f'
}

/// Whether a text has the shape of an incident id: a random (version 4) UUID,
/// hyphenated and in lower case.
pub open spec fn is_incident_id(text: Seq<char>) -> bool {
    &&& text.len() == 36
    &&& text[14] == '4'
    &&& text[19] == '8' || text[19] == '9' || text[19] == 'a' || text[19] == 'b'
    &&& forall|i: int|
        0 <= i < 36 ==> if i == 8 || i == 13 || i == 18 || i == 23 {
            #[trigger] text[i] == '-'
        } else {
            is_lower_hex(text[i])
        }
}

/// A fresh id for an incident.
///
/// Trusted: calls `uuid::Uuid::new_v4` and prints the result. The contract
/// claims only the shape of the text: 36 characters, hyphens after the 8th,
/// 12th, 16th and 20th of 32 lower-case hexadecimal digits, with the version
/// digit 4 and a variant digit of 8, 9, a or b. The digits are random; that two
/// ids differ is not claimed.
#[verifier::external_body]
pub(crate) fn new_incident_id() -> (id: String)
    ensures
        is_incident_id(id@),
{
    uuid::Uuid::new_v4().to_string()
}

/// Whether an incident is an open one of the given service.
pub open spec fn is_open_for(incident: Incident, service: Seq<char>) -> bool {
    incident.service@ == service && incident.ended_at is None
}

/// Whether some incident of the given service is open.
pub open spec fn has_open(incidents: Seq<Incident>, service: Seq<char>) -> bool {
    exists|i: int| 0 <= i < incidents.len() && is_open_for(#[trigger] incidents[i], service)
}

/// Whether the incident at `index` is the latest open one of the given service.
pub open spec fn is_last_open(incidents: Seq<Incident>, service: Seq<char>, index: int) -> bool {
    &&& 0 <= index < incidents.len()
    &&& is_open_for(incidents[index], service)
    &&& forall|j: int|
        index < j < incidents.len() ==> !is_open_for(#[trigger] incidents[j], service)
}

/// The position of the latest open incident of a service that has one.
pub open spec fn last_open(incidents: Seq<Incident>, service: Seq<char>) -> int {
    choose|index: int| is_last_open(incidents, service, index)
}

/// The latest open incident of a service, if it has one.
pub fn find_open_incident<'a>(service: &str, incidents: &'a mut [Incident]) -> (found: Option<
    &'a mut Incident,
>)
    ensures
        match found {
            Some(open) => {
                let index = last_open(old(incidents)@, service@);
                &&& is_last_open(old(incidents)@, service@, index)
                &&& *open == old(incidents)@[index]
                &&& final(incidents)@ == old(incidents)@.update(index, *final(open))
            },
            None => {
                &&& !has_open(old(incidents)@, service@)
                &&& final(incidents)@ == old(incidents)@
            },
        },
        found is None <==> forall|i: int|
            0 <= i < old(incidents)@.len() ==> (#[trigger] old(incidents)@[i]).service@ != service@
                || old(incidents)@[i].ended_at is Some,
        found matches Some(open) ==> open.service@ == service@ && open.ended_at is None,
{
    let mut i: usize = incidents.len();
    while i > 0
        invariant
            i <= incidents@.len(),
            incidents@ == old(incidents)@,
            forall|j: int|
                i <= j < incidents@.len() ==> !is_open_for(#[trigger] incidents@[j], service@),
        decreases i,
    {
        i = i - 1;
        if incidents[i].ended_at.is_none() && same_text(incidents[i].service.as_str(), service) {
            assert(is_last_open(incidents@, service@, i as int));
            return Some(&mut incidents[i]);
        }
    }
    None
}

/// An incident that has just begun.
pub open spec fn new_incident(
    id: String,
    config: ServiceConfig,
    started_at: u64,
    summary: Option<String>,
) -> Incident {
    Incident {
        id,
        service: config.name,
        started_at,
        ended_at: None,
        summary,
        remediation: None,
    }
}

/// The history after the latest open incident of a service, if any, ended.
pub open spec fn with_last_closed(
    incidents: Seq<Incident>,
    service: Seq<char>,
    ended_at: u64,
) -> Seq<Incident> {
    if has_open(incidents, service) {
        let index = last_open(incidents, service);
        incidents.update(index, Incident { ended_at: Some(ended_at), ..incidents[index] })
    } else {
        incidents
    }
}

/// Whether a change of health opens an incident.
pub open spec fn opens_incident(
    config: ServiceConfig,
    new_health: ServiceHealth,
    previous: ServiceHealth,
    incidents: Seq<Incident>,
) -> bool {
    &&& new_health is Degraded || new_health is Down
    &&& previous != new_health
    &&& !has_open(incidents, config.name@)
}

/// The status of a service after a change of health; `id` names the incident
/// that the change opens, if it opens one.
pub open spec fn status_after_transition(
    config: ServiceConfig,
    new_health: ServiceHealth,
    previous: ServiceHealth,
    id: String,
    status: ServiceStatus,
    incidents: Seq<Incident>,
) -> ServiceStatus {
    if new_health is Up || new_health is Unknown {
        ServiceStatus { incident_id: None, ..status }
    } else if previous == new_health {
        status
    } else if has_open(incidents, config.name@) {
        ServiceStatus {
            incident_id: Some(incidents[last_open(incidents, config.name@)].id),
            ..status
        }
    } else {
        ServiceStatus { incident_id: Some(id), ..status }
    }
}

/// The history after a change of health; `id` names the incident that the
/// change opens, if it opens one.
pub open spec fn incidents_after_transition(
    config: ServiceConfig,
    new_health: ServiceHealth,
    previous: ServiceHealth,
    timestamp: u64,
    id: String,
    status: ServiceStatus,
    incidents: Seq<Incident>,
) -> Seq<Incident> {
    if new_health is Up {
        with_last_closed(incidents, config.name@, timestamp)
    } else if opens_incident(config, new_health, previous, incidents) {
        incidents.push(new_incident(id, config, timestamp, status.error))
    } else {
        incidents
    }
}

/// Adds a new incident of a service to the history and links its status to it.
pub fn open_incident(
    config: &ServiceConfig,
    timestamp: u64,
    id: String,
    status: &mut ServiceStatus,
    incidents: &mut Vec<Incident>,
)
    ensures
        *final(status) == (ServiceStatus { incident_id: Some(id), ..*old(status) }),
        final(incidents)@ == old(incidents)@.push(
            new_incident(id, *config, timestamp, old(status).error),
        ),
        final(incidents)@ == old(incidents)@.push(
            (Incident {
                id,
                service: config.name,
                started_at: timestamp,
                ended_at: None,
                summary: old(status).error,
                remediation: None,
            }),
        ),
{
    let incident = Incident {
        id,
        service: config.name.clone(),
        started_at: timestamp,
        ended_at: None,
        summary: status.error.clone(),
        remediation: None,
    };
    status.incident_id = Some(incident.id.clone());
    incidents.push(incident);
}

/// Brings the history and the status of a service in line with a change of its
/// health: a recovery ends the open incident, an outage opens one or joins the
/// one that is open.
pub fn handle_incident_transition(
    config: &ServiceConfig,
    new_health: ServiceHealth,
    previous: ServiceHealth,
    timestamp: u64,
    status: &mut ServiceStatus,
    incidents: &mut Vec<Incident>,
)
    ensures
        exists|id: String|
            {
                &&& opens_incident(*config, new_health, previous, old(incidents)@)
                    ==> is_incident_id(id@)
                &&& *final(status) == #[trigger] status_after_transition(
                    *config,
                    new_health,
                    previous,
                    id,
                    *old(status),
                    old(incidents)@,
                )
                &&& final(incidents)@ == incidents_after_transition(
                    *config,
                    new_health,
                    previous,
                    timestamp,
                    id,
                    *old(status),
                    old(incidents)@,
                )
            },
{
    let ghost before = *status;
    let ghost history = incidents@;
    let ghost mut id: String = config.name;
    match new_health {
        ServiceHealth::Up => {
            if let Some(open) = find_open_incident(config.name.as_str(), incidents.as_mut_slice()) {
                open.ended_at = Some(timestamp);
            }
            status.incident_id = None;
        },
        ServiceHealth::Degraded | ServiceHealth::Down => {
            if previous != new_health {
                let mut known: Option<String> = None;
                if let Some(open) = find_open_incident(
                    config.name.as_str(),
                    incidents.as_mut_slice(),
                ) {
                    known = Some(open.id.clone());
                }
                match known {
                    Some(known_id) => {
                        status.incident_id = Some(known_id);
                    },
                    None => {
                        let fresh = new_incident_id();
                        proof {
                            id = fresh;
                        }
                        open_incident(config, timestamp, fresh, status, incidents);
                    },
                }
            }
        },
        ServiceHealth::Unknown => {
            status.incident_id = None;
        },
    }
    assert(*status == status_after_transition(
        *config,
        new_health,
        previous,
        id,
        before,
        history,
    ));
    assert(incidents@ == incidents_after_transition(
        *config,
        new_health,
        previous,
        timestamp,
        id,
        before,
        history,
    ));
}

/// The latest open incident of a service is the one that is found: it is of the
/// service and has not ended, and no later one is both.
pub proof fn law_latest_open_incident_is_found(
    incidents: Seq<Incident>,
    service: Seq<char>,
    index: int,
)
    requires
        0 <= index < incidents.len(),
        incidents[index].service@ == service,
        incidents[index].ended_at is None,
        forall|j: int|
            index < j < incidents.len() ==> (#[trigger] incidents[j]).service@ != service
                || incidents[j].ended_at is Some,
    ensures
        has_open(incidents, service),
        last_open(incidents, service) == index,
        is_last_open(incidents, service, index),
{
    assert(is_open_for(incidents[index], service));
    assert(is_last_open(incidents, service, index));
    let found = last_open(incidents, service);
    assert(is_last_open(incidents, service, found));
    if found < index {
        assert(!is_open_for(incidents[index], service));
    } else if index < found {
        assert(is_open_for(incidents[found], service));
    }
}

/// Where every incident of a service has ended, none is found.
pub proof fn law_no_open_incident_is_found(incidents: Seq<Incident>, service: Seq<char>)
    requires
        forall|j: int|
            0 <= j < incidents.len() ==> (#[trigger] incidents[j]).service@ != service
                || incidents[j].ended_at is Some,
    ensures
        !has_open(incidents, service),
{
}

/// A recovery ends the latest open incident at the time of the recovery and
/// changes nothing else in the history; the service is linked to no incident.
pub proof fn law_recovery_ends_latest_incident(
    config: ServiceConfig,
    previous: ServiceHealth,
    timestamp: u64,
    id: String,
    status: ServiceStatus,
    incidents: Seq<Incident>,
    index: int,
)
    requires
        0 <= index < incidents.len(),
        incidents[index].service@ == config.name@,
        incidents[index].ended_at is None,
        forall|j: int|
            index < j < incidents.len() ==> (#[trigger] incidents[j]).service@ != config.name@
                || incidents[j].ended_at is Some,
    ensures
        ({
            let up = ServiceHealth::Up;
            let after = incidents_after_transition(
                config,
                up,
                previous,
                timestamp,
                id,
                status,
                incidents,
            );
            let linked = status_after_transition(config, up, previous, id, status, incidents);
            &&& after.len() == incidents.len()
            &&& after[index].ended_at == Some(timestamp)
            &&& after[index].id == incidents[index].id
            &&& after[index].service == incidents[index].service
            &&& after[index].started_at == incidents[index].started_at
            &&& after[index].summary == incidents[index].summary
            &&& after[index].remediation == incidents[index].remediation
            &&& forall|j: int|
                0 <= j < incidents.len() && j != index ==> #[trigger] after[j] == incidents[j]
            &&& linked == (ServiceStatus { incident_id: None, ..status })
        }),
{
    law_latest_open_incident_is_found(incidents, config.name@, index);
}

/// A change to trouble joins the latest open incident of the service and leaves
/// the history as it is.
pub proof fn law_trouble_joins_open_incident(
    config: ServiceConfig,
    new_health: ServiceHealth,
    previous: ServiceHealth,
    timestamp: u64,
    id: String,
    status: ServiceStatus,
    incidents: Seq<Incident>,
    index: int,
)
    requires
        new_health is Degraded || new_health is Down,
        previous != new_health,
        0 <= index < incidents.len(),
        incidents[index].service@ == config.name@,
        incidents[index].ended_at is None,
        forall|j: int|
            index < j < incidents.len() ==> (#[trigger] incidents[j]).service@ != config.name@
                || incidents[j].ended_at is Some,
    ensures
        incidents_after_transition(
            config,
            new_health,
            previous,
            timestamp,
            id,
            status,
            incidents,
        ) == incidents,
        status_after_transition(config, new_health, previous, id, status, incidents) == (
        ServiceStatus { incident_id: Some(incidents[index].id), ..status }),
        !opens_incident(config, new_health, previous, incidents),
{
    law_latest_open_incident_is_found(incidents, config.name@, index);
}

/// What a change of health does where no incident of the service is open:
/// trouble opens one at the given time, with the error as its summary, and
/// anything else leaves the history as it is.
pub proof fn law_change_without_open_incident(
    config: ServiceConfig,
    new_health: ServiceHealth,
    previous: ServiceHealth,
    timestamp: u64,
    id: String,
    status: ServiceStatus,
    incidents: Seq<Incident>,
)
    requires
        forall|j: int|
            0 <= j < incidents.len() ==> (#[trigger] incidents[j]).service@ != config.name@
                || incidents[j].ended_at is Some,
    ensures
        ({
            let after = incidents_after_transition(
                config,
                new_health,
                previous,
                timestamp,
                id,
                status,
                incidents,
            );
            let linked = status_after_transition(
                config,
                new_health,
                previous,
                id,
                status,
                incidents,
            );
            let trouble = (new_health is Degraded || new_health is Down) && previous != new_health;
            &&& opens_incident(config, new_health, previous, incidents) <==> trouble
            &&& trouble ==> {
                &&& after == incidents.push(
                    (Incident {
                        id,
                        service: config.name,
                        started_at: timestamp,
                        ended_at: None,
                        summary: status.error,
                        remediation: None,
                    }),
                )
                &&& linked == (ServiceStatus { incident_id: Some(id), ..status })
            }
            &&& !trouble ==> after == incidents
            &&& new_health is Up || new_health is Unknown ==> linked == (ServiceStatus {
                incident_id: None,
                ..status
            })
            &&& (new_health is Degraded || new_health is Down) && previous == new_health ==> linked
                == status
        }),
{
    law_no_open_incident_is_found(incidents, config.name@);
}

/// A service that stays in the same trouble, or of which nothing is known any
/// more, leaves the history as it is.
pub proof fn law_no_news_leaves_history(
    config: ServiceConfig,
    new_health: ServiceHealth,
    previous: ServiceHealth,
    timestamp: u64,
    id: String,
    status: ServiceStatus,
    incidents: Seq<Incident>,
)
    requires
        new_health is Unknown || (previous == new_health && (new_health is Degraded
            || new_health is Down)),
    ensures
        incidents_after_transition(
            config,
            new_health,
            previous,
            timestamp,
            id,
            status,
            incidents,
        ) == incidents,
        new_health is Unknown ==> status_after_transition(
            config,
            new_health,
            previous,
            id,
            status,
            incidents,
        ) == (ServiceStatus { incident_id: None, ..status }),
        !(new_health is Unknown) ==> status_after_transition(
            config,
            new_health,
            previous,
            id,
            status,
            incidents,
        ) == status,
{
}

} // verus!
