//! The polling engine: what each check result does to statuses, incidents and
//! announcements.

use vstd::hash_map::StringHashMap;
use vstd::prelude::*;

use crate::check::CheckResult;
use crate::discord::{NotificationResult, TransitionContext};
use crate::incidents::{
    find_open_incident, handle_incident_transition, has_open, incidents_after_transition,
    is_incident_id, last_open, new_incident, opens_incident, status_after_transition,
    with_last_closed,
};
use crate::models::{
    unchecked_status, Incident, ServiceConfig, ServiceHealth, ServiceStatus, StateSnapshot,
};

verus! {

/// Outages that have been seen and have not ended: for each service in
/// trouble, when the trouble was first seen.
pub struct PendingOutages {
    first_seen: StringHashMap<u64>,
}

impl View for PendingOutages {
    type V = Map<Seq<char>, u64>;

    closed spec fn view(&self) -> Map<Seq<char>, u64> {
        self.first_seen@
    }
}

impl PendingOutages {
    /// No outage at all.
    pub fn new() -> (pending: Self)
        ensures
            pending@ == Map::<Seq<char>, u64>::empty(),
    {
        PendingOutages { first_seen: StringHashMap::new() }
    }

    /// When the outage of a service was first seen, if it has one.
    pub fn get(&self, service: &str) -> (seen: Option<u64>)
        ensures
            seen == (if self@.contains_key(service@) { Some(self@[service@]) } else { None }),
    {
        match self.first_seen.get(service) {
            Some(seen) => Some(*seen),
            None => None,
        }
    }

    /// Notes an outage, unless the service already has one.
    pub fn note(&mut self, service: &str, now: u64)
        ensures
            final(self)@ == noted(old(self)@, service@, now),
            old(self)@.contains_key(service@) ==> final(self)@ == old(self)@,
            !old(self)@.contains_key(service@) ==> final(self)@ == old(self)@.insert(service@, now),
    {
        if !self.first_seen.contains_key(service) {
            self.first_seen.insert(service.to_owned(), now);
        }
    }

    /// Forgets the outage of a service.
    pub fn forget(&mut self, service: &str)
        ensures
            final(self)@ == old(self)@.remove(service@),
    {
        self.first_seen.remove(service);
    }
}

/// The pending outages with one noted; an outage that is there keeps its time.
pub open spec fn noted(
    pending: Map<Seq<char>, u64>,
    service: Seq<char>,
    now: u64,
) -> Map<Seq<char>, u64> {
    if pending.contains_key(service) {
        pending
    } else {
        pending.insert(service, now)
    }
}

/// A change of health to announce, and the message to edit if there is one.
#[derive(Debug)]
pub struct TransitionNotice {
    pub context: TransitionContext,
    pub message_id: Option<String>,
}

/// Whether a health counts as an outage.
pub open spec fn is_unhealthy(health: ServiceHealth) -> bool {
    health is Down || health is Degraded
}

/// What a check result leads to: the new status of the service, the history,
/// the pending outages, and the announcement to make.
pub struct Observation {
    pub status: ServiceStatus,
    pub incidents: Seq<Incident>,
    pub pending: Map<Seq<char>, u64>,
    pub notice: Option<TransitionNotice>,
}

/// How long an outage has lasted; nothing if the clock went back.
pub open spec fn elapsed(since: u64, now: u64) -> int {
    if since <= now {
        now - since
    } else {
        0
    }
}

/// The status of a service as a check leaves it, before incidents are looked at.
pub open spec fn checked_status(
    previous: ServiceStatus,
    result: CheckResult,
    now: u64,
) -> ServiceStatus {
    ServiceStatus {
        health: result.health,
        latency_ms: result.latency_ms,
        last_checked: Some(now),
        error: result.error,
        ..previous
    }
}

/// The pending outages after a service was found in trouble.
pub open spec fn pending_in_outage(
    cfg: ServiceConfig,
    previous: ServiceStatus,
    now: u64,
    pending: Map<Seq<char>, u64>,
) -> Map<Seq<char>, u64> {
    if is_unhealthy(previous.health) {
        pending
    } else {
        noted(pending, cfg.name@, now)
    }
}

/// Whether a pending outage of the service has outlasted the grace period.
pub open spec fn grace_elapsed(
    service: Seq<char>,
    now: u64,
    grace_period_secs: u64,
    pending: Map<Seq<char>, u64>,
) -> bool {
    pending.contains_key(service) && elapsed(pending[service], now) >= grace_period_secs
}

/// Whether a check result opens an incident: the service is in trouble, has
/// been for the grace period, and no incident of it is open.
pub open spec fn check_opens_incident(
    cfg: ServiceConfig,
    previous: ServiceStatus,
    result: CheckResult,
    now: u64,
    grace_period_secs: u64,
    incidents: Seq<Incident>,
    pending: Map<Seq<char>, u64>,
) -> bool {
    &&& is_unhealthy(result.health)
    &&& grace_elapsed(
        cfg.name@,
        now,
        grace_period_secs,
        pending_in_outage(cfg, previous, now, pending),
    )
    &&& !has_open(incidents, cfg.name@)
}

/// Whether a check finds a service in another trouble than before while an
/// incident of it is open.
pub open spec fn trouble_changed(
    cfg: ServiceConfig,
    previous: ServiceStatus,
    result: CheckResult,
    incidents: Seq<Incident>,
) -> bool {
    &&& is_unhealthy(previous.health)
    &&& is_unhealthy(result.health)
    &&& previous.health != result.health
    &&& has_open(incidents, cfg.name@)
}

/// The announcement of a change from one trouble to another.
pub open spec fn trouble_notice(
    cfg: ServiceConfig,
    previous: ServiceStatus,
    result: CheckResult,
    now: u64,
    incidents: Seq<Incident>,
) -> TransitionNotice {
    TransitionNotice {
        context: TransitionContext {
            service: cfg.name,
            previous: previous.health,
            current: result.health,
            timestamp: now,
            latency_ms: result.latency_ms,
            incident_id: Some(incidents[last_open(incidents, cfg.name@)].id),
            error: result.error,
        },
        message_id: previous.discord_message_id,
    }
}

/// What a check result leads to; `id` names the incident that it opens, if it
/// opens one.
pub open spec fn observed(
    cfg: ServiceConfig,
    previous: ServiceStatus,
    result: CheckResult,
    now: u64,
    grace_period_secs: u64,
    emit_notifications: bool,
    incidents: Seq<Incident>,
    pending: Map<Seq<char>, u64>,
    id: String,
) -> Observation {
    let status = checked_status(previous, result, now);
    if is_unhealthy(result.health) {
        let pending = pending_in_outage(cfg, previous, now, pending);
        let change = if emit_notifications && trouble_changed(cfg, previous, result, incidents) {
            Some(trouble_notice(cfg, previous, result, now, incidents))
        } else {
            None
        };
        if !grace_elapsed(cfg.name@, now, grace_period_secs, pending) {
            Observation { status, incidents, pending, notice: change }
        } else if has_open(incidents, cfg.name@) {
            let status = ServiceStatus {
                incident_id: Some(incidents[last_open(incidents, cfg.name@)].id),
                ..status
            };
            Observation { status, incidents, pending, notice: change }
        } else {
            let started_at = pending[cfg.name@];
            let context = TransitionContext {
                service: cfg.name,
                previous: ServiceHealth::Up,
                current: result.health,
                timestamp: now,
                latency_ms: result.latency_ms,
                incident_id: Some(id),
                error: result.error,
            };
            Observation {
                status: ServiceStatus {
                    last_changed: Some(started_at),
                    incident_id: Some(id),
                    ..status
                },
                incidents: incidents.push(new_incident(id, cfg, started_at, result.error)),
                pending,
                notice: if emit_notifications {
                    Some(TransitionNotice { context, message_id: previous.discord_message_id })
                } else {
                    None
                },
            }
        }
    } else if result.health is Up {
        let pending = pending.remove(cfg.name@);
        if has_open(incidents, cfg.name@) {
            let context = TransitionContext {
                service: cfg.name,
                previous: previous.health,
                current: ServiceHealth::Up,
                timestamp: now,
                latency_ms: result.latency_ms,
                incident_id: Some(incidents[last_open(incidents, cfg.name@)].id),
                error: None,
            };
            Observation {
                status: ServiceStatus { last_changed: Some(now), incident_id: None, ..status },
                incidents: with_last_closed(incidents, cfg.name@, now),
                pending,
                notice: if emit_notifications {
                    Some(TransitionNotice { context, message_id: previous.discord_message_id })
                } else {
                    None
                },
            }
        } else {
            Observation {
                status: ServiceStatus { incident_id: None, ..status },
                incidents,
                pending,
                notice: None,
            }
        }
    } else {
        Observation {
            status: ServiceStatus { incident_id: None, ..status },
            incidents,
            pending,
            notice: None,
        }
    }
}

/// Works out what a check result leads to, and brings the history and the
/// pending outages up to date.
///
/// An outage becomes an incident once it has outlasted the grace period; the
/// incident then starts when the outage was first seen. A recovery ends the
/// open incident and forgets the pending outage. An incident that begins or
/// ends is announced, and so is a change from one trouble to another while an
/// incident is open.
pub fn observe_service(
    cfg: &ServiceConfig,
    previous: ServiceStatus,
    result: CheckResult,
    now: u64,
    grace_period_secs: u64,
    emit_notifications: bool,
    incidents: &mut Vec<Incident>,
    pending: &mut PendingOutages,
) -> (outcome: (ServiceStatus, Option<TransitionNotice>))
    ensures
        exists|id: String|
            {
                let observation = #[trigger] observed(
                    *cfg,
                    previous,
                    result,
                    now,
                    grace_period_secs,
                    emit_notifications,
                    old(incidents)@,
                    old(pending)@,
                    id,
                );
                &&& check_opens_incident(
                    *cfg,
                    previous,
                    result,
                    now,
                    grace_period_secs,
                    old(incidents)@,
                    old(pending)@,
                ) ==> is_incident_id(id@)
                &&& outcome.0 == observation.status
                &&& outcome.1 == observation.notice
                &&& final(incidents)@ == observation.incidents
                &&& final(pending)@ == observation.pending
            },
{
    let ghost history = incidents@;
    let ghost outages = pending@;
    let ghost mut id: String = cfg.name;
    let name = cfg.name.as_str();
    let prev_health = previous.health;
    let mut notice: Option<TransitionNotice> = None;
    let mut status = previous;
    status.health = result.health;
    status.latency_ms = result.latency_ms;
    status.last_checked = Some(now);
    status.error = result.error;
    let is_unhealthy = matches!(status.health, ServiceHealth::Down | ServiceHealth::Degraded);
    let was_healthy = matches!(prev_health, ServiceHealth::Up | ServiceHealth::Unknown);

    if is_unhealthy {
        if was_healthy {
            pending.note(name, now);
        }
        let mut due: Option<u64> = None;
        if let Some(outage_start) = pending.get(name) {
            let lasted: u64 = now.saturating_sub(outage_start);
            if lasted >= grace_period_secs {
                due = Some(outage_start);
            }
        }
        let mut known: Option<String> = None;
        if let Some(open) = find_open_incident(name, incidents.as_mut_slice()) {
            known = Some(open.id.clone());
        }
        match known {
            Some(open_id) => {
                if emit_notifications && !was_healthy && prev_health != status.health {
                    notice = Some(
                        TransitionNotice {
                            context: TransitionContext {
                                service: cfg.name.clone(),
                                previous: prev_health,
                                current: status.health,
                                timestamp: now,
                                latency_ms: status.latency_ms,
                                incident_id: Some(open_id.clone()),
                                error: status.error.clone(),
                            },
                            message_id: status.discord_message_id.clone(),
                        },
                    );
                }
                if due.is_some() {
                    status.incident_id = Some(open_id);
                }
            },
            None => {
                if let Some(outage_start) = due {
                    status.last_changed = Some(outage_start);
                    let ghost linked = status;
                    let health = status.health;
                    handle_incident_transition(
                        cfg,
                        health,
                        ServiceHealth::Up,
                        outage_start,
                        &mut status,
                        incidents,
                    );
                    proof {
                        id = choose|id: String|
                            {
                                &&& opens_incident(*cfg, health, ServiceHealth::Up, history)
                                    ==> is_incident_id(id@)
                                &&& status == #[trigger] status_after_transition(
                                    *cfg,
                                    health,
                                    ServiceHealth::Up,
                                    id,
                                    linked,
                                    history,
                                )
                                &&& incidents@ == incidents_after_transition(
                                    *cfg,
                                    health,
                                    ServiceHealth::Up,
                                    outage_start,
                                    id,
                                    linked,
                                    history,
                                )
                            };
                    }
                    if emit_notifications {
                        notice = Some(
                            TransitionNotice {
                                context: TransitionContext {
                                    service: cfg.name.clone(),
                                    previous: ServiceHealth::Up,
                                    current: status.health,
                                    timestamp: now,
                                    latency_ms: status.latency_ms,
                                    incident_id: status.incident_id.clone(),
                                    error: status.error.clone(),
                                },
                                message_id: status.discord_message_id.clone(),
                            },
                        );
                    }
                }
            },
        }
    } else if status.health == ServiceHealth::Up {
        pending.forget(name);
        let mut ended: Option<String> = None;
        if let Some(open) = find_open_incident(name, incidents.as_mut_slice()) {
            open.ended_at = Some(now);
            ended = Some(open.id.clone());
        }
        if let Some(ended_id) = ended {
            status.last_changed = Some(now);
            if emit_notifications {
                notice = Some(
                    TransitionNotice {
                        context: TransitionContext {
                            service: cfg.name.clone(),
                            previous: prev_health,
                            current: status.health,
                            timestamp: now,
                            latency_ms: status.latency_ms,
                            incident_id: Some(ended_id),
                            error: None,
                        },
                        message_id: status.discord_message_id.clone(),
                    },
                );
            }
        }
        status.incident_id = None;
    } else {
        status.incident_id = None;
    }
    proof {
        let observation = observed(
            *cfg,
            previous,
            result,
            now,
            grace_period_secs,
            emit_notifications,
            history,
            outages,
            id,
        );
        assert(status == observation.status);
        assert(incidents@ == observation.incidents);
        assert(pending@ == observation.pending);
        assert(notice == observation.notice);
    }
    (status, notice)
}

/// Whether the status at `index` is the first one of the given service.
pub open spec fn is_first_of(services: Seq<ServiceStatus>, name: Seq<char>, index: int) -> bool {
    &&& 0 <= index < services.len()
    &&& services[index].service@ == name
    &&& forall|j: int| 0 <= j < index ==> (#[trigger] services[j]).service@ != name
}

/// The last known status of a service; an unchecked one if there is none.
pub open spec fn known_status(
    services: Seq<ServiceStatus>,
    cfg: ServiceConfig,
) -> ServiceStatus {
    if exists|index: int| is_first_of(services, cfg.name@, index) {
        services[choose|index: int| is_first_of(services, cfg.name@, index)]
    } else {
        unchecked_status(cfg)
    }
}

/// The last known status of a service; an unchecked one if there is none.
pub fn last_known_status(services: &Vec<ServiceStatus>, cfg: &ServiceConfig) -> (status:
    ServiceStatus)
    ensures
        status == known_status(services@, *cfg),
        forall|i: int|
            0 <= i < services@.len() && (#[trigger] services@[i]).service@ == cfg.name@ && (
            forall|j: int|
                0 <= j < services@.len() && j != i ==> (#[trigger] services@[j]).service@
                    != cfg.name@) ==> status == services@[i],
        (forall|i: int| 0 <= i < services@.len() ==> (#[trigger] services@[i]).service@ != cfg.name@)
            ==> status.service == cfg.name && status.health is Unknown,
{
    let mut i: usize = 0;
    while i < services.len()
        invariant
            i <= services@.len(),
            forall|j: int| 0 <= j < i ==> (#[trigger] services@[j]).service@ != cfg.name@,
        decreases services.len() - i,
    {
        if services[i].service == cfg.name {
            assert(is_first_of(services@, cfg.name@, i as int));
            return services[i].clone();
        }
        i = i + 1;
    }
    ServiceStatus::from_config(cfg)
}

/// The status of a service once its announcement was made or failed.
pub open spec fn notified_status(
    status: ServiceStatus,
    outcome: NotificationResult,
) -> ServiceStatus {
    match outcome {
        NotificationResult::Created(message_id) => ServiceStatus {
            discord_message_id: Some(message_id),
            ..status
        },
        NotificationResult::Updated => status,
        NotificationResult::Failed => ServiceStatus { discord_message_id: None, ..status },
    }
}

/// One round of checks over all services, in the order of their configuration.
pub struct PollRound<'a> {
    pub configs: &'a Vec<ServiceConfig>,
    /// What was known before the round.
    pub previous: StateSnapshot,
    /// When the round began.
    pub now: u64,
    pub grace_period_secs: u64,
    pub emit_notifications: bool,
    /// The history as far as the round has come.
    pub incidents: Vec<Incident>,
    /// The new status of each service checked so far.
    pub services: Vec<ServiceStatus>,
}

impl<'a> PollRound<'a> {
    /// The services checked so far are the first ones of the configuration.
    pub open spec fn in_order(self) -> bool {
        &&& self.services@.len() <= self.configs@.len()
        &&& forall|i: int|
            0 <= i < self.services@.len() ==> (#[trigger] self.services@[i]).service@
                == self.configs@[i].name@
    }

    /// What the round was begun with is as it is in another state of the round.
    pub open spec fn same_round(self, other: Self) -> bool {
        &&& self.configs == other.configs
        &&& self.previous == other.previous
        &&& self.now == other.now
        &&& self.grace_period_secs == other.grace_period_secs
        &&& self.emit_notifications == other.emit_notifications
    }

    /// The service to check next.
    pub open spec fn next_config(self) -> ServiceConfig {
        self.configs@[self.services@.len() as int]
    }

    /// What the result of the next check leads to.
    pub open spec fn next_observation(
        self,
        result: CheckResult,
        pending: Map<Seq<char>, u64>,
        id: String,
    ) -> Observation {
        observed(
            self.next_config(),
            known_status(self.previous.services@, self.next_config()),
            result,
            self.now,
            self.grace_period_secs,
            self.emit_notifications,
            self.incidents@,
            pending,
            id,
        )
    }

    /// Whether the result of the next check opens an incident.
    pub open spec fn next_opens_incident(
        self,
        result: CheckResult,
        pending: Map<Seq<char>, u64>,
    ) -> bool {
        check_opens_incident(
            self.next_config(),
            known_status(self.previous.services@, self.next_config()),
            result,
            self.now,
            self.grace_period_secs,
            self.incidents@,
            pending,
        )
    }

    /// Begins a round; there is none to begin if no service is configured.
    pub fn start(
        configs: &'a Vec<ServiceConfig>,
        previous: StateSnapshot,
        now: u64,
        grace_period_secs: u64,
        emit_notifications: bool,
    ) -> (round: Option<PollRound<'a>>)
        ensures
            round is None <==> configs@.len() == 0,
            round matches Some(round) ==> {
                &&& round.in_order()
                &&& round.configs == configs
                &&& round.previous == previous
                &&& round.now == now
                &&& round.grace_period_secs == grace_period_secs
                &&& round.emit_notifications == emit_notifications
                &&& round.incidents@ == previous.incidents@
                &&& round.services@ == Seq::<ServiceStatus>::empty()
            },
    {
        if configs.is_empty() {
            return None;
        }
        let incidents = previous.incidents.clone();
        Some(
            PollRound {
                configs,
                previous,
                now,
                grace_period_secs,
                emit_notifications,
                incidents,
                services: Vec::new(),
            },
        )
    }

    /// The service to check next, until all have been checked.
    pub fn next_check(&self) -> (cfg: Option<&'a ServiceConfig>)
        ensures
            match cfg {
                Some(cfg) => self.services@.len() < self.configs@.len() && *cfg
                    == self.next_config() && *cfg == self.configs@[self.services@.len() as int],
                None => self.services@.len() >= self.configs@.len(),
            },
    {
        if self.services.len() < self.configs.len() {
            Some(&self.configs[self.services.len()])
        } else {
            None
        }
    }

    /// Takes in the result of the next check, and says what to announce.
    pub fn observe(&mut self, result: CheckResult, pending: &mut PendingOutages) -> (notice: Option<
        TransitionNotice,
    >)
        requires
            old(self).services@.len() < old(self).configs@.len(),
        ensures
            final(self).same_round(*old(self)),
            old(self).in_order() ==> final(self).in_order(),
            exists|id: String|
                {
                    let observation = #[trigger] old(self).next_observation(
                        result,
                        old(pending)@,
                        id,
                    );
                    &&& old(self).next_opens_incident(result, old(pending)@) ==> is_incident_id(id@)
                    &&& final(self).services@ == old(self).services@.push(observation.status)
                    &&& final(self).incidents@ == observation.incidents
                    &&& final(pending)@ == observation.pending
                    &&& notice == observation.notice
                },
            final(self).configs == old(self).configs,
            final(self).previous == old(self).previous,
            final(self).now == old(self).now,
            final(self).grace_period_secs == old(self).grace_period_secs,
            final(self).emit_notifications == old(self).emit_notifications,
            final(self).services@.len() == old(self).services@.len() + 1,
            final(self).services@.take(old(self).services@.len() as int) == old(self).services@,
            ({
                let status = final(self).services@.last();
                &&& status.health == result.health
                &&& status.latency_ms == result.latency_ms
                &&& status.error == result.error
                &&& status.last_checked == Some(old(self).now)
            }),
            forall|i: int|
                0 <= i < old(self).previous.services@.len() && (
                #[trigger] old(self).previous.services@[i]).service@ == old(
                    self,
                ).configs@[old(self).services@.len() as int].name@ && (forall|j: int|
                    0 <= j < old(self).previous.services@.len() && j != i ==> (
                    #[trigger] old(self).previous.services@[j]).service@ != old(
                        self,
                    ).previous.services@[i].service@) ==> {
                    let listed = old(self).previous.services@[i];
                    let status = final(self).services@.last();
                    &&& status.service == listed.service
                    &&& status.icon == listed.icon
                    &&& status.discord_message_id == listed.discord_message_id
                    &&& notice matches Some(notice) ==> notice.message_id
                        == listed.discord_message_id
                },
    {
        let ghost before = *self;
        let ghost outages = pending@;
        let cfg: &'a ServiceConfig = &self.configs[self.services.len()];
        let previous = last_known_status(&self.previous.services, cfg);
        let (status, notice) = observe_service(
            cfg,
            previous,
            result,
            self.now,
            self.grace_period_secs,
            self.emit_notifications,
            &mut self.incidents,
            pending,
        );
        self.services.push(status);
        proof {
            let id = choose|id: String|
                {
                    let observation = #[trigger] observed(
                        *cfg,
                        previous,
                        result,
                        before.now,
                        before.grace_period_secs,
                        before.emit_notifications,
                        before.incidents@,
                        outages,
                        id,
                    );
                    &&& check_opens_incident(
                        *cfg,
                        previous,
                        result,
                        before.now,
                        before.grace_period_secs,
                        before.incidents@,
                        outages,
                    ) ==> is_incident_id(id@)
                    &&& status == observation.status
                    &&& notice == observation.notice
                    &&& self.incidents@ == observation.incidents
                    &&& pending@ == observation.pending
                };
            let observation = before.next_observation(result, outages, id);
            assert(self.services@ == before.services@.push(observation.status));
        }
        notice
    }

    /// Takes in what became of the announcement for the service observed last.
    pub fn record_notification(&mut self, outcome: NotificationResult)
        requires
            old(self).services@.len() > 0,
        ensures
            final(self).same_round(*old(self)),
            old(self).in_order() ==> final(self).in_order(),
            final(self).incidents == old(self).incidents,
            final(self).services@ == old(self).services@.update(
                old(self).services@.len() - 1,
                notified_status(old(self).services@.last(), outcome),
            ),
            final(self).configs == old(self).configs,
            final(self).previous == old(self).previous,
            final(self).now == old(self).now,
            final(self).grace_period_secs == old(self).grace_period_secs,
            final(self).emit_notifications == old(self).emit_notifications,
            final(self).services@.last().discord_message_id == (match outcome {
                NotificationResult::Created(message_id) => Some(message_id),
                NotificationResult::Updated => old(self).services@.last().discord_message_id,
                NotificationResult::Failed => None,
            }),
    {
        let last: usize = self.services.len() - 1;
        match outcome {
            NotificationResult::Created(message_id) => {
                self.services[last].discord_message_id = Some(message_id);
            },
            NotificationResult::Updated => {},
            NotificationResult::Failed => {
                self.services[last].discord_message_id = None;
            },
        }
    }

    /// Ends the round with the snapshot to show and keep.
    pub fn finish(self, poll_interval_secs: u64) -> (snapshot: StateSnapshot)
        ensures
            snapshot.generated_at == self.now,
            snapshot.services == self.services,
            snapshot.incidents == self.incidents,
            snapshot.config_version == self.previous.config_version,
            snapshot.poll_interval_secs == Some(poll_interval_secs),
    {
        let mut next = self.previous;
        next.generated_at = self.now;
        next.services = self.services;
        next.incidents = self.incidents;
        next.poll_interval_secs = Some(poll_interval_secs);
        next
    }
}

} // verus!
