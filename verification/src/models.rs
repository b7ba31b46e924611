//! The values that the service keeps: configuration, status and incidents.

use vstd::prelude::*;

verus! {

/// How one service is watched.
#[derive(Debug, Clone)]
pub struct ServiceConfig {
    pub name: String,
    pub url: String,
    pub host: String,
    pub icon: String,
    /// Response codes that mean the service is up.
    pub expected_status: Vec<u16>,
    /// Response codes that mean the service is down.
    pub offline_signals: Vec<u16>,
    /// Request headers, as pairs of name and value.
    pub headers: Option<Vec<(String, String)>>,
    /// Request timeout of this service, where it has one of its own.
    pub timeout_ms: Option<u64>,
}

/// Health of a service as shown to users.
#[derive(Debug, Clone, Copy, PartialEq, Eq, Structural)]
pub enum ServiceHealth {
    Up,
    Degraded,
    Down,
    Unknown,
}

/// Last known state of one service.
#[derive(Debug)]
pub struct ServiceStatus {
    pub service: String,
    pub icon: Option<String>,
    /// The message that announced the current transition, for later edits.
    pub discord_message_id: Option<String>,
    pub health: ServiceHealth,
    pub latency_ms: Option<u128>,
    pub last_checked: Option<u64>,
    pub last_changed: Option<u64>,
    pub error: Option<String>,
    pub incident_id: Option<String>,
}

impl Clone for ServiceStatus {
    fn clone(&self) -> (copy: Self)
        ensures
            copy == *self,
    {
        ServiceStatus {
            service: self.service.clone(),
            icon: self.icon.clone(),
            discord_message_id: self.discord_message_id.clone(),
            health: self.health,
            latency_ms: self.latency_ms,
            last_checked: self.last_checked,
            last_changed: self.last_changed,
            error: self.error.clone(),
            incident_id: self.incident_id.clone(),
        }
    }
}

/// One outage of one service.
#[derive(Debug)]
pub struct Incident {
    pub id: String,
    pub service: String,
    pub started_at: u64,
    pub ended_at: Option<u64>,
    pub summary: Option<String>,
    pub remediation: Option<String>,
}

impl Clone for Incident {
    fn clone(&self) -> (copy: Self)
        ensures
            copy == *self,
    {
        Incident {
            id: self.id.clone(),
            service: self.service.clone(),
            started_at: self.started_at,
            ended_at: self.ended_at,
            summary: self.summary.clone(),
            remediation: self.remediation.clone(),
        }
    }
}

/// Everything the service shows at one moment.
#[derive(Debug)]
pub struct StateSnapshot {
    pub generated_at: u64,
    pub services: Vec<ServiceStatus>,
    pub incidents: Vec<Incident>,
    pub config_version: Option<String>,
    pub poll_interval_secs: Option<u64>,
}

/// Whether two snapshots hold the same values.
pub open spec fn same_snapshot(a: StateSnapshot, b: StateSnapshot) -> bool {
    &&& a.generated_at == b.generated_at
    &&& a.services@ == b.services@
    &&& a.incidents@ == b.incidents@
    &&& a.config_version == b.config_version
    &&& a.poll_interval_secs == b.poll_interval_secs
}

impl Clone for StateSnapshot {
    fn clone(&self) -> (copy: Self)
        ensures
            same_snapshot(copy, *self),
            copy.generated_at == self.generated_at,
            copy.services@ == self.services@,
            copy.incidents@ == self.incidents@,
            copy.config_version == self.config_version,
            copy.poll_interval_secs == self.poll_interval_secs,
    {
        StateSnapshot {
            generated_at: self.generated_at,
            services: self.services.clone(),
            incidents: self.incidents.clone(),
            config_version: self.config_version.clone(),
            poll_interval_secs: self.poll_interval_secs,
        }
    }
}

/// The status of a service that has not been checked yet.
pub open spec fn unchecked_status(cfg: ServiceConfig) -> ServiceStatus {
    ServiceStatus {
        service: cfg.name,
        icon: Some(cfg.icon),
        discord_message_id: None,
        health: ServiceHealth::Unknown,
        latency_ms: None,
        last_checked: None,
        last_changed: None,
        error: None,
        incident_id: None,
    }
}

impl ServiceStatus {
    /// The status of a service that has not been checked yet.
    pub fn from_config(cfg: &ServiceConfig) -> (status: Self)
        ensures
            status == unchecked_status(*cfg),
            status.service == cfg.name,
            status.icon == Some(cfg.icon),
            status.health is Unknown,
    {
        ServiceStatus {
            service: cfg.name.clone(),
            icon: Some(cfg.icon.clone()),
            discord_message_id: None,
            health: ServiceHealth::Unknown,
            latency_ms: None,
            last_checked: None,
            last_changed: None,
            error: None,
            incident_id: None,
        }
    }
}

/// A service that has not been checked goes by its name and icon, and nothing
/// else is known of it.
pub proof fn law_unchecked_status_knows_nothing(cfg: ServiceConfig)
    ensures
        unchecked_status(cfg).service == cfg.name,
        unchecked_status(cfg).icon == Some(cfg.icon),
        unchecked_status(cfg).health is Unknown,
        unchecked_status(cfg).discord_message_id is None,
        unchecked_status(cfg).latency_ms is None,
        unchecked_status(cfg).last_checked is None,
        unchecked_status(cfg).last_changed is None,
        unchecked_status(cfg).error is None,
        unchecked_status(cfg).incident_id is None,
{
}

/// Snapshots that hold the same values agree in every field.
pub proof fn law_same_snapshots_agree(a: StateSnapshot, b: StateSnapshot)
    ensures
        same_snapshot(a, b) <==> {
            &&& a.generated_at == b.generated_at
            &&& a.services@ == b.services@
            &&& a.incidents@ == b.incidents@
            &&& a.config_version == b.config_version
            &&& a.poll_interval_secs == b.poll_interval_secs
        },
{
}

} // verus!
