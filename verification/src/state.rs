//! The snapshot that is shown: how it begins and how it is read.

use vstd::prelude::*;

use crate::clock::current_timestamp;
use crate::models::{
    same_snapshot, unchecked_status, Incident, ServiceConfig, ServiceStatus, StateSnapshot,
};
use crate::text::{decimal, decimal_text};

verus! {

/// The current snapshot, as the status endpoint answers it.
pub fn status(state: &StateSnapshot) -> (snapshot: StateSnapshot)
    ensures
        same_snapshot(snapshot, *state),
        snapshot.generated_at == state.generated_at,
        snapshot.services@ == state.services@,
        snapshot.incidents@ == state.incidents@,
        snapshot.config_version == state.config_version,
        snapshot.poll_interval_secs == state.poll_interval_secs,
{
    state.clone()
}

/// The incidents of the current snapshot, as the incident endpoint answers them.
pub fn incident_history(state: &StateSnapshot) -> (incidents: Vec<Incident>)
    ensures
        incidents@ == state.incidents@,
{
    state.incidents.clone()
}

/// Whether a snapshot is the one before any check: every configured service
/// with an unchecked status, in order, and no incidents.
pub open spec fn is_initial(
    snapshot: StateSnapshot,
    configs: Seq<ServiceConfig>,
    poll_interval_secs: u64,
) -> bool {
    &&& snapshot.services@ == configs.map_values(|cfg: ServiceConfig| unchecked_status(cfg))
    &&& snapshot.incidents@ == Seq::<Incident>::empty()
    &&& snapshot.config_version matches Some(version) && version@ == decimal_text(configs.len())
        + " services"@
    &&& snapshot.poll_interval_secs == Some(poll_interval_secs)
}

/// The snapshot before any check, with the given time on it.
pub fn initial_snapshot_at(
    configs: &[ServiceConfig],
    poll_interval_secs: u64,
    generated_at: u64,
) -> (snapshot: StateSnapshot)
    ensures
        is_initial(snapshot, configs@, poll_interval_secs),
        snapshot.generated_at == generated_at,
{
    let mut services: Vec<ServiceStatus> = Vec::new();
    let mut i: usize = 0;
    while i < configs.len()
        invariant
            i <= configs@.len(),
            services@ == configs@.take(i as int).map_values(
                |cfg: ServiceConfig| unchecked_status(cfg),
            ),
        decreases configs.len() - i,
    {
        services.push(ServiceStatus::from_config(&configs[i]));
        i = i + 1;
        assert(configs@.take(i as int) =~= configs@.take(i - 1).push(configs@[i - 1]));
    }
    assert(configs@.take(i as int) =~= configs@);
    let mut version = decimal(configs.len() as u128);
    version.append(" services");
    StateSnapshot {
        generated_at,
        services,
        incidents: Vec::new(),
        config_version: Some(version),
        poll_interval_secs: Some(poll_interval_secs),
    }
}

/// The snapshot before any check, with the present time on it.
pub fn build_initial_snapshot(configs: &[ServiceConfig], poll_interval_secs: u64) -> (snapshot:
    StateSnapshot)
    ensures
        is_initial(snapshot, configs@, poll_interval_secs),
{
    initial_snapshot_at(configs, poll_interval_secs, current_timestamp())
}

/// A snapshot with the incidents that were stored; where they could not be
/// read, it stays as it is.
pub fn hydrated(snapshot: StateSnapshot, stored: Option<Vec<Incident>>) -> (hydrated: StateSnapshot)
    ensures
        hydrated == (match stored {
            Some(incidents) => StateSnapshot { incidents, ..snapshot },
            None => snapshot,
        }),
{
    let mut hydrated = snapshot;
    if let Some(incidents) = stored {
        hydrated.incidents = incidents;
    }
    hydrated
}

/// The snapshot before any check lists every configured service once and in
/// order, with nothing known of it but its name and icon; it has no incidents,
/// and its version counts the services.
pub proof fn law_initial_snapshot_lists_services(
    snapshot: StateSnapshot,
    configs: Seq<ServiceConfig>,
    poll_interval_secs: u64,
)
    requires
        is_initial(snapshot, configs, poll_interval_secs),
    ensures
        snapshot.services@.len() == configs.len(),
        forall|i: int|
            0 <= i < configs.len() ==> {
                let status = #[trigger] snapshot.services@[i];
                &&& status.service == configs[i].name
                &&& status.icon == Some(configs[i].icon)
                &&& status.health is Unknown
                &&& status.discord_message_id is None
                &&& status.latency_ms is None
                &&& status.last_checked is None
                &&& status.last_changed is None
                &&& status.error is None
                &&& status.incident_id is None
            },
        snapshot.incidents@.len() == 0,
        snapshot.config_version matches Some(version) && version@ == decimal_text(configs.len())
            + " services"@,
        snapshot.poll_interval_secs == Some(poll_interval_secs),
{
    let listed = configs.map_values(|cfg: ServiceConfig| unchecked_status(cfg));
    assert(snapshot.services@ == listed);
    assert forall|i: int| 0 <= i < configs.len() implies #[trigger] snapshot.services@[i]
        == unchecked_status(configs[i]) by {
        assert(listed[i] == unchecked_status(configs[i]));
    }
}

} // verus!
