//! What holds of every check, every round and every outage.

use vstd::prelude::*;

use crate::check::CheckResult;
use crate::discord::{NotificationResult, TransitionContext};
use crate::incidents::{
    has_open, is_last_open, is_open_for, last_open, law_latest_open_incident_is_found,
    law_no_open_incident_is_found, new_incident,
};
use crate::models::{Incident, ServiceConfig, ServiceHealth, ServiceStatus};
use crate::poll::{
    check_opens_incident, elapsed, is_first_of, is_unhealthy, known_status, notified_status,
    observed, Observation, PollRound, TransitionNotice,
};

verus! {

/// No service has two open incidents.
pub open spec fn one_open_each(incidents: Seq<Incident>) -> bool {
    forall|i: int, j: int|
        0 <= i < j < incidents.len() && (#[trigger] incidents[i]).ended_at is None && (
        #[trigger] incidents[j]).ended_at is None ==> incidents[i].service@
            != incidents[j].service@
}

/// One history continues another: every incident is still there, in its place,
/// and at most its end has been filled in, with the given time.
pub open spec fn continues(before: Seq<Incident>, after: Seq<Incident>, now: u64) -> bool {
    &&& before.len() <= after.len()
    &&& forall|i: int|
        0 <= i < before.len() ==> {
            ||| #[trigger] after[i] == before[i]
            ||| before[i].ended_at is None && after[i] == (Incident {
                ended_at: Some(now),
                ..before[i]
            })
        }
}

/// Where a service has an open incident, its latest open one is well defined.
proof fn lemma_last_open_exists(incidents: Seq<Incident>, service: Seq<char>)
    requires
        has_open(incidents, service),
    ensures
        is_last_open(incidents, service, last_open(incidents, service)),
    decreases incidents.len(),
{
    let shorter = incidents.drop_last();
    let end = incidents.len() - 1;
    if is_open_for(incidents[end], service) {
        assert(is_last_open(incidents, service, end));
    } else {
        let i = choose|i: int| 0 <= i < incidents.len() && is_open_for(incidents[i], service);
        assert(is_open_for(shorter[i], service));
        lemma_last_open_exists(shorter, service);
        let index = last_open(shorter, service);
        assert forall|j: int| index < j < incidents.len() implies !is_open_for(
            #[trigger] incidents[j],
            service,
        ) by {
            if j < shorter.len() {
                assert(!is_open_for(shorter[j], service));
            }
        }
        assert(incidents[index] == shorter[index]);
        assert(is_last_open(incidents, service, index));
    }
}

/// A check never rewrites the history: it may end an open incident and it may
/// add one, and nothing else changes.
pub proof fn law_check_continues_history(
    cfg: ServiceConfig,
    previous: ServiceStatus,
    result: CheckResult,
    now: u64,
    grace_period_secs: u64,
    emit_notifications: bool,
    incidents: Seq<Incident>,
    pending: Map<Seq<char>, u64>,
    id: String,
)
    ensures
        continues(
            incidents,
            observed(
                cfg,
                previous,
                result,
                now,
                grace_period_secs,
                emit_notifications,
                incidents,
                pending,
                id,
            ).incidents,
            now,
        ),
{
    if has_open(incidents, cfg.name@) {
        lemma_last_open_exists(incidents, cfg.name@);
    }
}

/// A check keeps to its own service: incidents and pending outages of other
/// services stay as they are, and an incident that it adds is of its service.
pub proof fn law_check_touches_own_service_only(
    cfg: ServiceConfig,
    previous: ServiceStatus,
    result: CheckResult,
    now: u64,
    grace_period_secs: u64,
    emit_notifications: bool,
    incidents: Seq<Incident>,
    pending: Map<Seq<char>, u64>,
    id: String,
)
    ensures
        ({
            let after = observed(
                cfg,
                previous,
                result,
                now,
                grace_period_secs,
                emit_notifications,
                incidents,
                pending,
                id,
            );
            &&& forall|i: int|
                0 <= i < incidents.len() && incidents[i].service@ != cfg.name@ ==> (
                #[trigger] after.incidents[i]) == incidents[i]
            &&& forall|i: int|
                incidents.len() <= i < after.incidents.len() ==> (
                #[trigger] after.incidents[i]).service@ == cfg.name@
            &&& after.pending.remove(cfg.name@) == pending.remove(cfg.name@)
        }),
{
    if has_open(incidents, cfg.name@) {
        lemma_last_open_exists(incidents, cfg.name@);
    }
}

/// A check never leaves a service with two open incidents.
pub proof fn law_check_keeps_one_open_each(
    cfg: ServiceConfig,
    previous: ServiceStatus,
    result: CheckResult,
    now: u64,
    grace_period_secs: u64,
    emit_notifications: bool,
    incidents: Seq<Incident>,
    pending: Map<Seq<char>, u64>,
    id: String,
)
    requires
        one_open_each(incidents),
    ensures
        one_open_each(
            observed(
                cfg,
                previous,
                result,
                now,
                grace_period_secs,
                emit_notifications,
                incidents,
                pending,
                id,
            ).incidents,
        ),
{
    let after = observed(
        cfg,
        previous,
        result,
        now,
        grace_period_secs,
        emit_notifications,
        incidents,
        pending,
        id,
    ).incidents;
    if has_open(incidents, cfg.name@) {
        lemma_last_open_exists(incidents, cfg.name@);
    }
    assert forall|i: int, j: int|
        0 <= i < j < after.len() && (#[trigger] after[i]).ended_at is None && (
        #[trigger] after[j]).ended_at is None implies after[i].service@ != after[j].service@ by {
        if j == incidents.len() {
            assert(!is_open_for(incidents[i], cfg.name@));
        }
    }
}

/// A recovery leaves nothing open: after a check that finds a service up, the
/// service has no open incident, no pending outage and no linked incident.
pub proof fn law_recovery_settles_service(
    cfg: ServiceConfig,
    previous: ServiceStatus,
    result: CheckResult,
    now: u64,
    grace_period_secs: u64,
    emit_notifications: bool,
    incidents: Seq<Incident>,
    pending: Map<Seq<char>, u64>,
    id: String,
)
    requires
        one_open_each(incidents),
        result.health is Up,
    ensures
        ({
            let after = observed(
                cfg,
                previous,
                result,
                now,
                grace_period_secs,
                emit_notifications,
                incidents,
                pending,
                id,
            );
            &&& !has_open(after.incidents, cfg.name@)
            &&& !after.pending.contains_key(cfg.name@)
            &&& after.status.incident_id is None
        }),
{
    let after = observed(
        cfg,
        previous,
        result,
        now,
        grace_period_secs,
        emit_notifications,
        incidents,
        pending,
        id,
    ).incidents;
    if has_open(incidents, cfg.name@) {
        lemma_last_open_exists(incidents, cfg.name@);
        let index = last_open(incidents, cfg.name@);
        assert forall|i: int| 0 <= i < after.len() implies !is_open_for(
            #[trigger] after[i],
            cfg.name@,
        ) by {
            if i != index {
                assert(after[i] == incidents[i]);
            }
        }
    }
}

/// An incident is opened only for an outage that has lasted the grace period,
/// and it starts when the outage was first seen.
pub proof fn law_incident_needs_grace_period(
    cfg: ServiceConfig,
    previous: ServiceStatus,
    result: CheckResult,
    now: u64,
    grace_period_secs: u64,
    emit_notifications: bool,
    incidents: Seq<Incident>,
    pending: Map<Seq<char>, u64>,
    id: String,
)
    ensures
        ({
            let after = observed(
                cfg,
                previous,
                result,
                now,
                grace_period_secs,
                emit_notifications,
                incidents,
                pending,
                id,
            );
            &&& after.incidents.len() > incidents.len() <==> check_opens_incident(
                cfg,
                previous,
                result,
                now,
                grace_period_secs,
                incidents,
                pending,
            )
            &&& after.incidents.len() > incidents.len() ==> {
                let opened = after.incidents.last();
                &&& is_unhealthy(result.health)
                &&& is_open_for(opened, cfg.name@)
                &&& after.pending.contains_key(cfg.name@)
                &&& opened.started_at == after.pending[cfg.name@]
                &&& elapsed(opened.started_at, now) >= grace_period_secs
                &&& after.status.incident_id == Some(opened.id)
            }
        }),
{
    if has_open(incidents, cfg.name@) {
        lemma_last_open_exists(incidents, cfg.name@);
    }
}

/// Every change of state is announced, and nothing else is, provided that
/// announcements are on: an incident that a check opens or ends, and a change
/// from one trouble to another while an incident is open.
pub proof fn law_announced_exactly_on_changes(
    cfg: ServiceConfig,
    previous: ServiceStatus,
    result: CheckResult,
    now: u64,
    grace_period_secs: u64,
    emit_notifications: bool,
    incidents: Seq<Incident>,
    pending: Map<Seq<char>, u64>,
    id: String,
)
    ensures
        ({
            let after = observed(
                cfg,
                previous,
                result,
                now,
                grace_period_secs,
                emit_notifications,
                incidents,
                pending,
                id,
            );
            after.notice is Some <==> emit_notifications && (after.incidents != incidents || (
            has_open(incidents, cfg.name@) && is_unhealthy(previous.health) && is_unhealthy(
                result.health,
            ) && previous.health != result.health))
        }),
{
    let after = observed(
        cfg,
        previous,
        result,
        now,
        grace_period_secs,
        emit_notifications,
        incidents,
        pending,
        id,
    );
    if has_open(incidents, cfg.name@) {
        lemma_last_open_exists(incidents, cfg.name@);
        let index = last_open(incidents, cfg.name@);
        if result.health is Up {
            assert(after.incidents[index].ended_at is Some);
        }
    } else if after.notice is Some {
        assert(after.incidents.len() != incidents.len());
    }
}

/// One check of a service and what came of it.
pub struct Check {
    pub result: CheckResult,
    pub now: u64,
    /// The id for the incident that the check opens, if it opens one.
    pub id: String,
    /// What became of the announcement, if one is made.
    pub outcome: NotificationResult,
}

/// What a check leads to once its announcement is dealt with.
pub open spec fn settled(observation: Observation, outcome: NotificationResult) -> Observation {
    if observation.notice is Some {
        Observation { status: notified_status(observation.status, outcome), ..observation }
    } else {
        observation
    }
}

/// Where a service stands after a series of checks.
pub open spec fn after_checks(
    cfg: ServiceConfig,
    first: ServiceStatus,
    grace_period_secs: u64,
    emit_notifications: bool,
    incidents: Seq<Incident>,
    pending: Map<Seq<char>, u64>,
    checks: Seq<Check>,
) -> Observation
    decreases checks.len(),
{
    if checks.len() == 0 {
        Observation { status: first, incidents, pending, notice: None }
    } else {
        let before = after_checks(
            cfg,
            first,
            grace_period_secs,
            emit_notifications,
            incidents,
            pending,
            checks.drop_last(),
        );
        let check = checks.last();
        settled(
            observed(
                cfg,
                before.status,
                check.result,
                check.now,
                grace_period_secs,
                emit_notifications,
                before.incidents,
                before.pending,
                check.id,
            ),
            check.outcome,
        )
    }
}

/// All of the checks find the service in trouble.
pub open spec fn all_unhealthy(checks: Seq<Check>) -> bool {
    forall|i: int| 0 <= i < checks.len() ==> is_unhealthy((#[trigger] checks[i]).result.health)
}

/// Whatever the checks announce is made by editing the message that is there.
pub open spec fn all_edited(checks: Seq<Check>) -> bool {
    forall|i: int| 0 <= i < checks.len() ==> (#[trigger] checks[i]).outcome is Updated
}

/// Whether at the given check the outage has lasted the grace period.
pub open spec fn due_at(checks: Seq<Check>, grace_period_secs: u64, index: int) -> bool {
    elapsed(checks[0].now, checks[index].now) >= grace_period_secs
}

/// Whether the given check is the first at which the outage has lasted the
/// grace period.
pub open spec fn first_due(checks: Seq<Check>, grace_period_secs: u64, index: int) -> bool {
    &&& 0 <= index < checks.len()
    &&& due_at(checks, grace_period_secs, index)
    &&& forall|i: int| 0 <= i < index ==> !#[trigger] due_at(checks, grace_period_secs, i)
}

/// An outage that lasts the grace period opens one incident, at the first check
/// that finds it so old, however long it goes on. The incident starts when the
/// outage was first seen. That check is announced, and of the later ones those
/// that find the service in another trouble than the check before.
pub proof fn law_long_outage_opens_one_incident(
    cfg: ServiceConfig,
    first: ServiceStatus,
    grace_period_secs: u64,
    emit_notifications: bool,
    incidents: Seq<Incident>,
    pending: Map<Seq<char>, u64>,
    checks: Seq<Check>,
    index: int,
)
    requires
        !is_unhealthy(first.health),
        !pending.contains_key(cfg.name@),
        !has_open(incidents, cfg.name@),
        all_unhealthy(checks),
        first_due(checks, grace_period_secs, index),
    ensures
        ({
            let after = after_checks(
                cfg,
                first,
                grace_period_secs,
                emit_notifications,
                incidents,
                pending,
                checks,
            );
            &&& after.incidents == incidents.push(
                new_incident(
                    checks[index].id,
                    cfg,
                    checks[0].now,
                    checks[index].result.error,
                ),
            )
            &&& after.pending == pending.insert(cfg.name@, checks[0].now)
            &&& after.status.health == checks.last().result.health
            &&& after.notice is Some <==> emit_notifications && (index == checks.len() - 1
                || checks[checks.len() - 2].result.health != checks.last().result.health)
        }),
    decreases checks.len(),
{
    let shorter = checks.drop_last();
    let end = checks.len() - 1;
    assert(all_unhealthy(shorter));
    assert(is_unhealthy(checks[end].result.health));
    if index == end {
        assert forall|i: int| 0 <= i < shorter.len() implies elapsed(
            shorter[0].now,
            (#[trigger] shorter[i]).now,
        ) < grace_period_secs by {
            assert(!due_at(checks, grace_period_secs, i));
        }
        if shorter.len() > 0 {
            lemma_short_outage(
                cfg,
                first,
                grace_period_secs,
                emit_notifications,
                incidents,
                pending,
                shorter,
            );
        }
    } else {
        assert forall|i: int| 0 <= i < index implies !#[trigger] due_at(
            shorter,
            grace_period_secs,
            i,
        ) by {
            assert(!due_at(checks, grace_period_secs, i));
        }
        law_long_outage_opens_one_incident(
            cfg,
            first,
            grace_period_secs,
            emit_notifications,
            incidents,
            pending,
            shorter,
            index,
        );
        let before = after_checks(
            cfg,
            first,
            grace_period_secs,
            emit_notifications,
            incidents,
            pending,
            shorter,
        );
        assert(is_open_for(before.incidents[incidents.len() as int], cfg.name@));
        assert(shorter.last() == checks[checks.len() - 2]);
        assert(is_unhealthy(shorter[shorter.len() - 1].result.health));
    }
}

proof fn lemma_short_outage(
    cfg: ServiceConfig,
    first: ServiceStatus,
    grace_period_secs: u64,
    emit_notifications: bool,
    incidents: Seq<Incident>,
    pending: Map<Seq<char>, u64>,
    checks: Seq<Check>,
)
    requires
        !is_unhealthy(first.health),
        !pending.contains_key(cfg.name@),
        !has_open(incidents, cfg.name@),
        checks.len() > 0,
        all_unhealthy(checks),
        forall|i: int|
            0 <= i < checks.len() ==> elapsed(checks[0].now, (#[trigger] checks[i]).now)
                < grace_period_secs,
    ensures
        ({
            let after = after_checks(
                cfg,
                first,
                grace_period_secs,
                emit_notifications,
                incidents,
                pending,
                checks,
            );
            &&& after.incidents == incidents
            &&& after.pending == pending.insert(cfg.name@, checks[0].now)
            &&& is_unhealthy(after.status.health)
            &&& after.notice is None
        }),
    decreases checks.len(),
{
    let shorter = checks.drop_last();
    let end = checks.len() - 1;
    assert(is_unhealthy(checks[end].result.health));
    assert(elapsed(checks[0].now, checks[end].now) < grace_period_secs);
    if shorter.len() > 0 {
        assert forall|i: int| 0 <= i < shorter.len() implies elapsed(
            shorter[0].now,
            (#[trigger] shorter[i]).now,
        ) < grace_period_secs by {
            assert(elapsed(checks[0].now, checks[i].now) < grace_period_secs);
        }
        assert(all_unhealthy(shorter));
        lemma_short_outage(
            cfg,
            first,
            grace_period_secs,
            emit_notifications,
            incidents,
            pending,
            shorter,
        );
    } else {
        reveal_with_fuel(after_checks, 2);
    }
}

/// An outage that ends within the grace period leaves no trace: no incident is
/// opened, nothing is announced, and after the recovery nothing is pending.
pub proof fn law_short_outage_leaves_no_incident(
    cfg: ServiceConfig,
    first: ServiceStatus,
    grace_period_secs: u64,
    emit_notifications: bool,
    incidents: Seq<Incident>,
    pending: Map<Seq<char>, u64>,
    outage: Seq<Check>,
    recovery: Check,
)
    requires
        !is_unhealthy(first.health),
        !pending.contains_key(cfg.name@),
        !has_open(incidents, cfg.name@),
        all_unhealthy(outage),
        forall|i: int|
            0 <= i < outage.len() ==> elapsed(outage[0].now, (#[trigger] outage[i]).now)
                < grace_period_secs,
        recovery.result.health is Up,
    ensures
        ({
            let during = after_checks(
                cfg,
                first,
                grace_period_secs,
                emit_notifications,
                incidents,
                pending,
                outage,
            );
            let after = after_checks(
                cfg,
                first,
                grace_period_secs,
                emit_notifications,
                incidents,
                pending,
                outage.push(recovery),
            );
            &&& during.incidents == incidents
            &&& during.notice is None
            &&& after.incidents == incidents
            &&& after.notice is None
            &&& after.pending == pending
            &&& after.status.incident_id is None
        }),
{
    assert(outage.push(recovery).drop_last() =~= outage);
    if outage.len() > 0 {
        lemma_short_outage(
            cfg,
            first,
            grace_period_secs,
            emit_notifications,
            incidents,
            pending,
            outage,
        );
    }
}

proof fn lemma_outage_with_open_incident(
    cfg: ServiceConfig,
    first: ServiceStatus,
    grace_period_secs: u64,
    emit_notifications: bool,
    incidents: Seq<Incident>,
    pending: Map<Seq<char>, u64>,
    checks: Seq<Check>,
)
    requires
        has_open(incidents, cfg.name@),
        all_unhealthy(checks),
    ensures
        ({
            let after = after_checks(
                cfg,
                first,
                grace_period_secs,
                emit_notifications,
                incidents,
                pending,
                checks,
            );
            &&& after.incidents == incidents
            &&& all_edited(checks) ==> after.status.discord_message_id == first.discord_message_id
        }),
    decreases checks.len(),
{
    if checks.len() > 0 {
        assert(is_unhealthy(checks[checks.len() - 1].result.health));
        assert(all_unhealthy(checks.drop_last()));
        if all_edited(checks) {
            assert(checks[checks.len() - 1].outcome is Updated);
            assert(all_edited(checks.drop_last()));
        }
        lemma_outage_with_open_incident(
            cfg,
            first,
            grace_period_secs,
            emit_notifications,
            incidents,
            pending,
            checks.drop_last(),
        );
    }
}

/// The recovery of a service is announced in the message that announced its
/// outage, however long the outage went on: the announcement is to edit the
/// message that the status held just before the recovery, and it names the
/// incident that was open. If every change in between was announced by editing,
/// that is the message that the status held to begin with.
pub proof fn law_recovery_edits_outage_message(
    cfg: ServiceConfig,
    during: ServiceStatus,
    grace_period_secs: u64,
    incidents: Seq<Incident>,
    pending: Map<Seq<char>, u64>,
    outage: Seq<Check>,
    recovery: Check,
)
    requires
        has_open(incidents, cfg.name@),
        all_unhealthy(outage),
        recovery.result.health is Up,
    ensures
        ({
            let before = after_checks(
                cfg,
                during,
                grace_period_secs,
                true,
                incidents,
                pending,
                outage,
            );
            let after = after_checks(
                cfg,
                during,
                grace_period_secs,
                true,
                incidents,
                pending,
                outage.push(recovery),
            );
            &&& after.notice matches Some(notice)
            &&& notice.message_id == before.status.discord_message_id
            &&& all_edited(outage) ==> notice.message_id == during.discord_message_id
            &&& notice.context.previous == before.status.health
            &&& notice.context.service == cfg.name
            &&& notice.context.current is Up
            &&& notice.context.timestamp == recovery.now
            &&& notice.context.incident_id == Some(incidents[last_open(incidents, cfg.name@)].id)
        }),
{
    assert(outage.push(recovery).drop_last() =~= outage);
    lemma_outage_with_open_incident(
        cfg,
        during,
        grace_period_secs,
        true,
        incidents,
        pending,
        outage,
    );
}

/// What a round starts from and has come to.
pub struct RoundState {
    pub services: Seq<ServiceStatus>,
    pub incidents: Seq<Incident>,
    pub pending: Map<Seq<char>, u64>,
}

/// Where a round stands after the checks of the first services.
pub open spec fn round_after(
    configs: Seq<ServiceConfig>,
    previous: Seq<ServiceStatus>,
    grace_period_secs: u64,
    emit_notifications: bool,
    incidents: Seq<Incident>,
    pending: Map<Seq<char>, u64>,
    checks: Seq<Check>,
) -> RoundState
    decreases checks.len(),
{
    if checks.len() == 0 {
        RoundState { services: Seq::empty(), incidents, pending }
    } else {
        let before = round_after(
            configs,
            previous,
            grace_period_secs,
            emit_notifications,
            incidents,
            pending,
            checks.drop_last(),
        );
        let cfg = configs[checks.len() - 1];
        let check = checks.last();
        let observation = settled(
            observed(
                cfg,
                known_status(previous, cfg),
                check.result,
                check.now,
                grace_period_secs,
                emit_notifications,
                before.incidents,
                before.pending,
                check.id,
            ),
            check.outcome,
        );
        RoundState {
            services: before.services.push(observation.status),
            incidents: observation.incidents,
            pending: observation.pending,
        }
    }
}

/// Whether one of the checks of a round found the given service up.
pub open spec fn found_up(
    configs: Seq<ServiceConfig>,
    checks: Seq<Check>,
    service: Seq<char>,
) -> bool {
    exists|k: int|
        0 <= k < checks.len() && (#[trigger] checks[k]).result.health is Up && configs[k].name@
            == service
}

/// A round over all services yields one status per service, in the order of the
/// configuration and each with what its check found; it continues the history,
/// with at most one new incident per check; it ends an incident only where a
/// check found its service up; and it never leaves a service with two open
/// incidents.
pub proof fn law_round(
    configs: Seq<ServiceConfig>,
    previous: Seq<ServiceStatus>,
    now: u64,
    grace_period_secs: u64,
    emit_notifications: bool,
    incidents: Seq<Incident>,
    pending: Map<Seq<char>, u64>,
    checks: Seq<Check>,
)
    requires
        checks.len() <= configs.len(),
        forall|i: int| 0 <= i < checks.len() ==> (#[trigger] checks[i]).now == now,
    ensures
        ({
            let after = round_after(
                configs,
                previous,
                grace_period_secs,
                emit_notifications,
                incidents,
                pending,
                checks,
            );
            &&& after.services.len() == checks.len()
            &&& forall|i: int|
                0 <= i < checks.len() ==> {
                    &&& (#[trigger] after.services[i]).service@ == configs[i].name@
                    &&& after.services[i].health == checks[i].result.health
                    &&& after.services[i].latency_ms == checks[i].result.latency_ms
                    &&& after.services[i].error == checks[i].result.error
                    &&& after.services[i].last_checked == Some(now)
                }
            &&& continues(incidents, after.incidents, now)
            &&& after.incidents.len() <= incidents.len() + checks.len()
            &&& forall|i: int|
                0 <= i < incidents.len() && (#[trigger] after.incidents[i]) != incidents[i]
                    ==> found_up(configs, checks, incidents[i].service@)
            &&& one_open_each(incidents) ==> one_open_each(after.incidents)
        }),
    decreases checks.len(),
{
    if checks.len() > 0 {
        let shorter = checks.drop_last();
        law_round(
            configs,
            previous,
            now,
            grace_period_secs,
            emit_notifications,
            incidents,
            pending,
            shorter,
        );
        let before = round_after(
            configs,
            previous,
            grace_period_secs,
            emit_notifications,
            incidents,
            pending,
            shorter,
        );
        let cfg = configs[checks.len() - 1];
        let check = checks.last();
        assert(check == checks[checks.len() - 1]);
        let known = known_status(previous, cfg);
        law_check_continues_history(
            cfg,
            known,
            check.result,
            check.now,
            grace_period_secs,
            emit_notifications,
            before.incidents,
            before.pending,
            check.id,
        );
        if one_open_each(before.incidents) {
            law_check_keeps_one_open_each(
                cfg,
                known,
                check.result,
                check.now,
                grace_period_secs,
                emit_notifications,
                before.incidents,
                before.pending,
                check.id,
            );
        }
        let after = round_after(
            configs,
            previous,
            grace_period_secs,
            emit_notifications,
            incidents,
            pending,
            checks,
        );
        assert forall|i: int| 0 <= i < incidents.len() implies {
            ||| #[trigger] after.incidents[i] == incidents[i]
            ||| incidents[i].ended_at is None && after.incidents[i] == (Incident {
                ended_at: Some(now),
                ..incidents[i]
            })
        } by {
            assert(before.incidents[i] == before.incidents[i]);
        }
        if has_open(before.incidents, cfg.name@) {
            lemma_last_open_exists(before.incidents, cfg.name@);
        }
        assert forall|i: int|
            0 <= i < incidents.len() && (#[trigger] after.incidents[i])
                != incidents[i] implies found_up(configs, checks, incidents[i].service@) by {
            if before.incidents[i] != incidents[i] {
                let k = choose|k: int|
                    0 <= k < shorter.len() && (#[trigger] shorter[k]).result.health is Up
                        && configs[k].name@ == incidents[i].service@;
                assert(checks[k].result.health is Up);
            } else {
                assert(checks[checks.len() - 1].result.health is Up);
            }
        }
    }
}

/// Two statuses differ in the message id at most.
pub open spec fn same_but_message(a: ServiceStatus, b: ServiceStatus) -> bool {
    a == (ServiceStatus { discord_message_id: a.discord_message_id, ..b })
}

/// Two lists of statuses differ in message ids at most.
pub open spec fn same_but_messages(a: Seq<ServiceStatus>, b: Seq<ServiceStatus>) -> bool {
    &&& a.len() == b.len()
    &&& forall|i: int|
        #![trigger a[i]]
        #![trigger b[i]]
        0 <= i < a.len() ==> same_but_message(a[i], b[i])
}

/// Turning announcements off changes nothing but message ids: through any
/// series of checks the history, the pending outages and all else that is known
/// of the service are the same, and nothing is announced.
pub proof fn law_silence_changes_only_message_ids(
    cfg: ServiceConfig,
    first: ServiceStatus,
    grace_period_secs: u64,
    incidents: Seq<Incident>,
    pending: Map<Seq<char>, u64>,
    checks: Seq<Check>,
)
    ensures
        ({
            let loud = after_checks(
                cfg,
                first,
                grace_period_secs,
                true,
                incidents,
                pending,
                checks,
            );
            let quiet = after_checks(
                cfg,
                first,
                grace_period_secs,
                false,
                incidents,
                pending,
                checks,
            );
            &&& quiet.incidents == loud.incidents
            &&& quiet.pending == loud.pending
            &&& same_but_message(quiet.status, loud.status)
            &&& quiet.status.discord_message_id == first.discord_message_id
            &&& quiet.notice is None
        }),
    decreases checks.len(),
{
    if checks.len() > 0 {
        law_silence_changes_only_message_ids(
            cfg,
            first,
            grace_period_secs,
            incidents,
            pending,
            checks.drop_last(),
        );
    }
}

/// What is known of a service is the same but for the message id where the
/// lists of statuses are.
proof fn lemma_known_but_message(
    a: Seq<ServiceStatus>,
    b: Seq<ServiceStatus>,
    cfg: ServiceConfig,
)
    requires
        same_but_messages(a, b),
    ensures
        same_but_message(known_status(a, cfg), known_status(b, cfg)),
{
    let name = cfg.name@;
    if exists|index: int| is_first_of(a, name, index) {
        let index = choose|index: int| is_first_of(a, name, index);
        assert(is_first_of(b, name, index));
        let other = choose|index: int| is_first_of(b, name, index);
        assert(index == other) by {
            if index < other {
                assert(b[index].service@ != name);
            } else if other < index {
                assert(a[other].service@ != name);
                assert(same_but_message(a[other], b[other]));
            }
        }
    } else if exists|index: int| is_first_of(b, name, index) {
        let index = choose|index: int| is_first_of(b, name, index);
        assert(is_first_of(a, name, index));
    }
}

/// A silent round comes to what a round with announcements comes to, but for
/// message ids, also where the two begin with statuses that differ in these.
pub proof fn law_silent_round_changes_only_message_ids(
    configs: Seq<ServiceConfig>,
    quiet_previous: Seq<ServiceStatus>,
    loud_previous: Seq<ServiceStatus>,
    grace_period_secs: u64,
    incidents: Seq<Incident>,
    pending: Map<Seq<char>, u64>,
    checks: Seq<Check>,
)
    requires
        same_but_messages(quiet_previous, loud_previous),
    ensures
        ({
            let loud = round_after(
                configs,
                loud_previous,
                grace_period_secs,
                true,
                incidents,
                pending,
                checks,
            );
            let quiet = round_after(
                configs,
                quiet_previous,
                grace_period_secs,
                false,
                incidents,
                pending,
                checks,
            );
            &&& quiet.incidents == loud.incidents
            &&& quiet.pending == loud.pending
            &&& same_but_messages(quiet.services, loud.services)
        }),
    decreases checks.len(),
{
    if checks.len() > 0 {
        law_silent_round_changes_only_message_ids(
            configs,
            quiet_previous,
            loud_previous,
            grace_period_secs,
            incidents,
            pending,
            checks.drop_last(),
        );
        lemma_known_but_message(quiet_previous, loud_previous, configs[checks.len() - 1]);
    }
}

/// Whether a round in progress stands where the given checks lead to; `begun`
/// are the outages that were pending when it began.
pub open spec fn stands_after(
    round: PollRound,
    pending: Map<Seq<char>, u64>,
    begun: Map<Seq<char>, u64>,
    checks: Seq<Check>,
) -> bool {
    let state = round_after(
        round.configs@,
        round.previous.services@,
        round.grace_period_secs,
        round.emit_notifications,
        round.previous.incidents@,
        begun,
        checks,
    );
    &&& checks.len() <= round.configs@.len()
    &&& forall|i: int| 0 <= i < checks.len() ==> (#[trigger] checks[i]).now == round.now
    &&& round.services@ == state.services
    &&& round.incidents@ == state.incidents
    &&& pending == state.pending
}

/// A round that has just begun stands after no checks.
pub proof fn law_round_begins(round: PollRound, pending: Map<Seq<char>, u64>)
    requires
        round.services@ == Seq::<ServiceStatus>::empty(),
        round.incidents@ == round.previous.incidents@,
    ensures
        stands_after(round, pending, pending, Seq::empty()),
{
}

/// Taking in the result of the next check, and what became of its announcement
/// if one was made, moves a round on by that check.
pub proof fn law_round_moves_on(
    before: PollRound,
    after: PollRound,
    pending_before: Map<Seq<char>, u64>,
    pending_after: Map<Seq<char>, u64>,
    begun: Map<Seq<char>, u64>,
    checks: Seq<Check>,
    check: Check,
)
    requires
        stands_after(before, pending_before, begun, checks),
        before.services@.len() < before.configs@.len(),
        check.now == before.now,
        after.same_round(before),
        ({
            let observation = settled(
                before.next_observation(check.result, pending_before, check.id),
                check.outcome,
            );
            &&& after.services@ == before.services@.push(observation.status)
            &&& after.incidents@ == observation.incidents
            &&& pending_after == observation.pending
        }),
    ensures
        stands_after(after, pending_after, begun, checks.push(check)),
{
    law_round(
        before.configs@,
        before.previous.services@,
        before.now,
        before.grace_period_secs,
        before.emit_notifications,
        before.previous.incidents@,
        begun,
        checks,
    );
    let longer = checks.push(check);
    assert(longer.drop_last() =~= checks);
    assert forall|i: int| 0 <= i < longer.len() implies (#[trigger] longer[i]).now == after.now by {
        if i < checks.len() {
            assert(longer[i] == checks[i]);
        }
    }
}

/// What a check found is what the status shows: its health, its latency and its
/// error, with the time of the check. The service, its icon and its message stay
/// as they were.
pub proof fn law_status_shows_what_was_found(
    cfg: ServiceConfig,
    previous: ServiceStatus,
    result: CheckResult,
    now: u64,
    grace_period_secs: u64,
    emit_notifications: bool,
    incidents: Seq<Incident>,
    pending: Map<Seq<char>, u64>,
    id: String,
)
    ensures
        ({
            let after = observed(
                cfg,
                previous,
                result,
                now,
                grace_period_secs,
                emit_notifications,
                incidents,
                pending,
                id,
            );
            &&& after.status.service == previous.service
            &&& after.status.icon == previous.icon
            &&& after.status.discord_message_id == previous.discord_message_id
            &&& after.status.health == result.health
            &&& after.status.latency_ms == result.latency_ms
            &&& after.status.error == result.error
            &&& after.status.last_checked == Some(now)
        }),
{
}

/// An outage is pending from the first check that finds it: going from well or
/// unknown to trouble notes the time unless one is noted, going on in trouble
/// leaves it, and being up forgets it.
pub proof fn law_outage_is_pending_from_first_sight(
    cfg: ServiceConfig,
    previous: ServiceStatus,
    result: CheckResult,
    now: u64,
    grace_period_secs: u64,
    emit_notifications: bool,
    incidents: Seq<Incident>,
    pending: Map<Seq<char>, u64>,
    id: String,
)
    ensures
        ({
            let after = observed(
                cfg,
                previous,
                result,
                now,
                grace_period_secs,
                emit_notifications,
                incidents,
                pending,
                id,
            );
            let in_trouble = result.health is Down || result.health is Degraded;
            let was_in_trouble = previous.health is Down || previous.health is Degraded;
            &&& result.health is Up ==> after.pending == pending.remove(cfg.name@)
            &&& result.health is Unknown ==> after.pending == pending
            &&& in_trouble && was_in_trouble ==> after.pending == pending
            &&& in_trouble && pending.contains_key(cfg.name@) ==> after.pending == pending
            &&& in_trouble && !was_in_trouble && !pending.contains_key(cfg.name@) ==> after.pending
                == pending.insert(cfg.name@, now)
        }),
{
}

/// Trouble of a service that has no open incident opens one exactly when it has
/// been pending for the grace period. The incident starts when the outage was
/// first seen and has the error as its summary; the status is linked to it and
/// dates the change back to that time; the outage is announced as a change from
/// up. Until then there is no incident and no announcement.
pub proof fn law_outage_opens_incident_when_due(
    cfg: ServiceConfig,
    previous: ServiceStatus,
    result: CheckResult,
    now: u64,
    grace_period_secs: u64,
    emit_notifications: bool,
    incidents: Seq<Incident>,
    pending: Map<Seq<char>, u64>,
    id: String,
)
    requires
        result.health is Down || result.health is Degraded,
        forall|j: int|
            0 <= j < incidents.len() ==> (#[trigger] incidents[j]).service@ != cfg.name@
                || incidents[j].ended_at is Some,
    ensures
        ({
            let after = observed(
                cfg,
                previous,
                result,
                now,
                grace_period_secs,
                emit_notifications,
                incidents,
                pending,
                id,
            );
            let due = after.pending.contains_key(cfg.name@) && (grace_period_secs == 0
                || after.pending[cfg.name@] + grace_period_secs <= now);
            let start = after.pending[cfg.name@];
            &&& due ==> {
                &&& after.incidents == incidents.push(
                    (Incident {
                        id,
                        service: cfg.name,
                        started_at: start,
                        ended_at: None,
                        summary: result.error,
                        remediation: None,
                    }),
                )
                &&& after.status.incident_id == Some(id)
                &&& after.status.last_changed == Some(start)
                &&& !emit_notifications ==> after.notice is None
                &&& emit_notifications ==> after.notice == Some(
                    (TransitionNotice {
                        context: TransitionContext {
                            service: cfg.name,
                            previous: ServiceHealth::Up,
                            current: result.health,
                            timestamp: now,
                            latency_ms: result.latency_ms,
                            incident_id: Some(id),
                            error: result.error,
                        },
                        message_id: previous.discord_message_id,
                    }),
                )
            }
            &&& !due ==> {
                &&& after.incidents == incidents
                &&& after.status.incident_id == previous.incident_id
                &&& after.status.last_changed == previous.last_changed
                &&& after.notice is None
            }
            &&& due <==> check_opens_incident(
                cfg,
                previous,
                result,
                now,
                grace_period_secs,
                incidents,
                pending,
            )
        }),
{
    law_no_open_incident_is_found(incidents, cfg.name@);
}

/// Trouble of a service with an open incident, the latest of which is at `open`,
/// leaves the history and the time of the last change as they are. The status is
/// linked to that incident once the outage has been pending for the grace
/// period. A change from one trouble to the other is announced, in the message
/// that is there; more of the same is not.
pub proof fn law_outage_joins_open_incident(
    cfg: ServiceConfig,
    previous: ServiceStatus,
    result: CheckResult,
    now: u64,
    grace_period_secs: u64,
    emit_notifications: bool,
    incidents: Seq<Incident>,
    pending: Map<Seq<char>, u64>,
    id: String,
    open: int,
)
    requires
        result.health is Down || result.health is Degraded,
        0 <= open < incidents.len(),
        incidents[open].service@ == cfg.name@,
        incidents[open].ended_at is None,
        forall|j: int|
            open < j < incidents.len() ==> (#[trigger] incidents[j]).service@ != cfg.name@
                || incidents[j].ended_at is Some,
    ensures
        ({
            let after = observed(
                cfg,
                previous,
                result,
                now,
                grace_period_secs,
                emit_notifications,
                incidents,
                pending,
                id,
            );
            let due = after.pending.contains_key(cfg.name@) && (grace_period_secs == 0
                || after.pending[cfg.name@] + grace_period_secs <= now);
            let changed = (previous.health is Down && result.health is Degraded) || (
            previous.health is Degraded && result.health is Down);
            &&& after.incidents == incidents
            &&& after.status.last_changed == previous.last_changed
            &&& due ==> after.status.incident_id == Some(incidents[open].id)
            &&& !due ==> after.status.incident_id == previous.incident_id
            &&& !(emit_notifications && changed) ==> after.notice is None
            &&& emit_notifications && changed ==> after.notice == Some(
                    (TransitionNotice {
                        context: TransitionContext {
                            service: cfg.name,
                            previous: previous.health,
                            current: result.health,
                            timestamp: now,
                            latency_ms: result.latency_ms,
                            incident_id: Some(incidents[open].id),
                            error: result.error,
                        },
                        message_id: previous.discord_message_id,
                    }),
                )
        }),
{
    law_latest_open_incident_is_found(incidents, cfg.name@, open);
}

/// A recovery ends the latest open incident, at `open`, at the time of the check
/// and nothing else in the history; the status is linked to no incident and
/// changed at that time; and the recovery is announced in the message that is
/// there, with the incident that it ends and no error.
pub proof fn law_recovery_ends_open_incident(
    cfg: ServiceConfig,
    previous: ServiceStatus,
    result: CheckResult,
    now: u64,
    grace_period_secs: u64,
    emit_notifications: bool,
    incidents: Seq<Incident>,
    pending: Map<Seq<char>, u64>,
    id: String,
    open: int,
)
    requires
        result.health is Up,
        0 <= open < incidents.len(),
        incidents[open].service@ == cfg.name@,
        incidents[open].ended_at is None,
        forall|j: int|
            open < j < incidents.len() ==> (#[trigger] incidents[j]).service@ != cfg.name@
                || incidents[j].ended_at is Some,
    ensures
        ({
            let after = observed(
                cfg,
                previous,
                result,
                now,
                grace_period_secs,
                emit_notifications,
                incidents,
                pending,
                id,
            );
            &&& after.incidents == incidents.update(
                open,
                (Incident {
                    id: incidents[open].id,
                    service: incidents[open].service,
                    started_at: incidents[open].started_at,
                    ended_at: Some(now),
                    summary: incidents[open].summary,
                    remediation: incidents[open].remediation,
                }),
            )
            &&& after.status.incident_id is None
            &&& after.status.last_changed == Some(now)
            &&& !emit_notifications ==> after.notice is None
            &&& emit_notifications ==> after.notice == Some(
                    (TransitionNotice {
                        context: TransitionContext {
                            service: cfg.name,
                            previous: previous.health,
                            current: ServiceHealth::Up,
                            timestamp: now,
                            latency_ms: result.latency_ms,
                            incident_id: Some(incidents[open].id),
                            error: None,
                        },
                        message_id: previous.discord_message_id,
                    }),
                )
        }),
{
    law_latest_open_incident_is_found(incidents, cfg.name@, open);
}

/// Being up without an open incident is no news, and neither is a check that
/// finds out nothing: the history and the time of the last change stay, nothing
/// is announced, and the status is linked to no incident.
pub proof fn law_no_news_is_not_announced(
    cfg: ServiceConfig,
    previous: ServiceStatus,
    result: CheckResult,
    now: u64,
    grace_period_secs: u64,
    emit_notifications: bool,
    incidents: Seq<Incident>,
    pending: Map<Seq<char>, u64>,
    id: String,
)
    requires
        result.health is Unknown || result.health is Up,
        result.health is Up ==> forall|j: int|
            0 <= j < incidents.len() ==> (#[trigger] incidents[j]).service@ != cfg.name@
                || incidents[j].ended_at is Some,
    ensures
        ({
            let after = observed(
                cfg,
                previous,
                result,
                now,
                grace_period_secs,
                emit_notifications,
                incidents,
                pending,
                id,
            );
            &&& after.incidents == incidents
            &&& after.status.last_changed == previous.last_changed
            &&& after.status.incident_id is None
            &&& after.notice is None
        }),
{
    if result.health is Up {
        law_no_open_incident_is_found(incidents, cfg.name@);
    }
}

/// A message that was posted is the one of the service from then on, one that was
/// edited stays it, and where nothing was posted there is none. Nothing else of
/// the status depends on what became of an announcement.
pub proof fn law_status_keeps_posted_message(status: ServiceStatus, outcome: NotificationResult)
    ensures
        ({
            let after = notified_status(status, outcome);
            &&& outcome matches NotificationResult::Created(id) ==> after.discord_message_id
                == Some(id)
            &&& outcome is Updated ==> after.discord_message_id == status.discord_message_id
            &&& outcome is Failed ==> after.discord_message_id is None
            &&& after.service == status.service
            &&& after.icon == status.icon
            &&& after.health == status.health
            &&& after.latency_ms == status.latency_ms
            &&& after.last_checked == status.last_checked
            &&& after.last_changed == status.last_changed
            &&& after.error == status.error
            &&& after.incident_id == status.incident_id
        }),
{
}

/// What is known of a service is all that the list says of it, in every field,
/// at the first place that names it.
pub proof fn law_listed_status_is_known(
    services: Seq<ServiceStatus>,
    cfg: ServiceConfig,
    listed: int,
)
    requires
        0 <= listed < services.len(),
        services[listed].service@ == cfg.name@,
        forall|j: int| 0 <= j < listed ==> (#[trigger] services[j]).service@ != cfg.name@,
    ensures
        known_status(services, cfg) == services[listed],
{
    let name = cfg.name@;
    assert(is_first_of(services, name, listed));
    let found = choose|index: int| is_first_of(services, name, index);
    if found < listed {
        assert(services[found].service@ != name);
    } else if listed < found {
        assert(services[listed].service@ != name);
    }
}

/// Of a service that the list does not name nothing is known but its name and
/// icon.
pub proof fn law_unlisted_service_is_unknown(services: Seq<ServiceStatus>, cfg: ServiceConfig)
    requires
        forall|j: int| 0 <= j < services.len() ==> (#[trigger] services[j]).service@ != cfg.name@,
    ensures
        known_status(services, cfg).service == cfg.name,
        known_status(services, cfg).icon == Some(cfg.icon),
        known_status(services, cfg).health is Unknown,
        known_status(services, cfg).discord_message_id is None,
        known_status(services, cfg).latency_ms is None,
        known_status(services, cfg).last_checked is None,
        known_status(services, cfg).last_changed is None,
        known_status(services, cfg).error is None,
        known_status(services, cfg).incident_id is None,
{
}

/// A round takes the services in the order of their configuration and goes on
/// from what the snapshot before it lists of each: the next check is of the
/// service after those already checked, and what its result leads to is worked
/// out from the status that the snapshot lists, the history as far as the round
/// has come, and the time and settings that the round began with.
pub proof fn law_round_goes_on_from_snapshot(
    round: PollRound,
    result: CheckResult,
    pending: Map<Seq<char>, u64>,
    id: String,
    listed: int,
)
    requires
        round.services@.len() < round.configs@.len(),
        0 <= listed < round.previous.services@.len(),
        ({
            let cfg = round.configs@[round.services@.len() as int];
            &&& round.previous.services@[listed].service@ == cfg.name@
            &&& forall|j: int|
                0 <= j < listed ==> (#[trigger] round.previous.services@[j]).service@ != cfg.name@
        }),
    ensures
        round.next_config() == round.configs@[round.services@.len() as int],
        round.next_observation(result, pending, id) == observed(
            round.configs@[round.services@.len() as int],
            round.previous.services@[listed],
            result,
            round.now,
            round.grace_period_secs,
            round.emit_notifications,
            round.incidents@,
            pending,
            id,
        ),
        round.next_opens_incident(result, pending) <==> check_opens_incident(
            round.configs@[round.services@.len() as int],
            round.previous.services@[listed],
            result,
            round.now,
            round.grace_period_secs,
            round.incidents@,
            pending,
        ),
{
    law_listed_status_is_known(
        round.previous.services@,
        round.configs@[round.services@.len() as int],
        listed,
    );
}

/// A round that finds a service up while the incident at `open` is its latest
/// open one announces that in the message that the snapshot before the round
/// lists for the service, as a change from the health listed there.
pub proof fn law_round_edits_listed_message(
    round: PollRound,
    result: CheckResult,
    pending: Map<Seq<char>, u64>,
    id: String,
    listed: int,
    open: int,
)
    requires
        round.services@.len() < round.configs@.len(),
        round.emit_notifications,
        result.health is Up,
        0 <= listed < round.previous.services@.len(),
        0 <= open < round.incidents@.len(),
        ({
            let name = round.configs@[round.services@.len() as int].name@;
            &&& round.previous.services@[listed].service@ == name
            &&& forall|j: int|
                0 <= j < round.previous.services@.len() && j != listed ==> (
                #[trigger] round.previous.services@[j]).service@ != name
            &&& round.incidents@[open].service@ == name
            &&& round.incidents@[open].ended_at is None
            &&& forall|j: int|
                open < j < round.incidents@.len() ==> (#[trigger] round.incidents@[j]).service@
                    != name || round.incidents@[j].ended_at is Some
        }),
    ensures
        ({
            let after = round.next_observation(result, pending, id);
            let before = round.previous.services@[listed];
            &&& after.notice matches Some(notice)
            &&& notice.message_id == before.discord_message_id
            &&& notice.context.previous == before.health
            &&& notice.context.current is Up
            &&& notice.context.timestamp == round.now
            &&& notice.context.incident_id == Some(round.incidents@[open].id)
            &&& after.incidents[open].ended_at == Some(round.now)
        }),
{
    let cfg = round.configs@[round.services@.len() as int];
    law_round_goes_on_from_snapshot(round, result, pending, id, listed);
    law_recovery_ends_open_incident(
        cfg,
        round.previous.services@[listed],
        result,
        round.now,
        round.grace_period_secs,
        round.emit_notifications,
        round.incidents@,
        pending,
        id,
        open,
    );
}

/// A round that finds a service in the same trouble as the snapshot before it,
/// while an incident of it is open, announces nothing, and keeps the message and
/// the time of the last change that the snapshot lists.
pub proof fn law_round_keeps_standing_outage(
    round: PollRound,
    result: CheckResult,
    pending: Map<Seq<char>, u64>,
    id: String,
    listed: int,
    open: int,
)
    requires
        round.services@.len() < round.configs@.len(),
        result.health is Down || result.health is Degraded,
        0 <= listed < round.previous.services@.len(),
        0 <= open < round.incidents@.len(),
        ({
            let name = round.configs@[round.services@.len() as int].name@;
            &&& round.previous.services@[listed].service@ == name
            &&& round.previous.services@[listed].health == result.health
            &&& forall|j: int|
                0 <= j < round.previous.services@.len() && j != listed ==> (
                #[trigger] round.previous.services@[j]).service@ != name
            &&& round.incidents@[open].service@ == name
            &&& round.incidents@[open].ended_at is None
        }),
    ensures
        ({
            let after = round.next_observation(result, pending, id);
            let before = round.previous.services@[listed];
            &&& after.notice is None
            &&& after.incidents == round.incidents@
            &&& after.pending == pending
            &&& after.status.discord_message_id == before.discord_message_id
            &&& after.status.last_changed == before.last_changed
            &&& after.status.service == before.service
            &&& after.status.icon == before.icon
        }),
{
    let cfg = round.configs@[round.services@.len() as int];
    law_round_goes_on_from_snapshot(round, result, pending, id, listed);
    assert(is_open_for(round.incidents@[open], cfg.name@));
    lemma_last_open_exists(round.incidents@, cfg.name@);
    law_outage_joins_open_incident(
        cfg,
        round.previous.services@[listed],
        result,
        round.now,
        round.grace_period_secs,
        round.emit_notifications,
        round.incidents@,
        pending,
        id,
        last_open(round.incidents@, cfg.name@),
    );
}

/// Over a whole round, every service keeps the name and icon that the snapshot
/// before the round lists for it, and one whose outage stands, with its incident
/// open and its trouble the same, keeps its message and the time of its last
/// change. The services have names of their own.
pub proof fn law_round_carries_statuses_on(
    configs: Seq<ServiceConfig>,
    previous: Seq<ServiceStatus>,
    grace_period_secs: u64,
    emit_notifications: bool,
    incidents: Seq<Incident>,
    pending: Map<Seq<char>, u64>,
    checks: Seq<Check>,
    at: int,
    listed: int,
)
    requires
        0 <= at < checks.len() <= configs.len(),
        0 <= listed < previous.len(),
        previous[listed].service@ == configs[at].name@,
        forall|j: int|
            0 <= j < previous.len() && j != listed ==> (#[trigger] previous[j]).service@
                != configs[at].name@,
        forall|j: int|
            0 <= j < configs.len() && j != at ==> (#[trigger] configs[j]).name@
                != configs[at].name@,
    ensures
        ({
            let after = round_after(
                configs,
                previous,
                grace_period_secs,
                emit_notifications,
                incidents,
                pending,
                checks,
            );
            let stands = previous[listed].health == checks[at].result.health && (
            checks[at].result.health is Down || checks[at].result.health is Degraded) && exists|
                i: int,
            |
                0 <= i < incidents.len() && (#[trigger] incidents[i]).service@ == configs[at].name@
                    && incidents[i].ended_at is None;
            &&& after.services.len() == checks.len()
            &&& after.services[at].service == previous[listed].service
            &&& after.services[at].icon == previous[listed].icon
            &&& stands ==> after.services[at].discord_message_id
                == previous[listed].discord_message_id
            &&& stands ==> after.services[at].last_changed == previous[listed].last_changed
        }),
    decreases checks.len(),
{
    let shorter = checks.drop_last();
    let last = checks.len() - 1;
    lemma_round_len(
        configs,
        previous,
        grace_period_secs,
        emit_notifications,
        incidents,
        pending,
        shorter,
    );
    if at < last {
        law_round_carries_statuses_on(
            configs,
            previous,
            grace_period_secs,
            emit_notifications,
            incidents,
            pending,
            shorter,
            at,
            listed,
        );
    } else {
        let before = round_after(
            configs,
            previous,
            grace_period_secs,
            emit_notifications,
            incidents,
            pending,
            shorter,
        );
        let cfg = configs[at];
        law_listed_status_is_known(previous, cfg, listed);
        lemma_round_leaves_others(
            configs,
            previous,
            grace_period_secs,
            emit_notifications,
            incidents,
            pending,
            shorter,
            cfg.name@,
        );
        if exists|i: int|
            0 <= i < incidents.len() && (#[trigger] incidents[i]).service@ == cfg.name@
                && incidents[i].ended_at is None {
            let i = choose|i: int|
                0 <= i < incidents.len() && (#[trigger] incidents[i]).service@ == cfg.name@
                    && incidents[i].ended_at is None;
            assert(is_open_for(before.incidents[i], cfg.name@));
        }
    }
}

proof fn lemma_round_len(
    configs: Seq<ServiceConfig>,
    previous: Seq<ServiceStatus>,
    grace_period_secs: u64,
    emit_notifications: bool,
    incidents: Seq<Incident>,
    pending: Map<Seq<char>, u64>,
    checks: Seq<Check>,
)
    ensures
        round_after(
            configs,
            previous,
            grace_period_secs,
            emit_notifications,
            incidents,
            pending,
            checks,
        ).services.len() == checks.len(),
    decreases checks.len(),
{
    if checks.len() > 0 {
        lemma_round_len(
            configs,
            previous,
            grace_period_secs,
            emit_notifications,
            incidents,
            pending,
            checks.drop_last(),
        );
    }
}

proof fn lemma_round_leaves_others(
    configs: Seq<ServiceConfig>,
    previous: Seq<ServiceStatus>,
    grace_period_secs: u64,
    emit_notifications: bool,
    incidents: Seq<Incident>,
    pending: Map<Seq<char>, u64>,
    checks: Seq<Check>,
    name: Seq<char>,
)
    requires
        checks.len() <= configs.len(),
        forall|j: int| 0 <= j < checks.len() ==> (#[trigger] configs[j]).name@ != name,
    ensures
        ({
            let after = round_after(
                configs,
                previous,
                grace_period_secs,
                emit_notifications,
                incidents,
                pending,
                checks,
            );
            &&& incidents.len() <= after.incidents.len()
            &&& forall|i: int|
                0 <= i < incidents.len() && incidents[i].service@ == name ==> #[trigger]
                after.incidents[i] == incidents[i]
        }),
    decreases checks.len(),
{
    if checks.len() > 0 {
        let shorter = checks.drop_last();
        lemma_round_leaves_others(
            configs,
            previous,
            grace_period_secs,
            emit_notifications,
            incidents,
            pending,
            shorter,
            name,
        );
        let before = round_after(
            configs,
            previous,
            grace_period_secs,
            emit_notifications,
            incidents,
            pending,
            shorter,
        );
        let cfg = configs[checks.len() - 1];
        let check = checks.last();
        let known = known_status(previous, cfg);
        law_check_touches_own_service_only(
            cfg,
            known,
            check.result,
            check.now,
            grace_period_secs,
            emit_notifications,
            before.incidents,
            before.pending,
            check.id,
        );
        law_check_continues_history(
            cfg,
            known,
            check.result,
            check.now,
            grace_period_secs,
            emit_notifications,
            before.incidents,
            before.pending,
            check.id,
        );
    }
}

/// A round takes up a service that the snapshot before it does not list as one
/// of which nothing is known but its name and icon.
pub proof fn law_round_takes_up_new_service(
    round: PollRound,
    result: CheckResult,
    pending: Map<Seq<char>, u64>,
    id: String,
)
    requires
        round.services@.len() < round.configs@.len(),
        forall|j: int|
            0 <= j < round.previous.services@.len() ==> (
            #[trigger] round.previous.services@[j]).service@
                != round.configs@[round.services@.len() as int].name@,
    ensures
        ({
            let cfg = round.configs@[round.services@.len() as int];
            let unchecked = ServiceStatus {
                service: cfg.name,
                icon: Some(cfg.icon),
                discord_message_id: None,
                health: ServiceHealth::Unknown,
                latency_ms: None,
                last_checked: None,
                last_changed: None,
                error: None,
                incident_id: None,
            };
            &&& round.next_observation(result, pending, id) == observed(
                cfg,
                unchecked,
                result,
                round.now,
                round.grace_period_secs,
                round.emit_notifications,
                round.incidents@,
                pending,
                id,
            )
            &&& round.next_opens_incident(result, pending) <==> check_opens_incident(
                cfg,
                unchecked,
                result,
                round.now,
                round.grace_period_secs,
                round.incidents@,
                pending,
            )
        }),
{
    law_unlisted_service_is_unknown(
        round.previous.services@,
        round.configs@[round.services@.len() as int],
    );
}

} // verus!
