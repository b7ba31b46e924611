//! The weekly report: what it counts.

use vstd::prelude::*;

use crate::models::{Incident, ServiceHealth, ServiceStatus, StateSnapshot};

verus! {

/// What the checks of a week say about one service.
#[derive(Debug, Clone, Default)]
pub struct ServiceWeeklyStats {
    /// The latencies that were measured, in milliseconds.
    pub latencies: Vec<u128>,
    pub total_checks: u64,
    /// How many of the checks found the service up.
    pub up_checks: u64,
}

/// The outage of a week that lasted longest.
#[derive(Debug, Clone)]
pub struct LongestOutage {
    pub service: String,
    pub duration_secs: u64,
}

/// What a week was like.
#[derive(Debug, Clone)]
pub struct WeeklyStats {
    /// The services that were checked, each once.
    pub services: Vec<(String, ServiceWeeklyStats)>,
    pub total_incidents: usize,
    pub longest_outage: Option<LongestOutage>,
}

/// All checks that a series of snapshots recorded.
pub open spec fn all_checks(snapshots: Seq<StateSnapshot>) -> Seq<ServiceStatus>
    decreases snapshots.len(),
{
    if snapshots.len() == 0 {
        Seq::empty()
    } else {
        all_checks(snapshots.drop_last()) + snapshots.last().services@
    }
}

/// The names of the services that were checked, in the order in which they
/// first come up.
pub open spec fn checked_names(checks: Seq<ServiceStatus>) -> Seq<Seq<char>>
    decreases checks.len(),
{
    if checks.len() == 0 {
        Seq::empty()
    } else {
        let before = checked_names(checks.drop_last());
        if before.contains(checks.last().service@) {
            before
        } else {
            before.push(checks.last().service@)
        }
    }
}

/// The checks of one service.
pub open spec fn checks_of(checks: Seq<ServiceStatus>, name: Seq<char>) -> Seq<ServiceStatus> {
    checks.filter(|check: ServiceStatus| check.service@ == name)
}

/// The checks that found a service up.
pub open spec fn up_checks(checks: Seq<ServiceStatus>) -> Seq<ServiceStatus> {
    checks.filter(|check: ServiceStatus| check.health is Up)
}

/// The latencies that checks measured.
pub open spec fn measured(checks: Seq<ServiceStatus>) -> Seq<u128>
    decreases checks.len(),
{
    if checks.len() == 0 {
        Seq::empty()
    } else {
        let before = measured(checks.drop_last());
        match checks.last().latency_ms {
            Some(latency) => before.push(latency),
            None => before,
        }
    }
}

/// Whether the numbers are those of the given checks.
pub open spec fn counts(stats: ServiceWeeklyStats, checks: Seq<ServiceStatus>) -> bool {
    &&& stats.total_checks == checks.len()
    &&& stats.up_checks == up_checks(checks).len()
    &&& stats.latencies@ == measured(checks)
}

/// Whether the numbers per service are those of the given checks: one entry for
/// each service that was checked, with the numbers of its own checks.
pub open spec fn is_tally(
    services: Seq<(String, ServiceWeeklyStats)>,
    checks: Seq<ServiceStatus>,
) -> bool {
    &&& services.map_values(|entry: (String, ServiceWeeklyStats)| entry.0@) == checked_names(checks)
    &&& forall|i: int|
        0 <= i < services.len() ==> counts(
            (#[trigger] services[i]).1,
            checks_of(checks, services[i].0@),
        )
}

/// The length of an outage; one that is still open counts up to the given time.
pub open spec fn outage_secs(incident: Incident, until: u64) -> int {
    let end = match incident.ended_at {
        Some(ended_at) => ended_at,
        None => until,
    };
    if incident.started_at <= end {
        end - incident.started_at
    } else {
        0
    }
}

/// Whether an incident is the longest, the last of them if several are.
pub open spec fn is_longest(incidents: Seq<Incident>, until: u64, index: int) -> bool {
    &&& 0 <= index < incidents.len()
    &&& forall|i: int|
        0 <= i < index ==> outage_secs(#[trigger] incidents[i], until) <= outage_secs(
            incidents[index],
            until,
        )
    &&& forall|i: int|
        index < i < incidents.len() ==> outage_secs(#[trigger] incidents[i], until) < outage_secs(
            incidents[index],
            until,
        )
}

/// The outage that lasted longest.
pub fn longest_outage(incidents: &Vec<Incident>, until: u64) -> (longest: Option<LongestOutage>)
    ensures
        longest is None <==> incidents@.len() == 0,
        longest matches Some(longest) ==> exists|index: int|
            {
                &&& #[trigger] is_longest(incidents@, until, index)
                &&& longest.service == incidents@[index].service
                &&& longest.duration_secs == outage_secs(incidents@[index], until)
            },
        forall|i: int|
            #![trigger incidents@[i]]
            0 <= i < incidents@.len() && incidents@[i].ended_at is None && incidents@[i].started_at
                <= until ==> longest is Some && longest->0.duration_secs >= until
                - incidents@[i].started_at,
        forall|i: int|
            #![trigger incidents@[i]]
            0 <= i < incidents@.len() && incidents@[i].ended_at is Some && incidents@[i].started_at
                <= incidents@[i].ended_at->0 ==> longest is Some && longest->0.duration_secs
                >= incidents@[i].ended_at->0 - incidents@[i].started_at,
        longest matches Some(longest) ==> exists|i: int|
            #![trigger incidents@[i]]
            {
                let end = if incidents@[i].ended_at is Some {
                    incidents@[i].ended_at->0
                } else {
                    until
                };
                &&& 0 <= i < incidents@.len()
                &&& longest.service == incidents@[i].service
                &&& longest.duration_secs == (if incidents@[i].started_at <= end {
                    end - incidents@[i].started_at
                } else {
                    0
                })
            },
{
    let mut best: Option<(usize, u64)> = None;
    let mut i: usize = 0;
    while i < incidents.len()
        invariant
            i <= incidents@.len(),
            best is None <==> i == 0,
            best matches Some((at, secs)) ==> {
                &&& is_longest(incidents@.take(i as int), until, at as int)
                &&& secs == outage_secs(incidents@[at as int], until)
            },
        decreases incidents.len() - i,
    {
        let end: u64 = incidents[i].ended_at.unwrap_or(until);
        let lasted: u64 = end.saturating_sub(incidents[i].started_at);
        let longer = match best {
            Some((_, secs)) => lasted >= secs,
            None => true,
        };
        let ghost seen = incidents@.take(i as int);
        let ghost next = incidents@.take(i + 1);
        assert(next =~= seen.push(incidents@[i as int]));
        if longer {
            best = Some((i, lasted));
        }
        i = i + 1;
    }
    assert(incidents@.take(i as int) =~= incidents@);
    match best {
        Some((at, secs)) => {
            Some(LongestOutage { service: incidents[at].service.clone(), duration_secs: secs })
        },
        None => None,
    }
}

fn find_entry(services: &Vec<(String, ServiceWeeklyStats)>, name: &String) -> (found: Option<usize>)
    ensures
        match found {
            Some(i) => i < services@.len() && services@[i as int].0@ == name@,
            None => forall|i: int| 0 <= i < services@.len() ==> (#[trigger] services@[i]).0@
                != name@,
        },
{
    let mut i: usize = 0;
    while i < services.len()
        invariant
            i <= services@.len(),
            forall|j: int| 0 <= j < i ==> (#[trigger] services@[j]).0@ != name@,
        decreases services.len() - i,
    {
        if services[i].0 == *name {
            return Some(i);
        }
        i = i + 1;
    }
    None
}

proof fn lemma_names_are_distinct(checks: Seq<ServiceStatus>)
    ensures
        checked_names(checks).no_duplicates(),
        forall|name: Seq<char>| #[trigger] checked_names(checks).contains(name) <==> exists|i: int|
            0 <= i < checks.len() && (#[trigger] checks[i]).service@ == name,
    decreases checks.len(),
{
    if checks.len() > 0 {
        let shorter = checks.drop_last();
        let names = checked_names(checks);
        let before = checked_names(shorter);
        lemma_names_are_distinct(shorter);
        assert forall|name: Seq<char>| #[trigger] names.contains(name) <==> exists|i: int|
            0 <= i < checks.len() && (#[trigger] checks[i]).service@ == name by {
            if before.contains(name) {
                let i = choose|i: int|
                    0 <= i < shorter.len() && (#[trigger] shorter[i]).service@ == name;
                assert(checks[i].service@ == name);
                let k = choose|k: int| 0 <= k < before.len() && before[k] == name;
                assert(names[k] == name);
            }
            if exists|i: int| 0 <= i < checks.len() && (#[trigger] checks[i]).service@ == name {
                let i = choose|i: int|
                    0 <= i < checks.len() && (#[trigger] checks[i]).service@ == name;
                if i < shorter.len() {
                    assert(shorter[i].service@ == name);
                    assert(before.contains(name));
                } else if !before.contains(name) {
                    assert(names[names.len() - 1] == name);
                }
            }
            if names.contains(name) && !before.contains(name) {
                let k = choose|k: int| 0 <= k < names.len() && names[k] == name;
                if k < before.len() {
                    assert(before[k] == name);
                }
                assert(checks[checks.len() - 1].service@ == name);
            }
        }
    }
}

proof fn lemma_no_checks_of(checks: Seq<ServiceStatus>, name: Seq<char>)
    requires
        forall|i: int| 0 <= i < checks.len() ==> (#[trigger] checks[i]).service@ != name,
    ensures
        checks_of(checks, name) == Seq::<ServiceStatus>::empty(),
    decreases checks.len(),
{
    reveal(Seq::filter);
    if checks.len() > 0 {
        lemma_no_checks_of(checks.drop_last(), name);
    }
}

proof fn lemma_filter_len(checks: Seq<ServiceStatus>, keep: spec_fn(ServiceStatus) -> bool)
    ensures
        checks.filter(keep).len() <= checks.len(),
    decreases checks.len(),
{
    reveal(Seq::filter);
    if checks.len() > 0 {
        lemma_filter_len(checks.drop_last(), keep);
    }
}

proof fn lemma_checks_of_push(
    checks: Seq<ServiceStatus>,
    check: ServiceStatus,
    name: Seq<char>,
)
    ensures
        check.service@ == name ==> checks_of(checks.push(check), name) == checks_of(
            checks,
            name,
        ).push(check),
        check.service@ != name ==> checks_of(checks.push(check), name) == checks_of(checks, name),
{
    reveal(Seq::filter);
    assert(checks.push(check).drop_last() =~= checks);
}

proof fn lemma_up_checks_push(checks: Seq<ServiceStatus>, check: ServiceStatus)
    ensures
        check.health is Up ==> up_checks(checks.push(check)) == up_checks(checks).push(check),
        !(check.health is Up) ==> up_checks(checks.push(check)) == up_checks(checks),
        measured(checks.push(check)) == (match check.latency_ms {
            Some(latency) => measured(checks).push(latency),
            None => measured(checks),
        }),
{
    reveal(Seq::filter);
    assert(checks.push(check).drop_last() =~= checks);
}

/// Counts one more check.
fn record_check(
    services: &mut Vec<(String, ServiceWeeklyStats)>,
    check: &ServiceStatus,
    Ghost(checks): Ghost<Seq<ServiceStatus>>,
)
    requires
        is_tally(old(services)@, checks),
        checks.len() < u64::MAX,
    ensures
        is_tally(final(services)@, checks.push(*check)),
{
    let ghost before = services@;
    let ghost name = check.service@;
    let ghost names = checked_names(checks);
    let ghost after = checks.push(*check);
    proof {
        lemma_names_are_distinct(checks);
        assert(after.drop_last() =~= checks);
        assert forall|i: int| 0 <= i < before.len() implies before[i].0@ == #[trigger] names[i] by {
            assert(before.map_values(|entry: (String, ServiceWeeklyStats)| entry.0@)[i]
                == before[i].0@);
        }
    }
    let up = check.health == ServiceHealth::Up;
    match find_entry(services, &check.service) {
        Some(at) => {
            proof {
                assert(names[at as int] == name);
                let own = checks_of(checks, name);
                lemma_filter_len(checks, |check: ServiceStatus| check.service@ == name);
                lemma_filter_len(own, |check: ServiceStatus| check.health is Up);
            }
            services[at].1.total_checks = services[at].1.total_checks + 1;
            if up {
                services[at].1.up_checks = services[at].1.up_checks + 1;
            }
            if let Some(latency) = check.latency_ms {
                services[at].1.latencies.push(latency);
            }
        },
        None => {
            proof {
                assert(!names.contains(name)) by {
                    if names.contains(name) {
                        let k = choose|k: int| 0 <= k < names.len() && names[k] == name;
                        assert(before[k].0@ == name);
                    }
                }
                assert forall|i: int| 0 <= i < checks.len() implies (
                #[trigger] checks[i]).service@ != name by {}
                lemma_no_checks_of(checks, name);
            }
            let mut latencies: Vec<u128> = Vec::new();
            if let Some(latency) = check.latency_ms {
                latencies.push(latency);
            }
            services.push(
                (
                    check.service.clone(),
                    ServiceWeeklyStats {
                        latencies,
                        total_checks: 1,
                        up_checks: if up {
                            1
                        } else {
                            0
                        },
                    },
                ),
            );
        },
    }
    proof {
        let tallied = services@;
        assert(tallied.map_values(|entry: (String, ServiceWeeklyStats)| entry.0@)
            =~= checked_names(after));
        assert forall|i: int| 0 <= i < tallied.len() implies counts(
            (#[trigger] tallied[i]).1,
            checks_of(after, tallied[i].0@),
        ) by {
            let entry = tallied[i].0@;
            lemma_checks_of_push(checks, *check, entry);
            let own = checks_of(checks, entry);
            lemma_up_checks_push(own, *check);
            if i < before.len() {
                assert(counts(before[i].1, own));
                if entry == name {
                    assert(names[i] == name);
                }
            } else {
                reveal(Seq::filter);
                assert(own =~= Seq::empty());
                assert(up_checks(own).len() == 0);
            }
        }
    }
}

/// Counts up a week: what the given snapshots recorded, and the incidents that
/// began in it. Outages that are still open count up to `until`.
pub fn weekly_stats(
    snapshots: &Vec<StateSnapshot>,
    incidents: &Vec<Incident>,
    until: u64,
) -> (stats: WeeklyStats)
    requires
        all_checks(snapshots@).len() <= u64::MAX,
    ensures
        is_tally(stats.services@, all_checks(snapshots@)),
        stats.total_incidents == incidents@.len(),
        stats.longest_outage is None <==> incidents@.len() == 0,
        stats.longest_outage matches Some(longest) ==> exists|index: int|
            {
                &&& #[trigger] is_longest(incidents@, until, index)
                &&& longest.service == incidents@[index].service
                &&& longest.duration_secs == outage_secs(incidents@[index], until)
            },
        forall|i: int|
            #![trigger incidents@[i]]
            0 <= i < incidents@.len() && incidents@[i].ended_at is None && incidents@[i].started_at
                <= until ==> stats.longest_outage is Some && stats.longest_outage->0.duration_secs >= until
                - incidents@[i].started_at,
        forall|i: int|
            #![trigger incidents@[i]]
            0 <= i < incidents@.len() && incidents@[i].ended_at is Some && incidents@[i].started_at
                <= incidents@[i].ended_at->0 ==> stats.longest_outage is Some && stats.longest_outage->0.duration_secs
                >= incidents@[i].ended_at->0 - incidents@[i].started_at,
        stats.longest_outage matches Some(longest) ==> exists|i: int|
            #![trigger incidents@[i]]
            {
                let end = if incidents@[i].ended_at is Some {
                    incidents@[i].ended_at->0
                } else {
                    until
                };
                &&& 0 <= i < incidents@.len()
                &&& longest.service == incidents@[i].service
                &&& longest.duration_secs == (if incidents@[i].started_at <= end {
                    end - incidents@[i].started_at
                } else {
                    0
                })
            },
{
    let mut services: Vec<(String, ServiceWeeklyStats)> = Vec::new();
    let mut i: usize = 0;
    let ghost mut checks: Seq<ServiceStatus> = Seq::empty();
    assert(snapshots@.take(0) =~= Seq::empty());
    assert(is_tally(services@, checks)) by {
        assert(services@.map_values(|entry: (String, ServiceWeeklyStats)| entry.0@)
            =~= checked_names(checks));
    }
    while i < snapshots.len()
        invariant
            i <= snapshots@.len(),
            all_checks(snapshots@).len() <= u64::MAX,
            checks == all_checks(snapshots@.take(i as int)),
            is_tally(services@, checks),
        decreases snapshots.len() - i,
    {
        let snapshot = &snapshots[i];
        let ghost earlier = checks;
        let mut j: usize = 0;
        proof {
            assert(snapshots@.take(i + 1).drop_last() =~= snapshots@.take(i as int));
            lemma_checks_grow(snapshots@, i + 1);
            assert(checks =~= earlier + snapshot.services@.take(0));
        }
        while j < snapshot.services.len()
            invariant
                j <= snapshot.services@.len(),
                earlier.len() + snapshot.services@.len() <= u64::MAX,
                checks == earlier + snapshot.services@.take(j as int),
                is_tally(services@, checks),
            decreases snapshot.services.len() - j,
        {
            record_check(&mut services, &snapshot.services[j], Ghost(checks));
            proof {
                assert(checks.push(snapshot.services@[j as int]) =~= earlier
                    + snapshot.services@.take(j + 1));
                checks = checks.push(snapshot.services@[j as int]);
            }
            j = j + 1;
        }
        proof {
            assert(snapshot.services@.take(j as int) =~= snapshot.services@);
        }
        i = i + 1;
    }
    assert(snapshots@.take(i as int) =~= snapshots@);
    WeeklyStats {
        services,
        total_incidents: incidents.len(),
        longest_outage: longest_outage(incidents, until),
    }
}

proof fn lemma_checks_grow(snapshots: Seq<StateSnapshot>, count: int)
    requires
        0 <= count <= snapshots.len(),
    ensures
        all_checks(snapshots.take(count)).len() <= all_checks(snapshots).len(),
    decreases snapshots.len() - count,
{
    if count == snapshots.len() {
        assert(snapshots.take(count) =~= snapshots);
    } else {
        lemma_checks_grow(snapshots, count + 1);
        assert(snapshots.take(count + 1).drop_last() =~= snapshots.take(count));
    }
}

/// The sum of latencies.
pub open spec fn sum_of(latencies: Seq<u128>) -> nat
    decreases latencies.len(),
{
    if latencies.len() == 0 {
        0
    } else {
        sum_of(latencies.drop_last()) + latencies.last() as nat
    }
}

proof fn lemma_sum_grows(latencies: Seq<u128>, count: int)
    requires
        0 <= count <= latencies.len(),
    ensures
        sum_of(latencies.take(count)) <= sum_of(latencies),
    decreases latencies.len() - count,
{
    if count == latencies.len() {
        assert(latencies.take(count) =~= latencies);
    } else {
        lemma_sum_grows(latencies, count + 1);
        assert(latencies.take(count + 1).drop_last() =~= latencies.take(count));
    }
}

impl ServiceWeeklyStats {
    /// The sum of the latencies, if it fits.
    pub fn latency_sum(&self) -> (sum: Option<u128>)
        ensures
            sum is Some <==> sum_of(self.latencies@) <= u128::MAX,
            sum matches Some(sum) ==> sum == sum_of(self.latencies@),
    {
        let mut sum: u128 = 0;
        let mut i: usize = 0;
        assert(self.latencies@.take(0) =~= Seq::empty());
        while i < self.latencies.len()
            invariant
                i <= self.latencies@.len(),
                sum == sum_of(self.latencies@.take(i as int)),
            decreases self.latencies.len() - i,
        {
            proof {
                assert(self.latencies@.take(i + 1).drop_last() =~= self.latencies@.take(i as int));
                lemma_sum_grows(self.latencies@, i + 1);
            }
            match sum.checked_add(self.latencies[i]) {
                Some(more) => {
                    sum = more;
                },
                None => {
                    return None;
                },
            }
            i = i + 1;
        }
        assert(self.latencies@.take(i as int) =~= self.latencies@);
        Some(sum)
    }
}

/// The start of the time that a report covers which goes out at the given time:
/// seven days before it, 1970 at the earliest.
pub open spec fn week_start(week_end: u64) -> int {
    if week_end >= 604_800 {
        week_end - 604_800
    } else {
        0
    }
}

/// The time that a report covers which goes out at the given time.
pub fn week_before(week_end: u64) -> (week: (u64, u64))
    ensures
        week.0 == week_start(week_end),
        week.1 == week_end,
        week_end >= 604_800 ==> week.0 + 604_800 == week.1,
        week_end < 604_800 ==> week.0 == 0,
{
    (week_end.saturating_sub(604_800), week_end)
}

/// A tally has one entry for each service that was checked and none for others,
/// and in each at least one check, of which no more are up or measured than
/// were made.
pub proof fn law_tally_covers_each_service_once(
    services: Seq<(String, ServiceWeeklyStats)>,
    checks: Seq<ServiceStatus>,
)
    requires
        is_tally(services, checks),
    ensures
        forall|i: int, j: int|
            0 <= i < j < services.len() ==> (#[trigger] services[i]).0@ != (
            #[trigger] services[j]).0@,
        forall|k: int|
            0 <= k < checks.len() ==> exists|i: int|
                0 <= i < services.len() && (#[trigger] services[i]).0@ == (
                #[trigger] checks[k]).service@,
        forall|i: int|
            0 <= i < services.len() ==> {
                &&& 1 <= (#[trigger] services[i]).1.total_checks
                &&& services[i].1.up_checks <= services[i].1.total_checks
                &&& services[i].1.latencies@.len() <= services[i].1.total_checks
            },
{
    let names = checked_names(checks);
    let listed = services.map_values(|entry: (String, ServiceWeeklyStats)| entry.0@);
    lemma_names_are_distinct(checks);
    assert forall|i: int, j: int| 0 <= i < j < services.len() implies (#[trigger] services[i]).0@
        != (#[trigger] services[j]).0@ by {
        assert(listed[i] == services[i].0@ && listed[j] == services[j].0@);
    }
    assert forall|k: int| 0 <= k < checks.len() implies exists|i: int|
        0 <= i < services.len() && (#[trigger] services[i]).0@ == (
        #[trigger] checks[k]).service@ by {
        assert(names.contains(checks[k].service@));
        let i = choose|i: int| 0 <= i < names.len() && names[i] == checks[k].service@;
        assert(listed[i] == services[i].0@);
    }
    assert forall|i: int| 0 <= i < services.len() implies {
        &&& 1 <= (#[trigger] services[i]).1.total_checks
        &&& services[i].1.up_checks <= services[i].1.total_checks
        &&& services[i].1.latencies@.len() <= services[i].1.total_checks
    } by {
        let name = services[i].0@;
        let own = checks_of(checks, name);
        assert(listed[i] == name);
        assert(names.contains(name)) by {
            assert(names[i] == name);
        }
        let k = choose|k: int| 0 <= k < checks.len() && (#[trigger] checks[k]).service@ == name;
        lemma_own_checks_found(checks, name, k);
        lemma_filter_len(own, |check: ServiceStatus| check.health is Up);
        lemma_measured_len(own);
    }
}

proof fn lemma_own_checks_found(checks: Seq<ServiceStatus>, name: Seq<char>, k: int)
    requires
        0 <= k < checks.len(),
        checks[k].service@ == name,
    ensures
        checks_of(checks, name).len() >= 1,
    decreases checks.len(),
{
    reveal(Seq::filter);
    if k < checks.len() - 1 {
        lemma_own_checks_found(checks.drop_last(), name, k);
    }
}

proof fn lemma_measured_len(checks: Seq<ServiceStatus>)
    ensures
        measured(checks).len() <= checks.len(),
    decreases checks.len(),
{
    if checks.len() > 0 {
        lemma_measured_len(checks.drop_last());
    }
}

/// The longest outage is at least as long as every other one, and longer than
/// those after it. An outage lasts from its start to its end, or to the end of
/// the week if it has not ended; one that would end before it starts has no
/// length.
pub proof fn law_longest_outage_outlasts_the_others(
    incidents: Seq<Incident>,
    until: u64,
    index: int,
    other: int,
)
    requires
        is_longest(incidents, until, index),
        0 <= other < incidents.len(),
    ensures
        0 <= index < incidents.len(),
        ({
            let lasted = outage_secs(incidents[index], until);
            let start = incidents[other].started_at;
            &&& incidents[other].ended_at is None && start <= until ==> lasted >= until - start
            &&& incidents[other].ended_at matches Some(end) ==> start <= end ==> lasted >= end
                - start
            &&& index < other && incidents[other].ended_at is None ==> lasted > until - start
            &&& incidents[other].ended_at matches Some(end) ==> index < other ==> lasted > end
                - start
            &&& lasted >= 0
        }),
        incidents[index].ended_at is None && incidents[index].started_at <= until ==> outage_secs(
            incidents[index],
            until,
        ) == until - incidents[index].started_at,
        incidents[index].ended_at matches Some(end) ==> incidents[index].started_at <= end
            ==> outage_secs(incidents[index], until) == end - incidents[index].started_at,
{
}

/// An outage that has ended lasts from its start to its end whenever it is
/// looked at, one that has not lasts up to the given time, and none lasts less
/// than nothing.
pub proof fn law_open_outage_lasts_until_now(incident: Incident, until: u64)
    ensures
        incident.ended_at matches Some(end) ==> {
            &&& incident.started_at <= end ==> outage_secs(incident, until) == end
                - incident.started_at
            &&& incident.started_at > end ==> outage_secs(incident, until) == 0
        },
        incident.ended_at is None ==> {
            &&& incident.started_at <= until ==> outage_secs(incident, until) == until
                - incident.started_at
            &&& incident.started_at > until ==> outage_secs(incident, until) == 0
        },
{
}

/// The checks of a series of snapshots are those of each snapshot, one after the
/// other, and all of them.
pub proof fn law_checks_of_each_snapshot(snapshots: Seq<StateSnapshot>, next: StateSnapshot)
    ensures
        all_checks(Seq::empty()).len() == 0,
        all_checks(snapshots.push(next)) == all_checks(snapshots) + next.services@,
{
    assert(snapshots.push(next).drop_last() =~= snapshots);
}

/// No checks make an empty tally.
pub proof fn law_empty_tally(services: Seq<(String, ServiceWeeklyStats)>)
    requires
        is_tally(services, Seq::empty()),
    ensures
        services.len() == 0,
{
    assert(services.map_values(|entry: (String, ServiceWeeklyStats)| entry.0@).len()
        == services.len());
}

/// One more check counts for its own service and for no other: the service has
/// one check more, one more that found it up if this one did, and one latency
/// more if this one measured it. A service that comes up for the first time gets
/// an entry behind the others.
pub proof fn law_each_check_counts_once(
    before: Seq<(String, ServiceWeeklyStats)>,
    after: Seq<(String, ServiceWeeklyStats)>,
    checks: Seq<ServiceStatus>,
    check: ServiceStatus,
)
    requires
        is_tally(before, checks),
        is_tally(after, checks.push(check)),
    ensures
        ({
            let known = exists|i: int|
                0 <= i < before.len() && (#[trigger] before[i]).0@ == check.service@;
            after.len() == before.len() + if known {
                0int
            } else {
                1int
            }
        }),
        forall|i: int|
            #![trigger before[i]]
            #![trigger after[i]]
            0 <= i < before.len() ==> {
                let own = check.service@ == before[i].0@;
                &&& after[i].0@ == before[i].0@
                &&& after[i].1.total_checks == before[i].1.total_checks + if own {
                    1int
                } else {
                    0int
                }
                &&& after[i].1.up_checks == before[i].1.up_checks + if own && check.health is Up {
                    1int
                } else {
                    0int
                }
                &&& own && check.latency_ms is Some ==> after[i].1.latencies@
                    == before[i].1.latencies@.push(check.latency_ms->0)
                &&& !own || check.latency_ms is None ==> after[i].1.latencies@
                    == before[i].1.latencies@
            },
        after.len() > before.len() ==> {
            let entry = after[before.len() as int];
            &&& entry.0@ == check.service@
            &&& entry.1.total_checks == 1
            &&& entry.1.up_checks == if check.health is Up {
                1int
            } else {
                0int
            }
            &&& check.latency_ms is Some ==> entry.1.latencies@.len() == 1
                && entry.1.latencies@[0] == check.latency_ms->0
            &&& check.latency_ms is None ==> entry.1.latencies@.len() == 0
        },
{
    let longer = checks.push(check);
    let name = check.service@;
    let names = checked_names(checks);
    let names_after = checked_names(longer);
    let listed = before.map_values(|entry: (String, ServiceWeeklyStats)| entry.0@);
    let listed_after = after.map_values(|entry: (String, ServiceWeeklyStats)| entry.0@);
    assert(longer.drop_last() =~= checks);
    lemma_names_are_distinct(checks);
    assert(listed.len() == before.len() && listed_after.len() == after.len());
    if exists|i: int| 0 <= i < before.len() && (#[trigger] before[i]).0@ == name {
        let i = choose|i: int| 0 <= i < before.len() && (#[trigger] before[i]).0@ == name;
        assert(listed[i] == name);
        assert(names.contains(name));
    }
    if names.contains(name) {
        let i = choose|i: int| 0 <= i < names.len() && names[i] == name;
        assert(listed[i] == before[i].0@);
    }
    assert forall|i: int|
        #![trigger before[i]]
        #![trigger after[i]]
        0 <= i < before.len() implies {
        let own = check.service@ == before[i].0@;
        &&& after[i].0@ == before[i].0@
        &&& after[i].1.total_checks == before[i].1.total_checks + if own {
            1int
        } else {
            0int
        }
        &&& after[i].1.up_checks == before[i].1.up_checks + if own && check.health is Up {
            1int
        } else {
            0int
        }
        &&& own && check.latency_ms is Some ==> after[i].1.latencies@
            == before[i].1.latencies@.push(check.latency_ms->0)
        &&& !own || check.latency_ms is None ==> after[i].1.latencies@ == before[i].1.latencies@
    } by {
        assert(listed[i] == before[i].0@);
        assert(listed_after[i] == after[i].0@);
        assert(names_after[i] == names[i]);
        let own = checks_of(checks, before[i].0@);
        lemma_checks_of_push(checks, check, before[i].0@);
        lemma_up_checks_push(own, check);
        assert(counts(before[i].1, own));
        assert(counts(after[i].1, checks_of(longer, after[i].0@)));
    }
    if after.len() > before.len() {
        let at = before.len() as int;
        assert(listed_after[at] == after[at].0@);
        assert(names_after[at] == name);
        assert forall|i: int| 0 <= i < checks.len() implies (#[trigger] checks[i]).service@
            != name by {}
        lemma_no_checks_of(checks, name);
        lemma_checks_of_push(checks, check, name);
        let own = checks_of(checks, name);
        lemma_up_checks_push(own, check);
        assert(counts(after[at].1, checks_of(longer, after[at].0@)));
        reveal(Seq::filter);
        assert(up_checks(own).len() == 0);
    }
}

/// One more latency adds to the sum what it is.
pub proof fn law_each_latency_adds_up(latencies: Seq<u128>, latency: u128)
    ensures
        sum_of(Seq::empty()) == 0,
        sum_of(latencies.push(latency)) == sum_of(latencies) + latency,
{
    assert(latencies.push(latency).drop_last() =~= latencies);
}

/// A report covers the seven days before it, from 1970 at the earliest.
pub proof fn law_week_has_seven_days(week_end: u64)
    ensures
        week_end >= 7 * 86_400 ==> week_start(week_end) + 7 * 86_400 == week_end,
        week_end < 7 * 86_400 ==> week_start(week_end) == 0,
{
}

} // verus!
