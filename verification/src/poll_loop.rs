//! What drives the polling engine: the timer and refresh requests.

use vstd::prelude::*;

use crate::check::CheckResult;
use crate::incidents::is_incident_id;
use crate::models::{Incident, ServiceConfig, ServiceStatus};
use crate::poll::{PendingOutages, PollRound, TransitionNotice};
use crate::poll_laws::{round_after, stands_after, Check, RoundState};

verus! {

/// A request to the polling engine.
#[derive(Debug)]
pub enum PollCommand {
    RefreshNow,
}

/// What woke the polling engine.
#[derive(Debug)]
pub enum LoopEvent {
    /// The poll interval went by.
    Tick,
    /// Someone asked for something.
    Command(PollCommand),
    /// Nobody can ask for anything any more.
    Closed,
}

/// What the polling engine does next.
#[derive(Debug)]
pub enum LoopAction {
    /// Check all services, with or without announcements.
    Poll { emit_notifications: bool },
    /// End the engine.
    Stop,
}

/// The polling engine between checks: whether it has made a round, and the
/// outages that its rounds have found and not yet seen the end of.
pub struct PollLoop {
    bootstrapped: bool,
    pending: PendingOutages,
}

/// State of the polling engine.
pub struct LoopState {
    /// Whether a round has been made.
    pub bootstrapped: bool,
    /// The pending outages.
    pub pending: Map<Seq<char>, u64>,
}

impl View for PollLoop {
    type V = LoopState;

    closed spec fn view(&self) -> LoopState {
        LoopState { bootstrapped: self.bootstrapped, pending: self.pending@ }
    }
}

/// The state of an engine before its first round.
pub open spec fn initial_state() -> LoopState {
    LoopState { bootstrapped: false, pending: Map::empty() }
}

/// What an event makes the engine do.
pub open spec fn action_on(state: LoopState, event: LoopEvent) -> LoopAction {
    match event {
        LoopEvent::Tick | LoopEvent::Command(PollCommand::RefreshNow) => LoopAction::Poll {
            emit_notifications: state.bootstrapped,
        },
        LoopEvent::Closed => LoopAction::Stop,
    }
}

/// The state of the engine after an event, before any check that follows.
pub open spec fn state_after(state: LoopState, event: LoopEvent) -> LoopState {
    match event {
        LoopEvent::Tick | LoopEvent::Command(PollCommand::RefreshNow) => LoopState {
            bootstrapped: true,
            ..state
        },
        LoopEvent::Closed => state,
    }
}

impl PollLoop {
    /// The engine before its first round.
    pub fn new() -> (engine: Self)
        ensures
            engine@ == initial_state(),
            !engine@.bootstrapped,
            engine@.pending == Map::<Seq<char>, u64>::empty(),
    {
        PollLoop { bootstrapped: false, pending: PendingOutages::new() }
    }

    /// Takes in an event. The first round makes no announcements: it only
    /// learns how things stand.
    pub fn on_event(&mut self, event: LoopEvent) -> (action: LoopAction)
        ensures
            action == action_on(old(self)@, event),
            final(self)@ == state_after(old(self)@, event),
            action is Stop <==> event is Closed,
            action matches LoopAction::Poll { emit_notifications } ==> emit_notifications == old(
                self,
            )@.bootstrapped,
            final(self)@.pending == old(self)@.pending,
            final(self)@.bootstrapped <==> old(self)@.bootstrapped || event !is Closed,
    {
        match event {
            LoopEvent::Tick | LoopEvent::Command(PollCommand::RefreshNow) => {
                let emit_notifications = self.bootstrapped;
                self.bootstrapped = true;
                LoopAction::Poll { emit_notifications }
            },
            LoopEvent::Closed => LoopAction::Stop,
        }
    }

    /// When the pending outage of a service was first seen, if it has one.
    pub fn pending_since(&self, service: &str) -> (seen: Option<u64>)
        ensures
            seen == (if self@.pending.contains_key(service@) {
                Some(self@.pending[service@])
            } else {
                None
            }),
    {
        self.pending.get(service)
    }

    /// Takes in the result of the next check of a round, and says what to
    /// announce. The outages that are pending are those that all checks so far
    /// have left, in this round and in the rounds before.
    pub fn observe<'a>(&mut self, round: &mut PollRound<'a>, result: CheckResult) -> (notice: Option<
        TransitionNotice,
    >)
        requires
            old(round).services@.len() < old(round).configs@.len(),
        ensures
            final(round).same_round(*old(round)),
            old(round).in_order() ==> final(round).in_order(),
            final(self)@.bootstrapped == old(self)@.bootstrapped,
            exists|id: String|
                {
                    let observation = #[trigger] old(round).next_observation(
                        result,
                        old(self)@.pending,
                        id,
                    );
                    &&& old(round).next_opens_incident(result, old(self)@.pending)
                        ==> is_incident_id(id@)
                    &&& final(round).services@ == old(round).services@.push(observation.status)
                    &&& final(round).incidents@ == observation.incidents
                    &&& final(self)@.pending == observation.pending
                    &&& notice == observation.notice
                },
            final(round).configs == old(round).configs,
            final(round).previous == old(round).previous,
            final(round).now == old(round).now,
            final(round).grace_period_secs == old(round).grace_period_secs,
            final(round).emit_notifications == old(round).emit_notifications,
            final(round).services@.len() == old(round).services@.len() + 1,
            final(round).services@.take(old(round).services@.len() as int) == old(round).services@,
            ({
                let status = final(round).services@.last();
                &&& status.health == result.health
                &&& status.latency_ms == result.latency_ms
                &&& status.error == result.error
                &&& status.last_checked == Some(old(round).now)
            }),
            forall|i: int|
                0 <= i < old(round).previous.services@.len() && (
                #[trigger] old(round).previous.services@[i]).service@ == old(
                    round,
                ).configs@[old(round).services@.len() as int].name@ && (forall|j: int|
                    0 <= j < old(round).previous.services@.len() && j != i ==> (
                    #[trigger] old(round).previous.services@[j]).service@ != old(
                        round,
                    ).previous.services@[i].service@) ==> {
                    let listed = old(round).previous.services@[i];
                    let status = final(round).services@.last();
                    &&& status.service == listed.service
                    &&& status.icon == listed.icon
                    &&& status.discord_message_id == listed.discord_message_id
                    &&& notice matches Some(notice) ==> notice.message_id
                        == listed.discord_message_id
                },
    {
        let ghost before = *round;
        let ghost outages = self.pending@;
        let notice = round.observe(result, &mut self.pending);
        proof {
            let id = choose|id: String|
                {
                    let observation = #[trigger] before.next_observation(result, outages, id);
                    &&& before.next_opens_incident(result, outages) ==> is_incident_id(id@)
                    &&& round.services@ == before.services@.push(observation.status)
                    &&& round.incidents@ == observation.incidents
                    &&& self.pending@ == observation.pending
                    &&& notice == observation.notice
                };
            let observation = before.next_observation(result, outages, id);
            assert(outages == old(self)@.pending);
            assert(self@.pending == observation.pending);
        }
        notice
    }
}

/// What wakes an engine once, and the round that it makes then.
pub struct Turn {
    pub event: LoopEvent,
    pub configs: Seq<ServiceConfig>,
    /// The statuses and the history that the round begins with.
    pub services: Seq<ServiceStatus>,
    pub incidents: Seq<Incident>,
    pub grace_period_secs: u64,
    /// The checks of the round.
    pub checks: Seq<Check>,
}

/// What the round of a turn comes to, with what was pending when it began.
pub open spec fn round_of(turn: Turn, begun: LoopState) -> RoundState {
    round_after(
        turn.configs,
        turn.services,
        turn.grace_period_secs,
        begun.bootstrapped,
        turn.incidents,
        begun.pending,
        turn.checks,
    )
}

/// The state of the engine after a turn.
pub open spec fn after_turn(state: LoopState, turn: Turn) -> LoopState {
    match action_on(state, turn.event) {
        LoopAction::Poll { .. } => LoopState {
            bootstrapped: true,
            pending: round_of(turn, state).pending,
        },
        LoopAction::Stop => state,
    }
}

/// The state of a new engine after a series of turns.
pub open spec fn after_turns(turns: Seq<Turn>) -> LoopState
    decreases turns.len(),
{
    if turns.len() == 0 {
        initial_state()
    } else {
        after_turn(after_turns(turns.drop_last()), turns.last())
    }
}

/// Whether the turn at `earlier` makes the last round before the turn at
/// `index`.
pub open spec fn last_round_before(turns: Seq<Turn>, index: int, earlier: int) -> bool {
    &&& 0 <= earlier < index
    &&& turns[earlier].event !is Closed
    &&& forall|i: int| earlier < i < index ==> (#[trigger] turns[i]).event is Closed
}

/// An engine makes one round for every tick and every refresh, and stops only
/// when nobody can ask for anything any more. Its first round is silent and
/// begins with no pending outage; every later one makes announcements and begins
/// with the pending outages that the round before it left.
pub proof fn law_rounds_follow_each_other(turns: Seq<Turn>, index: int)
    requires
        0 <= index < turns.len(),
    ensures
        ({
            let state = after_turns(turns.take(index));
            let event = turns[index].event;
            let later = exists|earlier: int| #[trigger] last_round_before(turns, index, earlier);
            &&& state.bootstrapped <==> later
            &&& action_on(state, event) is Stop <==> event is Closed
            &&& event !is Closed ==> action_on(state, event) == (LoopAction::Poll {
                emit_notifications: later,
            })
            &&& !later ==> state.pending == Map::<Seq<char>, u64>::empty()
            &&& forall|earlier: int| #[trigger]
                last_round_before(turns, index, earlier) ==> state.pending == round_of(
                    turns[earlier],
                    after_turns(turns.take(earlier)),
                ).pending
        }),
    decreases index,
{
    if index > 0 {
        let last = index - 1;
        law_rounds_follow_each_other(turns, last);
        assert(turns.take(index).drop_last() =~= turns.take(last));
        assert(turns.take(index).last() == turns[last]);
        if turns[last].event is Closed {
            assert forall|earlier: int| #[trigger]
                last_round_before(turns, index, earlier) <==> last_round_before(
                turns,
                last,
                earlier,
            ) by {}
            if exists|earlier: int| #[trigger] last_round_before(turns, last, earlier) {
                let earlier = choose|earlier: int| #[trigger]
                    last_round_before(turns, last, earlier);
                assert(last_round_before(turns, index, earlier));
            }
        } else {
            assert(last_round_before(turns, index, last));
            assert forall|earlier: int| #[trigger]
                last_round_before(turns, index, earlier) implies earlier == last by {
                if earlier < last {
                    assert(turns[last].event is Closed);
                }
            }
        }
    }
}

/// An engine that has taken in an event and then the checks of a round has made
/// that turn: `begun` is its state before the event, `reached` its state after
/// the checks.
pub proof fn law_turn_is_made(
    begun: LoopState,
    reached: LoopState,
    turn: Turn,
    round: PollRound,
)
    requires
        turn.event !is Closed,
        action_on(begun, turn.event) == (LoopAction::Poll {
            emit_notifications: round.emit_notifications,
        }),
        reached.bootstrapped == state_after(begun, turn.event).bootstrapped,
        turn.configs == round.configs@,
        turn.services == round.previous.services@,
        turn.incidents == round.previous.incidents@,
        turn.grace_period_secs == round.grace_period_secs,
        stands_after(round, reached.pending, begun.pending, turn.checks),
    ensures
        reached == after_turn(begun, turn),
{
}

/// A new engine has made no round and knows of no outage. Every tick and every
/// refresh makes it poll, with announcements once it has made a round, and only
/// the end of all requests makes it stop; none of these touches the pending
/// outages.
pub proof fn law_events_leave_pending_outages(state: LoopState, event: LoopEvent)
    ensures
        !initial_state().bootstrapped,
        initial_state().pending == Map::<Seq<char>, u64>::empty(),
        state_after(state, event).pending == state.pending,
        state_after(state, event).bootstrapped <==> state.bootstrapped || event !is Closed,
        event is Closed ==> action_on(state, event) is Stop,
        event !is Closed ==> action_on(state, event) == (LoopAction::Poll {
            emit_notifications: state.bootstrapped,
        }),
{
}

} // verus!
