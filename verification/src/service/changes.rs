//! Which live events changed between two polls of the live feed, and what is
//! recorded for each of them.
use vstd::prelude::*;
use crate::deep::{DeepClone, DeepEq};
use crate::seqs::{first_index, lemma_filter_none, lemma_filter_push, lemma_first_index_absent, lemma_first_index_found, lemma_take_succ};
use crate::data_pull::serde_models::{EventDetailMatch, EventDetails, LolesportsId};
use crate::data_pull::views::{EventDetailMatchView, EventDetailsView, TeamEventView};
use super::DataPull;

verus! {

/// The state that marks an event as over.
pub open spec fn completed_state() -> Seq<char> {
    "completed"@
}

/// The event with its state set to completed.
pub open spec fn as_completed(e: EventDetailsView) -> EventDetailsView {
    EventDetailsView { state: Some(completed_state()), ..e }
}

/// Whether an event has the given id.
pub open spec fn has_id(id: LolesportsId) -> spec_fn(EventDetailsView) -> bool {
    |e: EventDetailsView| e.id.0 == id.0
}

/// Whether an event is absent, as it is, from the live feed.
pub open spec fn not_in(live: Seq<EventDetailsView>) -> spec_fn(EventDetailsView) -> bool {
    |e: EventDetailsView| !live.contains(e)
}

/// The events of the previous poll that are not, as they were, in the new poll.
pub open spec fn changed_events(
    previous: Seq<EventDetailsView>,
    live: Seq<EventDetailsView>,
) -> Seq<EventDetailsView> {
    previous.filter(not_in(live))
}

/// What is recorded for one changed event.
#[derive(Debug, Clone, PartialEq)]
pub enum ChangeStep {
    /// The event is recorded as it is.
    Ready(EventDetails),
    /// The event, a match, has left the live feed: its details are fetched and
    /// then concluded by [`conclude_ended_match`].
    FetchDetails(EventDetails),
}

pub enum ChangeStepView {
    Ready(EventDetailsView),
    FetchDetails(EventDetailsView),
}

impl DeepView for ChangeStep {
    type V = ChangeStepView;

    open spec fn deep_view(&self) -> ChangeStepView {
        match self {
            ChangeStep::Ready(e) => ChangeStepView::Ready(e.deep_view()),
            ChangeStep::FetchDetails(e) => ChangeStepView::FetchDetails(e.deep_view()),
        }
    }
}

/// The step for a changed event `e`: when the live feed still holds an event
/// with its id, the first such live event is recorded; otherwise the event has
/// ended, and a match needs its details while a show is recorded as completed.
pub open spec fn change_step(e: EventDetailsView, live: Seq<EventDetailsView>) -> ChangeStepView {
    match first_index(live, has_id(e.id)) {
        Some(j) => ChangeStepView::Ready(live[j]),
        None => if e.event_match is Some {
            ChangeStepView::FetchDetails(e)
        } else {
            ChangeStepView::Ready(as_completed(e))
        },
    }
}

/// The steps for all changed events, in the order of the previous poll.
pub open spec fn change_steps(
    previous: Seq<EventDetailsView>,
    live: Seq<EventDetailsView>,
) -> Seq<ChangeStepView> {
    changed_events(previous, live).map_values(|e: EventDetailsView| change_step(e, live))
}

/// Half of a match's game count, rounded toward zero.
pub open spec fn half_games(count: i8) -> int {
    if count >= 0 {
        count / 2
    } else {
        -((-count) / 2)
    }
}

/// Whether a team has won more than half of a match of `count` games.
pub open spec fn won_majority(t: TeamEventView, count: i8) -> bool {
    match t.result {
        Some(r) => r.game_wins > half_games(count),
        None => false,
    }
}

/// Whether a team of the match has won more than half of its games.
pub open spec fn match_decided(m: EventDetailMatchView) -> bool {
    exists|i: int| 0 <= i < m.teams.len() && #[trigger] won_majority(m.teams[i], m.strategy.count)
}

fn completed_state_string() -> (r: String)
    ensures
        r@ == completed_state(),
{
    "completed".to_owned()
}

/// Whether `events` holds `e`, compared by their deep views.
pub fn contains_details(events: &Vec<EventDetails>, e: &EventDetails) -> (r: bool)
    ensures
        r == events.deep_view().contains(e.deep_view()),
{
    let mut i: usize = 0;
    while i < events.len()
        invariant
            i <= events.len(),
            forall|k: int| 0 <= k < i ==> events.deep_view()[k] != e.deep_view(),
        decreases events.len() - i,
    {
        if events[i].deep_eq(e) {
            assert(events.deep_view()[i as int] == e.deep_view());
            return true;
        }
        i = i + 1;
    }
    false
}

/// The position of the first event of `events` with the given id.
pub fn position_by_id(events: &Vec<EventDetails>, id: LolesportsId) -> (r: Option<usize>)
    ensures
        r matches Some(j) ==> first_index(events.deep_view(), has_id(id)) == Some(j as int),
        r is None ==> first_index(events.deep_view(), has_id(id)) is None,
{
    let mut i: usize = 0;
    while i < events.len()
        invariant
            i <= events.len(),
            forall|k: int| 0 <= k < i ==> !has_id(id)(#[trigger] events.deep_view()[k]),
        decreases events.len() - i,
    {
        if events[i].id.0 == id.0 {
            proof {
                lemma_first_index_found(events.deep_view(), has_id(id), i as int);
            }
            return Some(i);
        }
        i = i + 1;
    }
    proof {
        lemma_first_index_absent(events.deep_view(), has_id(id));
    }
    None
}

/// The step for one changed event of the previous poll.
fn step_for(e: &EventDetails, live: &Vec<EventDetails>) -> (r: ChangeStep)
    ensures
        r.deep_view() == change_step(e.deep_view(), live.deep_view()),
{
    match position_by_id(live, e.id) {
        Some(j) => ChangeStep::Ready(live[j].deep_clone()),
        None => {
            if e.event_match.is_some() {
                ChangeStep::FetchDetails(e.deep_clone())
            } else {
                let mut shown = e.deep_clone();
                shown.state = Some(completed_state_string());
                ChangeStep::Ready(shown)
            }
        },
    }
}

/// The details fetched for an ended match, with their state set to completed
/// when a team of the match, as it was last seen live, has won more than half
/// of its games.
pub fn conclude_ended_match(last_seen: &EventDetailMatch, fetched: EventDetails) -> (r:
    EventDetails)
    ensures
        r.deep_view() == (if match_decided(last_seen.deep_view()) {
            as_completed(fetched.deep_view())
        } else {
            fetched.deep_view()
        }),
{
    let count = last_seen.strategy.count as i16;
    let half: i16 = if count >= 0 {
        count / 2
    } else {
        0 - ((0 - count) / 2)
    };
    let ghost m = last_seen.deep_view();
    let mut decided = false;
    let mut i: usize = 0;
    while i < last_seen.teams.len()
        invariant
            i <= last_seen.teams.len(),
            m == last_seen.deep_view(),
            half == half_games(m.strategy.count),
            decided == exists|k: int|
                0 <= k < i && #[trigger] won_majority(m.teams[k], m.strategy.count),
        decreases last_seen.teams.len() - i,
    {
        let won = match &last_seen.teams[i].result {
            Some(result) => result.game_wins as i16 > half,
            None => false,
        };
        assert(m.teams[i as int] == last_seen.teams@[i as int].deep_view());
        assert(won == won_majority(m.teams[i as int], m.strategy.count));
        if won {
            decided = true;
        }
        i = i + 1;
    }
    let mut r = fetched;
    if decided {
        r.state = Some(completed_state_string());
    }
    r
}

impl DataPull {
    /// Compares the previous poll of the live feed with the new one, and makes
    /// the new poll the previous one. Returns the step for each event of the
    /// previous poll that is not, as it was, in the new poll.
    pub fn plan_changes(&mut self) -> (steps: Vec<ChangeStep>)
        ensures
            steps.deep_view() == change_steps(
                old(self).previous_live.deep_view(),
                old(self).live.deep_view(),
            ),
            final(self).previous_live.deep_view() == old(self).live.deep_view(),
            final(self).live == old(self).live,
            final(self).leagues == old(self).leagues,
            final(self).tournaments == old(self).tournaments,
            final(self).teams == old(self).teams,
            final(self).players == old(self).players,
            final(self).schedule_single_page == old(self).schedule_single_page,
            final(self).schedule == old(self).schedule,
            final(self).events_with_recent_changes == old(self).events_with_recent_changes,
    {
        let previous = &self.previous_live;
        let live = &self.live;
        let ghost prev = previous.deep_view();
        let ghost lv = live.deep_view();
        let ghost step_of = |e: EventDetailsView| change_step(e, lv);
        let mut steps: Vec<ChangeStep> = Vec::new();
        let mut i: usize = 0;
        while i < previous.len()
            invariant
                i <= previous.len(),
                prev == previous.deep_view(),
                lv == live.deep_view(),
                step_of == (|e: EventDetailsView| change_step(e, lv)),
                steps.deep_view() == prev.take(i as int).filter(not_in(lv)).map_values(step_of),
            decreases previous.len() - i,
        {
            let ghost before = steps.deep_view();
            proof {
                lemma_take_succ(prev, i as int);
                lemma_filter_push(prev.take(i as int), not_in(lv), prev[i as int]);
            }
            if !contains_details(live, &previous[i]) {
                let step = step_for(&previous[i], live);
                steps.push(step);
                assert(steps.deep_view() =~= before.push(step_of(prev[i as int])));
            }
            i = i + 1;
        }
        assert(prev.take(previous.len() as int) =~= prev);
        self.previous_live = self.live.deep_clone();
        steps
    }
}

/// An event of the previous poll is among the changed events exactly when
/// it is not, as it was, in the new poll.
pub proof fn lemma_changed_exactly_when_not_live(
    previous: Seq<EventDetailsView>,
    live: Seq<EventDetailsView>,
    x: EventDetailsView,
)
    ensures
        changed_events(previous, live).contains(x) <==> (previous.contains(x) && !live.contains(x)),
{
    let c = changed_events(previous, live);
    if c.contains(x) {
        let i = choose|i: int| 0 <= i < c.len() && c[i] == x;
        previous.lemma_filter_pred(not_in(live), i);
        crate::seqs::lemma_filter_subset(previous, not_in(live), i);
    }
    if previous.contains(x) && !live.contains(x) {
        let k = choose|k: int| 0 <= k < previous.len() && previous[k] == x;
        previous.lemma_filter_contains(not_in(live), k);
    }
}

/// Completing an event sets its state to "completed" and keeps every other
/// field.
pub proof fn lemma_completed_keeps_the_rest(e: EventDetailsView)
    ensures
        as_completed(e).state == Some("completed"@),
        as_completed(e).id == e.id && as_completed(e).event_type == e.event_type
            && as_completed(e).tournament == e.tournament && as_completed(e).league == e.league
            && as_completed(e).event_match == e.event_match && as_completed(e).start_time
            == e.start_time && as_completed(e).blockname == e.blockname && as_completed(e).streams
            == e.streams,
{
}

/// The step of a changed event: when the live feed holds events with its id,
/// the first of them is recorded as it is; otherwise a match needs its
/// details, and a show is recorded as it was with its state "completed".
pub proof fn lemma_change_step_choice(e: EventDetailsView, live: Seq<EventDetailsView>)
    ensures
        match first_index(live, |l: EventDetailsView| l.id == e.id) {
            Some(j) => change_step(e, live) == ChangeStepView::Ready(live[j]),
            None => if e.event_match is Some {
                change_step(e, live) == ChangeStepView::FetchDetails(e)
            } else {
                &&& change_step(e, live) is Ready
                &&& step_event(change_step(e, live)).state == Some("completed"@)
                &&& step_event(change_step(e, live)) == EventDetailsView {
                    state: step_event(change_step(e, live)).state,
                    ..e
                }
            },
        },
{
    assert(has_id(e.id) =~= |l: EventDetailsView| l.id == e.id);
}

/// For a match of a non-negative number of games, a team has won more than
/// half of it exactly when twice its wins exceed the number of games; and a
/// match is only ever decided by a team that reports a result.
pub proof fn lemma_majority_rule(m: EventDetailMatchView)
    ensures
        m.strategy.count >= 0 ==> (match_decided(m) <==> exists|i: int|
            0 <= i < m.teams.len() && (#[trigger] m.teams[i]).result is Some && 2
                * m.teams[i].result->0.game_wins > m.strategy.count),
        match_decided(m) ==> exists|i: int|
            0 <= i < m.teams.len() && (#[trigger] m.teams[i]).result is Some,
{
    if match_decided(m) {
        let i = choose|i: int| 0 <= i < m.teams.len() && #[trigger] won_majority(m.teams[i], m.strategy.count);
        assert(m.teams[i].result is Some);
    }
    if m.strategy.count >= 0 {
        if exists|i: int|
            0 <= i < m.teams.len() && (#[trigger] m.teams[i]).result is Some && 2
                * m.teams[i].result->0.game_wins > m.strategy.count {
            let i = choose|i: int|
                0 <= i < m.teams.len() && (#[trigger] m.teams[i]).result is Some && 2
                    * m.teams[i].result->0.game_wins > m.strategy.count;
            assert(won_majority(m.teams[i], m.strategy.count));
        }
    }
}

/// The event that a step records or fetches.
pub open spec fn step_event(s: ChangeStepView) -> EventDetailsView {
    match s {
        ChangeStepView::Ready(e) => e,
        ChangeStepView::FetchDetails(e) => e,
    }
}

/// Polling a live feed that has not changed finds no changed event.
pub proof fn lemma_unchanged_feed_has_no_changes(feed: Seq<EventDetailsView>)
    ensures
        change_steps(feed, feed).len() == 0,
{
    assert forall|k: int| 0 <= k < feed.len() implies !not_in(feed)(#[trigger] feed[k]) by {
        assert(feed.contains(feed[k]));
    }
    lemma_filter_none(feed, not_in(feed));
}

/// The step for a changed event concerns an event with the same id, and
/// details are fetched only for a match of which no event with that id is
/// left in the live feed.
pub proof fn lemma_change_step_keeps_id(e: EventDetailsView, live: Seq<EventDetailsView>)
    ensures
        step_event(change_step(e, live)).id == e.id,
        change_step(e, live) is FetchDetails ==> {
            &&& e.event_match is Some
            &&& forall|k: int| 0 <= k < live.len() ==> #[trigger] live[k].id != e.id
        },
{
    match first_index(live, has_id(e.id)) {
        Some(j) => {
            crate::seqs::lemma_first_index_some(live, has_id(e.id));
        },
        None => {
            assert forall|k: int| 0 <= k < live.len() implies #[trigger] live[k].id != e.id by {
                if live[k].id == e.id {
                    assert(has_id(e.id)(live[k]));
                    crate::seqs::lemma_first_index_exists(live, has_id(e.id), k);
                }
            }
        },
    }
}

} // verus!
