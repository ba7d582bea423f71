use vstd::prelude::*;
use crate::data_pull::serde_models::{self, LolesportsDateTime};

verus! {

/// A row of the `schedule` table: one event of the schedule.
#[derive(Debug, Clone, PartialEq)]
pub struct Schedule {
    pub id: i32,
    pub start_time: Option<LolesportsDateTime>,
    pub state: String,
    pub event_type: String,
    pub blockname: Option<String>,
    pub league_id: Option<i64>,
    pub match_id: Option<i64>,
    pub strategy: Option<String>,
    pub strategy_count: Option<i64>,
    pub team_left_id: Option<i64>,
    pub team_left_wins: Option<i64>,
    pub team_right_id: Option<i64>,
    pub team_right_wins: Option<i64>,
}

/// The row for an event of the schedule, not yet stored (id 0), without its
/// league or teams.
pub open spec fn event_row(value: serde_models::Event) -> Schedule {
    Schedule {
        id: 0,
        start_time: Some(value.start_time),
        state: value.state,
        event_type: value.event_type,
        blockname: value.block_name,
        league_id: None,
        match_id: match value.event_match {
            Some(m) => Some(m.id.0),
            None => None,
        },
        strategy: match value.event_match {
            Some(m) => Some(m.strategy.strategy_type),
            None => None,
        },
        strategy_count: match value.event_match {
            Some(m) => Some(m.strategy.count as i64),
            None => None,
        },
        team_left_id: None,
        team_left_wins: None,
        team_right_id: None,
        team_right_wins: None,
    }
}

/// Whether `r` is the row for the event details `value`, not yet stored
/// (id 0), without its league or teams: the match id is the event's id, and
/// a missing state is the empty string.
pub open spec fn is_details_row(r: Schedule, value: serde_models::EventDetails) -> bool {
    &&& r.id == 0
    &&& r.start_time == value.start_time
    &&& r.state@ == match value.state {
        Some(s) => s@,
        None => Seq::<char>::empty(),
    }
    &&& r.event_type == value.event_type
    &&& r.blockname == value.blockname
    &&& r.league_id is None
    &&& r.match_id == Some(value.id.0)
    &&& r.strategy == match value.event_match {
        Some(m) => Some(m.strategy.strategy_type),
        None => None,
    }
    &&& r.strategy_count == match value.event_match {
        Some(m) => Some(m.strategy.count as i64),
        None => None,
    }
    &&& r.team_left_id is None
    &&& r.team_left_wins is None
    &&& r.team_right_id is None
    &&& r.team_right_wins is None
}

/// The wins of the team at `index` of the event details' match, when the
/// match, that team and its result are known.
pub open spec fn details_team_wins(value: serde_models::EventDetails, index: int) -> Option<i64> {
    match value.event_match {
        Some(m) => if 0 <= index < m.teams@.len() {
            match m.teams@[index].result {
                Some(r) => Some(r.game_wins as i64),
                None => None,
            }
        } else {
            None
        },
        None => None,
    }
}

/// A stored event updated with new details: the wins of each side when the
/// details know them, and the state when the details have one.
pub open spec fn merged_row(row: Schedule, value: serde_models::EventDetails) -> Schedule {
    Schedule {
        team_left_wins: match details_team_wins(value, 0) {
            Some(w) => Some(w),
            None => row.team_left_wins,
        },
        team_right_wins: match details_team_wins(value, 1) {
            Some(w) => Some(w),
            None => row.team_right_wins,
        },
        state: match value.state {
            Some(s) => s,
            None => row.state,
        },
        ..row
    }
}

/// The row of live event details: not yet stored (id 0), with the details'
/// start, type and block name, their state (the empty text when they have
/// none), their id as match id, the strategy and game count of their match if
/// any, and neither league nor teams.
pub proof fn lemma_details_row_fields(r: Schedule, value: serde_models::EventDetails)
    requires
        is_details_row(r, value),
    ensures
        r.id == 0 && r.start_time == value.start_time && r.event_type == value.event_type
            && r.blockname == value.blockname && r.match_id == Some(value.id.0),
        value.state is Some ==> r.state@ == value.state->0@,
        value.state is None ==> r.state@.len() == 0,
        value.event_match is Some ==> r.strategy == Some(
            value.event_match->0.strategy.strategy_type,
        ) && r.strategy_count == Some(value.event_match->0.strategy.count as i64),
        value.event_match is None ==> r.strategy is None && r.strategy_count is None,
        r.league_id is None && r.team_left_id is None && r.team_left_wins is None
            && r.team_right_id is None && r.team_right_wins is None,
{
}

/// Merging live details into a stored row changes at most the wins of the two
/// sides and the state. The left side's wins become the wins that the
/// details' first team reports, the right side's those of its second team,
/// and the state becomes the details' state; each is kept when the details
/// report nothing for it. Every other field of the row is kept.
pub proof fn lemma_merge_changes_only_wins_and_state(
    row: Schedule,
    value: serde_models::EventDetails,
)
    ensures
        ({
            let m = merged_row(row, value);
            &&& m.id == row.id && m.start_time == row.start_time && m.event_type == row.event_type
                && m.blockname == row.blockname && m.league_id == row.league_id && m.match_id
                == row.match_id && m.strategy == row.strategy && m.strategy_count
                == row.strategy_count && m.team_left_id == row.team_left_id && m.team_right_id
                == row.team_right_id
            &&& m.team_left_wins == match value.event_match {
                Some(x) => if x.teams@.len() > 0 && x.teams@[0].result is Some {
                    Some(x.teams@[0].result->0.game_wins as i64)
                } else {
                    row.team_left_wins
                },
                None => row.team_left_wins,
            }
            &&& m.team_right_wins == match value.event_match {
                Some(x) => if x.teams@.len() > 1 && x.teams@[1].result is Some {
                    Some(x.teams@[1].result->0.game_wins as i64)
                } else {
                    row.team_right_wins
                },
                None => row.team_right_wins,
            }
            &&& m.state == match value.state {
                Some(s) => s,
                None => row.state,
            }
        }),
{
}

/// Merging the same details a second time changes nothing more.
pub proof fn lemma_merge_idempotent(row: Schedule, value: serde_models::EventDetails)
    ensures
        merged_row(merged_row(row, value), value) == merged_row(row, value),
{
}

fn copy_option(s: &Option<String>) -> (r: Option<String>)
    ensures
        r == *s,
{
    match s {
        Some(v) => Some(v.clone()),
        None => None,
    }
}

fn team_wins(teams: &Vec<serde_models::TeamEvent>, index: usize) -> (r: Option<i64>)
    ensures
        r == (if index < teams@.len() {
            match teams@[index as int].result {
                Some(res) => Some(res.game_wins as i64),
                None => None,
            }
        } else {
            None::<i64>
        }),
{
    if index < teams.len() {
        match &teams[index].result {
            Some(res) => Some(res.game_wins as i64),
            None => None,
        }
    } else {
        None
    }
}

impl Schedule {
    /// The row for an event of the schedule, not yet stored, without its
    /// league or teams.
    pub fn from_event(value: &serde_models::Event) -> (r: Schedule)
        ensures
            r == event_row(*value),
    {
        Schedule {
            id: 0,
            start_time: Some(value.start_time),
            state: value.state.clone(),
            event_type: value.event_type.clone(),
            blockname: copy_option(&value.block_name),
            league_id: None,
            match_id: match &value.event_match {
                Some(m) => Some(m.id.0),
                None => None,
            },
            strategy: match &value.event_match {
                Some(m) => Some(m.strategy.strategy_type.clone()),
                None => None,
            },
            strategy_count: match &value.event_match {
                Some(m) => Some(m.strategy.count as i64),
                None => None,
            },
            team_left_id: None,
            team_left_wins: None,
            team_right_id: None,
            team_right_wins: None,
        }
    }

    /// The row for live event details, not yet stored, without its league or
    /// teams.
    pub fn from_event_details(value: &serde_models::EventDetails) -> (r: Schedule)
        ensures
            is_details_row(r, *value),
    {
        Schedule {
            id: 0,
            start_time: value.start_time,
            state: match &value.state {
                Some(s) => s.clone(),
                None => String::new(),
            },
            event_type: value.event_type.clone(),
            blockname: copy_option(&value.blockname),
            league_id: None,
            match_id: Some(value.id.0),
            strategy: match &value.event_match {
                Some(m) => Some(m.strategy.strategy_type.clone()),
                None => None,
            },
            strategy_count: match &value.event_match {
                Some(m) => Some(m.strategy.count as i64),
                None => None,
            },
            team_left_id: None,
            team_left_wins: None,
            team_right_id: None,
            team_right_wins: None,
        }
    }

    /// Updates the row with new details of its event: the wins of the first
    /// and second team when the details know them, and the state when the
    /// details have one; the rest of the row is kept.
    pub fn merge_with_event_details(&mut self, event_details: &serde_models::EventDetails)
        ensures
            *final(self) == merged_row(*old(self), *event_details),
    {
        if let Some(m) = &event_details.event_match {
            if let Some(w) = team_wins(&m.teams, 0) {
                self.team_left_wins = Some(w);
            }
            if let Some(w) = team_wins(&m.teams, 1) {
                self.team_right_wins = Some(w);
            }
        }
        if let Some(new_state) = &event_details.state {
            self.state = new_state.clone();
        }
    }
}

} // verus!
