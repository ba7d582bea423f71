use vstd::prelude::*;
use crate::data_pull::serde_models::{self, CalendarDate};

verus! {

/// A row of the `tournament` table.
#[derive(Debug, Clone, PartialEq)]
pub struct Tournament {
    pub id: i32,
    pub ext_id: i64,
    pub slug: String,
    pub start_date: CalendarDate,
    pub end_date: CalendarDate,
    /// The row id of the tournament's league.
    pub league: i32,
}

/// The row for a tournament of the API, not yet stored (id 0) nor attached to
/// a league row (league 0).
pub open spec fn tournament_row(value: serde_models::Tournament) -> Tournament {
    Tournament {
        id: 0,
        ext_id: value.id.0,
        slug: value.slug,
        start_date: value.start_date,
        end_date: value.end_date,
        league: 0,
    }
}

impl Tournament {
    /// The row for a tournament of the API, not yet stored nor attached.
    pub fn from_serde(value: &serde_models::Tournament) -> (r: Tournament)
        ensures
            r == tournament_row(*value),
    {
        Tournament {
            id: 0,
            ext_id: value.id.0,
            slug: value.slug.clone(),
            start_date: value.start_date,
            end_date: value.end_date,
            league: 0,
        }
    }
}

} // verus!
