//! The state that is pulled from the esports API, and the decisions taken when
//! new API data is merged into it.
pub mod changes;
pub mod paging;
pub mod pull;

use vstd::prelude::*;
use crate::data_pull::serde_models::{EventDetails, Event, Leagues, Player, Team, Tournament};

verus! {

/// The tournaments of all leagues, as they are pulled.
pub type OurTournaments = Vec<Tournament>;

/// What has been pulled from the esports API so far.
#[derive(Debug)]
pub struct DataPull {
    pub leagues: Leagues,
    pub tournaments: OurTournaments,
    pub teams: Vec<Team>,
    pub players: Vec<Player>,
    pub schedule_single_page: Vec<Event>,
    pub schedule: Vec<Event>,
    pub live: Vec<EventDetails>,
    pub previous_live: Vec<EventDetails>,
    pub events_with_recent_changes: Vec<EventDetails>,
}

impl Default for DataPull {
    fn default() -> (r: Self)
        ensures
            r.leagues.leagues@.len() == 0,
            r.tournaments@.len() == 0,
            r.teams@.len() == 0,
            r.players@.len() == 0,
            r.schedule_single_page@.len() == 0,
            r.schedule@.len() == 0,
            r.live@.len() == 0,
            r.previous_live@.len() == 0,
            r.events_with_recent_changes@.len() == 0,
    {
        DataPull {
            leagues: Leagues { leagues: Vec::new() },
            tournaments: Vec::new(),
            teams: Vec::new(),
            players: Vec::new(),
            schedule_single_page: Vec::new(),
            schedule: Vec::new(),
            live: Vec::new(),
            previous_live: Vec::new(),
            events_with_recent_changes: Vec::new(),
        }
    }
}

} // verus!
