//! The database side: the rows of the tables, and the plans that say which
//! rows are inserted and which are updated when fetched data is stored.
pub mod models;
pub mod rows;
pub mod links;
pub mod schedule_plan;

use vstd::prelude::*;
use models::event::Schedule;
use models::leagues::League;
use models::players::Player;
use models::teams::Team;
use models::tournaments::Tournament;

verus! {

/// The rows last read from the database.
#[derive(Debug)]
pub struct DatabaseOps {
    pub leagues: Vec<League>,
    pub tournaments: Vec<Tournament>,
    pub teams: Vec<Team>,
    pub players: Vec<Player>,
    pub events: Vec<Schedule>,
}

impl Default for DatabaseOps {
    fn default() -> (r: Self)
        ensures
            r.leagues@.len() == 0,
            r.tournaments@.len() == 0,
            r.teams@.len() == 0,
            r.players@.len() == 0,
            r.events@.len() == 0,
    {
        DatabaseOps {
            leagues: Vec::new(),
            tournaments: Vec::new(),
            teams: Vec::new(),
            players: Vec::new(),
            events: Vec::new(),
        }
    }
}

} // verus!
