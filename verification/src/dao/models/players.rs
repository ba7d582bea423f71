use vstd::prelude::*;
use crate::data_pull::serde_models;

verus! {

/// A row of the `player` table.
#[derive(Debug, Clone, PartialEq)]
pub struct Player {
    pub id: i32,
    pub ext_id: i64,
    pub first_name: String,
    pub last_name: String,
    pub summoner_name: String,
    pub image_url: Option<String>,
    pub role: String,
}

/// The row for a player of the API, not yet stored (id 0).
pub open spec fn player_row(value: serde_models::Player) -> Player {
    Player {
        id: 0,
        ext_id: value.id.0,
        first_name: value.first_name,
        last_name: value.last_name,
        summoner_name: value.summoner_name,
        image_url: value.image,
        role: value.role,
    }
}

impl Player {
    /// The row for a player of the API, not yet stored.
    pub fn from_serde(value: &serde_models::Player) -> (r: Player)
        ensures
            r == player_row(*value),
    {
        Player {
            id: 0,
            ext_id: value.id.0,
            first_name: value.first_name.clone(),
            last_name: value.last_name.clone(),
            summoner_name: value.summoner_name.clone(),
            image_url: match &value.image {
                Some(s) => Some(s.clone()),
                None => None,
            },
            role: value.role.clone(),
        }
    }
}

} // verus!
