use vstd::prelude::*;

verus! {

/// A row of the `team_player` table: a player belongs to a team.
#[derive(Debug, Clone, Copy, PartialEq, Eq, Structural, Default)]
pub struct TeamPlayer {
    pub id: i32,
    pub team_id: Option<i64>,
    pub player_id: Option<i64>,
}

} // verus!
