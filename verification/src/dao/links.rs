//! The team-player relation rows: one row for each player of each fetched
//! team, linking the stored team to the stored player.
use vstd::prelude::*;
use crate::seqs::{first_index, lemma_take_succ};
use crate::data_pull::serde_models;
use super::DatabaseOps;
use super::rows::{has_key, position_by_key};
use super::models::players::Player;
use super::models::team_player::TeamPlayer;
use super::models::teams::Team;

verus! {

/// The row id of the first stored team with the API id `ext_id`, if any.
pub open spec fn team_row_id(stored: Seq<Team>, ext_id: i64) -> Option<i32> {
    match first_index(stored, has_key::<Team>(ext_id)) {
        Some(j) => Some(stored[j].id),
        None => None,
    }
}

/// The row id of the first stored player with the API id `ext_id`, if any.
pub open spec fn player_row_id(stored: Seq<Player>, ext_id: i64) -> Option<i32> {
    match first_index(stored, has_key::<Player>(ext_id)) {
        Some(j) => Some(stored[j].id),
        None => None,
    }
}

/// Whether a fetched team and all its players are stored.
pub open spec fn team_resolvable(t: serde_models::Team, teams: Seq<Team>, players: Seq<Player>) -> bool {
    &&& team_row_id(teams, t.id.0) is Some
    &&& forall|k: int|
        0 <= k < t.players@.len() ==> #[trigger] player_row_id(players, t.players@[k].id.0) is Some
}

/// Whether every fetched team and every player of them are stored.
pub open spec fn links_resolvable(
    fetched: Seq<serde_models::Team>,
    teams: Seq<Team>,
    players: Seq<Player>,
) -> bool {
    forall|i: int| 0 <= i < fetched.len() ==> #[trigger] team_resolvable(fetched[i], teams, players)
}

/// The link of a stored team to the stored player with the API id of `p`.
pub open spec fn link_of(team_id: i32, p: serde_models::Player, players: Seq<Player>) -> TeamPlayer {
    TeamPlayer {
        id: 0,
        team_id: Some(team_id as i64),
        player_id: Some(player_row_id(players, p.id.0)->0 as i64),
    }
}

/// The links of one fetched team, player after player.
pub open spec fn team_links(t: serde_models::Team, teams: Seq<Team>, players: Seq<Player>) -> Seq<
    TeamPlayer,
> {
    t.players@.map_values(
        |p: serde_models::Player| link_of(team_row_id(teams, t.id.0)->0, p, players),
    )
}

/// The links of the fetched teams, team after team.
pub open spec fn all_team_links(
    fetched: Seq<serde_models::Team>,
    teams: Seq<Team>,
    players: Seq<Player>,
) -> Seq<TeamPlayer>
    decreases fetched.len(),
{
    if fetched.len() == 0 {
        Seq::empty()
    } else {
        all_team_links(fetched.drop_last(), teams, players) + team_links(
            fetched.last(),
            teams,
            players,
        )
    }
}

/// A fetched team can be linked exactly when a stored team has its API id and,
/// for each of its players, a stored player has that player's API id.
pub proof fn lemma_team_resolvable_by_ids(
    t: serde_models::Team,
    teams: Seq<Team>,
    players: Seq<Player>,
)
    ensures
        team_resolvable(t, teams, players) <==> {
            &&& first_index(teams, |x: Team| x.ext_id == t.id.0) is Some
            &&& forall|k: int|
                0 <= k < t.players@.len() ==> first_index(
                    players,
                    |x: Player| x.ext_id == (#[trigger] t.players@[k]).id.0,
                ) is Some
        },
{
    assert(has_key::<Team>(t.id.0) =~= |x: Team| x.ext_id == t.id.0);
    assert forall|k: int| 0 <= k < t.players@.len() implies (#[trigger] player_row_id(
        players,
        t.players@[k].id.0,
    ) is Some <==> first_index(players, |x: Player| x.ext_id == t.players@[k].id.0) is Some) by {
        assert(has_key::<Player>(t.players@[k].id.0) =~= |x: Player| x.ext_id == t.players@[k].id.0);
    }
    let rhs = forall|k: int|
        0 <= k < t.players@.len() ==> first_index(
            players,
            |x: Player| x.ext_id == (#[trigger] t.players@[k]).id.0,
        ) is Some;
    let lhs = forall|k: int|
        0 <= k < t.players@.len() ==> #[trigger] player_row_id(players, t.players@[k].id.0) is Some;
    if lhs {
        assert forall|k: int| 0 <= k < t.players@.len() implies first_index(
            players,
            |x: Player| x.ext_id == (#[trigger] t.players@[k]).id.0,
        ) is Some by {
            assert(player_row_id(players, t.players@[k].id.0) is Some);
        }
    }
    if rhs {
        assert forall|k: int| 0 <= k < t.players@.len() implies #[trigger] player_row_id(
            players,
            t.players@[k].id.0,
        ) is Some by {
            assert(first_index(players, |x: Player| x.ext_id == t.players@[k].id.0) is Some);
        }
    }
}

/// The links of a stored team: one per player, in order, each not yet stored
/// (id 0), with the row id of the first stored team with the team's API id
/// and the row id of the first stored player with the player's API id; the
/// links of a list of teams are those of all but the last team followed by
/// those of the last.
pub proof fn lemma_team_links_rows(
    fetched: Seq<serde_models::Team>,
    t: serde_models::Team,
    teams: Seq<Team>,
    players: Seq<Player>,
)
    requires
        team_resolvable(t, teams, players),
    ensures
        team_links(t, teams, players).len() == t.players@.len(),
        forall|k: int|
            0 <= k < t.players@.len() ==> #[trigger] team_links(t, teams, players)[k] == (TeamPlayer {
                id: 0,
                team_id: Some(teams[first_index(teams, |x: Team| x.ext_id == t.id.0)->0].id as i64),
                player_id: Some(
                    players[first_index(
                        players,
                        |x: Player| x.ext_id == t.players@[k].id.0,
                    )->0].id as i64,
                ),
            }),
        all_team_links(fetched.push(t), teams, players) == all_team_links(fetched, teams, players)
            + team_links(t, teams, players),
{
    assert(fetched.push(t).drop_last() =~= fetched);
    assert(has_key::<Team>(t.id.0) =~= |x: Team| x.ext_id == t.id.0);
    assert forall|k: int| 0 <= k < t.players@.len() implies #[trigger] team_links(t, teams, players)[k]
        == (TeamPlayer {
        id: 0,
        team_id: Some(teams[first_index(teams, |x: Team| x.ext_id == t.id.0)->0].id as i64),
        player_id: Some(
            players[first_index(players, |x: Player| x.ext_id == t.players@[k].id.0)->0].id as i64,
        ),
    }) by {
        assert(has_key::<Player>(t.players@[k].id.0) =~= |x: Player| x.ext_id == t.players@[k].id.0);
        assert(team_resolvable(t, teams, players));
        assert(player_row_id(players, t.players@[k].id.0) is Some);
    }
}

fn find_id<T: super::rows::KeyedRow>(stored: &Vec<T>, ext_id: i64) -> (r: Option<i32>)
    ensures
        r matches Some(id) ==> first_index(stored@, has_key::<T>(ext_id)) matches Some(j) && id
            == stored@[j].row_id(),
        r is None ==> first_index(stored@, has_key::<T>(ext_id)) is None,
{
    match position_by_key(stored, ext_id) {
        Some(j) => Some(stored[j].stored_id()),
        None => None,
    }
}

fn team_is_resolvable(t: &serde_models::Team, teams: &Vec<Team>, players: &Vec<Player>) -> (r:
    bool)
    ensures
        r == team_resolvable(*t, teams@, players@),
{
    if find_id(teams, t.id.0).is_none() {
        return false;
    }
    let mut k: usize = 0;
    while k < t.players.len()
        invariant
            k <= t.players@.len(),
            forall|q: int| 0 <= q < k ==> #[trigger] player_row_id(players@, t.players@[q].id.0) is Some,
        decreases t.players@.len() - k,
    {
        if find_id(players, t.players[k].id.0).is_none() {
            assert(player_row_id(players@, t.players@[k as int].id.0) is None);
            return false;
        }
        k = k + 1;
    }
    true
}

impl DatabaseOps {
    /// Whether every fetched team and every player of them are stored, so
    /// that their links can be made.
    pub fn team_player_links_resolvable(
        fetched: &Vec<serde_models::Team>,
        teams: &Vec<Team>,
        players: &Vec<Player>,
    ) -> (r: bool)
        ensures
            r == links_resolvable(fetched@, teams@, players@),
    {
        let mut i: usize = 0;
        while i < fetched.len()
            invariant
                i <= fetched@.len(),
                forall|q: int| 0 <= q < i ==> #[trigger] team_resolvable(fetched@[q], teams@, players@),
            decreases fetched@.len() - i,
        {
            if !team_is_resolvable(&fetched[i], teams, players) {
                return false;
            }
            i = i + 1;
        }
        true
    }

    /// The team-player rows for the fetched teams: for each team, in order,
    /// one row per player, in order, linking the first stored team with the
    /// team's API id to the first stored player with the player's API id.
    pub fn plan_team_players(
        fetched: &Vec<serde_models::Team>,
        teams: &Vec<Team>,
        players: &Vec<Player>,
    ) -> (r: Vec<TeamPlayer>)
        requires
            links_resolvable(fetched@, teams@, players@),
        ensures
            r@ == all_team_links(fetched@, teams@, players@),
    {
        let ghost src = fetched@;
        let mut out: Vec<TeamPlayer> = Vec::new();
        let mut i: usize = 0;
        while i < fetched.len()
            invariant
                i <= src.len(),
                src == fetched@,
                links_resolvable(src, teams@, players@),
                out@ == all_team_links(src.take(i as int), teams@, players@),
            decreases src.len() - i,
        {
            proof {
                lemma_take_succ(src, i as int);
                assert(src.take(i + 1).drop_last() =~= src.take(i as int));
                assert(team_resolvable(src[i as int], teams@, players@));
            }
            let t = &fetched[i];
            let team_id = match find_id(teams, t.id.0) {
                Some(id) => id,
                None => 0,
            };
            let ghost before = out@;
            let mut k: usize = 0;
            while k < t.players.len()
                invariant
                    k <= t.players@.len(),
                    team_resolvable(*t, teams@, players@),
                    team_id == team_row_id(teams@, t.id.0)->0,
                    out@ == before + team_links(*t, teams@, players@).take(k as int),
                decreases t.players@.len() - k,
            {
                assert(player_row_id(players@, t.players@[k as int].id.0) is Some);
                let player_id = match find_id(players, t.players[k].id.0) {
                    Some(id) => id,
                    None => 0,
                };
                out.push(TeamPlayer { id: 0, team_id: Some(team_id as i64), player_id: Some(player_id as i64) });
                assert(out@ =~= before + team_links(*t, teams@, players@).take(k + 1));
                k = k + 1;
            }
            assert(team_links(*t, teams@, players@).take(t.players@.len() as int) =~= team_links(*t, teams@, players@));
            i = i + 1;
        }
        assert(src.take(src.len() as int) =~= src);
        out
    }
}

} // verus!
