//! How fetched leagues, tournaments, teams, players and schedule events are
//! merged into the pulled state.
use vstd::prelude::*;
use crate::seqs::{first_index, lemma_first_index_absent, lemma_first_index_found, lemma_take_succ};
use crate::data_pull::serde_models::{
    Event, EventDetails, HomeLeague, League, LeagueForTournaments, LolesportsId, Player,
    ScheduleLeague, Team, TeamsPlayers, Tournament,
};
use super::DataPull;

verus! {

/// Whether a league has the given name.
pub open spec fn league_named(name: Seq<char>) -> spec_fn(League) -> bool {
    |l: League| l.name@ == name
}

/// Whether a league has the given slug.
pub open spec fn league_with_slug(slug: Seq<char>) -> spec_fn(League) -> bool {
    |l: League| l.slug@ == slug
}

/// The id of the first league that satisfies `p`, or the default id 0.
pub open spec fn league_id_where(leagues: Seq<League>, p: spec_fn(League) -> bool) -> LolesportsId {
    match first_index(leagues, p) {
        Some(j) => leagues[j].id,
        None => LolesportsId(0),
    }
}

/// A tournament attributed to the league it was fetched for.
pub open spec fn in_league(t: Tournament, league_id: LolesportsId) -> Tournament {
    Tournament { league_id: league_id, ..t }
}

/// A fetched team whose home league, if it has one, is given the id of the
/// first known league with the home league's name.
pub open spec fn with_home_league_id(t: Team, leagues: Seq<League>) -> Team {
    match t.home_league {
        Some(h) => Team {
            home_league: Some(
                HomeLeague { league_id: league_id_where(leagues, league_named(h.name@)), ..h },
            ),
            ..t
        },
        None => t,
    }
}

/// The players of the teams, team after team.
pub open spec fn players_of(teams: Seq<Team>) -> Seq<Player>
    decreases teams.len(),
{
    if teams.len() == 0 {
        Seq::empty()
    } else {
        players_of(teams.drop_last()) + teams.last().players@
    }
}

/// A schedule event whose league is given the id of the first known league
/// with the event league's slug.
pub open spec fn with_schedule_league_id(e: Event, leagues: Seq<League>) -> Event {
    Event {
        league: ScheduleLeague {
            league_id: league_id_where(leagues, league_with_slug(e.league.slug@)),
            ..e.league
        },
        ..e
    }
}

/// The id of the first known league with a given name, or 0 when no known
/// league has it; likewise by slug.
pub proof fn lemma_league_ids_by_name_and_slug(leagues: Seq<League>, key: Seq<char>)
    ensures
        league_id_where(leagues, league_named(key)) == match first_index(
            leagues,
            |l: League| l.name@ == key,
        ) {
            Some(j) => leagues[j].id,
            None => LolesportsId(0),
        },
        league_id_where(leagues, league_with_slug(key)) == match first_index(
            leagues,
            |l: League| l.slug@ == key,
        ) {
            Some(j) => leagues[j].id,
            None => LolesportsId(0),
        },
{
    assert(league_named(key) =~= |l: League| l.name@ == key);
    assert(league_with_slug(key) =~= |l: League| l.slug@ == key);
}

/// Resolving a team's home league changes only the home league's id, which
/// becomes the id of the first known league with the home league's name (0
/// when none has it); a team without a home league is kept as it is.
pub proof fn lemma_home_league_resolution(t: Team, leagues: Seq<League>)
    ensures
        ({
            let r = with_home_league_id(t, leagues);
            &&& r == Team { home_league: r.home_league, ..t }
            &&& match t.home_league {
                Some(h) => r.home_league == Some(
                    HomeLeague {
                        league_id: match first_index(leagues, |l: League| l.name@ == h.name@) {
                            Some(j) => leagues[j].id,
                            None => LolesportsId(0),
                        },
                        ..h
                    },
                ),
                None => r.home_league is None,
            }
        }),
{
    match t.home_league {
        Some(h) => {
            lemma_league_ids_by_name_and_slug(leagues, h.name@);
        },
        None => {},
    }
}

/// Resolving a schedule event's league changes only the league's id, which
/// becomes the id of the first known league with the event league's slug (0
/// when none has it).
pub proof fn lemma_schedule_league_resolution(e: Event, leagues: Seq<League>)
    ensures
        ({
            let r = with_schedule_league_id(e, leagues);
            &&& r == Event { league: r.league, ..e }
            &&& r.league == ScheduleLeague {
                league_id: match first_index(leagues, |l: League| l.slug@ == e.league.slug@) {
                    Some(j) => leagues[j].id,
                    None => LolesportsId(0),
                },
                ..e.league
            }
        }),
{
    lemma_league_ids_by_name_and_slug(leagues, e.league.slug@);
}

/// Attributing a tournament to a league changes only its league id.
pub proof fn lemma_in_league_changes_only_the_league(t: Tournament, league_id: LolesportsId)
    ensures
        in_league(t, league_id).league_id == league_id,
        in_league(t, league_id).id == t.id && in_league(t, league_id).slug == t.slug
            && in_league(t, league_id).start_date == t.start_date && in_league(t, league_id).end_date
            == t.end_date,
{
}

/// The players of teams are those of all but the last team followed by those
/// of the last; there are none for no team.
pub proof fn lemma_players_of_append(teams: Seq<Team>, t: Team)
    ensures
        players_of(Seq::<Team>::empty()).len() == 0,
        players_of(teams.push(t)) == players_of(teams) + t.players@,
{
    assert(teams.push(t).drop_last() =~= teams);
}

fn copy_string_option(s: &Option<String>) -> (r: Option<String>)
    ensures
        r == *s,
{
    match s {
        Some(v) => Some(v.clone()),
        None => None,
    }
}

/// A copy of a player.
pub fn copy_player(p: &Player) -> (r: Player)
    ensures
        r == *p,
{
    Player {
        id: p.id,
        first_name: p.first_name.clone(),
        last_name: p.last_name.clone(),
        summoner_name: p.summoner_name.clone(),
        image: copy_string_option(&p.image),
        role: p.role.clone(),
    }
}

/// A copy of a list of players.
pub fn copy_players(v: &Vec<Player>) -> (r: Vec<Player>)
    ensures
        r@ == v@,
{
    let mut out: Vec<Player> = Vec::new();
    let mut i: usize = 0;
    while i < v.len()
        invariant
            i <= v.len(),
            out@ == v@.take(i as int),
        decreases v.len() - i,
    {
        proof {
            lemma_take_succ(v@, i as int);
        }
        out.push(copy_player(&v[i]));
        i = i + 1;
    }
    assert(v@.take(v.len() as int) =~= v@);
    out
}

/// The id of the first league of `leagues` whose name (or, when `by_slug`,
/// whose slug) is `key`, or the default id 0.
fn first_league_id(leagues: &Vec<League>, key: &String, by_slug: bool) -> (r: LolesportsId)
    ensures
        by_slug ==> r == league_id_where(leagues@, league_with_slug(key@)),
        !by_slug ==> r == league_id_where(leagues@, league_named(key@)),
{
    let ghost p = if by_slug {
        league_with_slug(key@)
    } else {
        league_named(key@)
    };
    let mut i: usize = 0;
    while i < leagues.len()
        invariant
            i <= leagues.len(),
            p == (if by_slug {
                league_with_slug(key@)
            } else {
                league_named(key@)
            }),
            forall|k: int| 0 <= k < i ==> !p(#[trigger] leagues@[k]),
        decreases leagues.len() - i,
    {
        let hit = if by_slug {
            leagues[i].slug == *key
        } else {
            leagues[i].name == *key
        };
        if hit {
            proof {
                lemma_first_index_found(leagues@, p, i as int);
            }
            return leagues[i].id;
        }
        i = i + 1;
    }
    proof {
        lemma_first_index_absent(leagues@, p);
    }
    LolesportsId(0)
}

impl DataPull {
    /// The id of the first known league with the given name, or the default
    /// id 0 when no known league has that name.
    pub fn search_league_by_name(&self, name: &str) -> (r: LolesportsId)
        ensures
            r == league_id_where(self.leagues.leagues@, league_named(name@)),
    {
        let key = name.to_owned();
        first_league_id(&self.leagues.leagues, &key, false)
    }

    /// Adds the tournaments fetched for the league `league_id`: those of the
    /// first league of the answer, each attributed to `league_id`.
    pub fn add_league_tournaments(&mut self, league_id: LolesportsId, fetched: LeagueForTournaments)
        requires
            fetched.leagues@.len() > 0,
        ensures
            final(self).tournaments@ == old(self).tournaments@ + fetched.leagues@[0].tournaments@.map_values(
                |t: Tournament| in_league(t, league_id),
            ),
            final(self).leagues == old(self).leagues,
            final(self).teams == old(self).teams,
            final(self).players == old(self).players,
            final(self).schedule_single_page == old(self).schedule_single_page,
            final(self).schedule == old(self).schedule,
            final(self).live == old(self).live,
            final(self).previous_live == old(self).previous_live,
            final(self).events_with_recent_changes == old(self).events_with_recent_changes,
    {
        let mut leagues = fetched.leagues;
        let first = leagues.swap_remove(0);
        let ghost src = first.tournaments@;
        let ghost start = self.tournaments@;
        for t in it: first.tournaments.into_iter()
            invariant
                it.seq() == src,
                self.tournaments@ == start + src.take(it.index() as int).map_values(
                    |t: Tournament| in_league(t, league_id),
                ),
                self.leagues == old(self).leagues,
                self.teams == old(self).teams,
                self.players == old(self).players,
                self.schedule_single_page == old(self).schedule_single_page,
                self.schedule == old(self).schedule,
                self.live == old(self).live,
                self.previous_live == old(self).previous_live,
                self.events_with_recent_changes == old(self).events_with_recent_changes,
        {
            proof {
                lemma_take_succ(src, it.index() as int);
            }
            let mut t = t;
            t.league_id = league_id;
            self.tournaments.push(t);
            assert(self.tournaments@ =~= start + src.take(it.index() + 1).map_values(
                |t: Tournament| in_league(t, league_id),
            ));
        }
        assert(src.take(src.len() as int) =~= src);
    }

    /// Adds the fetched teams, in order, each with its home league resolved
    /// by name among the known leagues, and the players of each team after
    /// those already known.
    pub fn add_teams_and_players(&mut self, fetched: TeamsPlayers)
        ensures
            final(self).teams@ == old(self).teams@ + fetched.teams@.map_values(
                |t: Team| with_home_league_id(t, old(self).leagues.leagues@),
            ),
            final(self).players@ == old(self).players@ + players_of(fetched.teams@),
            final(self).leagues == old(self).leagues,
            final(self).tournaments == old(self).tournaments,
            final(self).schedule_single_page == old(self).schedule_single_page,
            final(self).schedule == old(self).schedule,
            final(self).live == old(self).live,
            final(self).previous_live == old(self).previous_live,
            final(self).events_with_recent_changes == old(self).events_with_recent_changes,
    {
        let ghost src = fetched.teams@;
        let ghost leagues = self.leagues.leagues@;
        let ghost start_teams = self.teams@;
        let ghost start_players = self.players@;
        for team in it: fetched.teams.into_iter()
            invariant
                it.seq() == src,
                leagues == self.leagues.leagues@,
                self.teams@ == start_teams + src.take(it.index() as int).map_values(
                    |t: Team| with_home_league_id(t, leagues),
                ),
                self.players@ == start_players + players_of(src.take(it.index() as int)),
                self.leagues == old(self).leagues,
                self.tournaments == old(self).tournaments,
                self.schedule_single_page == old(self).schedule_single_page,
                self.schedule == old(self).schedule,
                self.live == old(self).live,
                self.previous_live == old(self).previous_live,
                self.events_with_recent_changes == old(self).events_with_recent_changes,
        {
            let ghost i = it.index() as int;
            proof {
                lemma_take_succ(src, i);
                assert(src.take(i + 1).drop_last() =~= src.take(i));
            }
            let mut team = team;
            let home_league = match team.home_league {
                Some(h) => {
                    let league_id = first_league_id(&self.leagues.leagues, &h.name, false);
                    Some(HomeLeague { league_id: league_id, name: h.name, region: h.region })
                },
                None => None,
            };
            team.home_league = home_league;
            let mut copies = copy_players(&team.players);
            self.teams.push(team);
            self.players.append(&mut copies);
            assert(self.teams@ =~= start_teams + src.take(i + 1).map_values(
                |t: Team| with_home_league_id(t, leagues),
            ));
            assert(self.players@ =~= start_players + players_of(src.take(i + 1)));
        }
        assert(src.take(src.len() as int) =~= src);
    }

    /// Gives each event of the full schedule the id of the first known league
    /// with the event league's slug, or the default id 0.
    pub fn assign_schedule_league_ids(&mut self)
        ensures
            final(self).schedule@ == old(self).schedule@.map_values(
                |e: Event| with_schedule_league_id(e, old(self).leagues.leagues@),
            ),
            final(self).leagues == old(self).leagues,
            final(self).tournaments == old(self).tournaments,
            final(self).teams == old(self).teams,
            final(self).players == old(self).players,
            final(self).schedule_single_page == old(self).schedule_single_page,
            final(self).live == old(self).live,
            final(self).previous_live == old(self).previous_live,
            final(self).events_with_recent_changes == old(self).events_with_recent_changes,
    {
        let mut events: Vec<Event> = Vec::new();
        std::mem::swap(&mut events, &mut self.schedule);
        let ghost src = events@;
        let ghost leagues = self.leagues.leagues@;
        for e in it: events.into_iter()
            invariant
                it.seq() == src,
                leagues == self.leagues.leagues@,
                self.schedule@ == src.take(it.index() as int).map_values(
                    |e: Event| with_schedule_league_id(e, leagues),
                ),
                self.leagues == old(self).leagues,
                self.tournaments == old(self).tournaments,
                self.teams == old(self).teams,
                self.players == old(self).players,
                self.schedule_single_page == old(self).schedule_single_page,
                self.live == old(self).live,
                self.previous_live == old(self).previous_live,
                self.events_with_recent_changes == old(self).events_with_recent_changes,
        {
            let ghost i = it.index() as int;
            proof {
                lemma_take_succ(src, i);
            }
            let mut e = e;
            e.league.league_id = first_league_id(&self.leagues.leagues, &e.league.slug, true);
            self.schedule.push(e);
            assert(self.schedule@ =~= src.take(i + 1).map_values(
                |e: Event| with_schedule_league_id(e, leagues),
            ));
        }
        assert(src.take(src.len() as int) =~= src);
    }

    /// Starts a poll of the live feed: forgets the changes recorded at the
    /// previous poll.
    pub fn begin_live_poll(&mut self)
        ensures
            final(self).events_with_recent_changes@.len() == 0,
            final(self).leagues == old(self).leagues,
            final(self).tournaments == old(self).tournaments,
            final(self).teams == old(self).teams,
            final(self).players == old(self).players,
            final(self).schedule_single_page == old(self).schedule_single_page,
            final(self).schedule == old(self).schedule,
            final(self).live == old(self).live,
            final(self).previous_live == old(self).previous_live,
    {
        self.events_with_recent_changes.clear();
    }

    /// Makes `events` the current poll of the live feed.
    pub fn set_live(&mut self, events: Vec<EventDetails>)
        ensures
            final(self).live == events,
            final(self).events_with_recent_changes == old(self).events_with_recent_changes,
            final(self).leagues == old(self).leagues,
            final(self).tournaments == old(self).tournaments,
            final(self).teams == old(self).teams,
            final(self).players == old(self).players,
            final(self).schedule_single_page == old(self).schedule_single_page,
            final(self).schedule == old(self).schedule,
            final(self).previous_live == old(self).previous_live,
    {
        self.live = events;
    }
}

} // verus!
