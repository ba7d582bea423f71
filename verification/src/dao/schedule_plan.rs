//! How schedule events and live event details are stored: which stored event
//! each of them is, what their rows hold, and which of their streams are new.
use vstd::prelude::*;
use crate::seqs::{first_index, lemma_filter_push, lemma_first_index_absent, lemma_first_index_found, lemma_take_succ};
use crate::data_pull::serde_models::{self, EventDetails, LolesportsDateTime, LolesportsId, TeamEvent};
use super::DatabaseOps;
use super::rows::Upsert;
use super::models::event::{Schedule, event_row, is_details_row, merged_row};
use super::models::leagues::League;
use super::models::streams::{Stream, stream_row};
use super::models::teams::Team;

verus! {

/// The state that marks an event as over.
pub open spec fn completed_state() -> Seq<char> {
    "completed"@
}

/// Whether a league has the given slug.
pub open spec fn league_slug_is(slug: Seq<char>) -> spec_fn(League) -> bool {
    |l: League| l.slug@ == slug
}

/// Whether a team has the given name.
pub open spec fn team_name_is(name: Seq<char>) -> spec_fn(Team) -> bool {
    |t: Team| t.name@ == name
}

/// The first stored league with the given slug, if any.
pub open spec fn league_by_slug(leagues: Seq<League>, slug: Seq<char>) -> Option<League> {
    match first_index(leagues, league_slug_is(slug)) {
        Some(j) => Some(leagues[j]),
        None => None,
    }
}

/// The row id of the first stored league with the given slug, if any.
pub open spec fn league_id_by_slug(leagues: Seq<League>, slug: Seq<char>) -> Option<i64> {
    match league_by_slug(leagues, slug) {
        Some(l) => Some(l.id as i64),
        None => None,
    }
}

/// The row id of the first stored team with the given name, if any.
pub open spec fn team_id_by_name(teams: Seq<Team>, name: Seq<char>) -> Option<i64> {
    match first_index(teams, team_name_is(name)) {
        Some(j) => Some(teams[j].id as i64),
        None => None,
    }
}

/// The games won by a side of a match, when its result is known.
pub open spec fn side_wins(t: TeamEvent) -> Option<i64> {
    match t.result {
        Some(r) => Some(r.game_wins as i64),
        None => None,
    }
}

/// Whether an event of the schedule can be stored: a match that names a team
/// names two.
pub open spec fn sides_complete(e: serde_models::Event) -> bool {
    match e.event_match {
        Some(m) => m.teams@.len() > 0 ==> m.teams@.len() >= 2,
        None => true,
    }
}

/// The row for an event of the schedule, with its league (by slug) and, for a
/// match that names teams, its first team on the left and its second team on
/// the right (by name), with their wins. Its state is the event's.
pub open spec fn event_row_in(e: serde_models::Event, leagues: Seq<League>, teams: Seq<Team>) -> Schedule {
    let base = Schedule {
        league_id: league_id_by_slug(leagues, e.league.slug@),
        ..event_row(e)
    };
    match e.event_match {
        Some(m) => if m.teams@.len() > 0 {
            Schedule {
                team_left_id: team_id_by_name(teams, m.teams@[0].name@),
                team_left_wins: side_wins(m.teams@[0]),
                team_right_id: team_id_by_name(teams, m.teams@[1].name@),
                team_right_wins: side_wins(m.teams@[1]),
                ..base
            }
        } else {
            base
        },
        None => base,
    }
}

/// Whether the wins of both sides add up to the match's game count.
pub open spec fn all_games_reported(r: Schedule) -> bool {
    match (r.strategy_count, r.team_right_wins, r.team_left_wins) {
        (Some(c), Some(rw), Some(lw)) => c == rw + lw,
        _ => false,
    }
}

/// The state stored for a row: completed when all the games of its match are
/// reported, else the event's own state.
pub open spec fn stored_state(r: Schedule) -> Seq<char> {
    if all_games_reported(r) {
        completed_state()
    } else {
        r.state@
    }
}

/// Whether a stored event is the event of the fetched row: the same match, or,
/// for an event without a match, the same start and league.
pub open spec fn same_stored_event(fetched: Schedule) -> spec_fn(Schedule) -> bool {
    |s: Schedule|
        (fetched.match_id is Some && fetched.match_id == s.match_id) || (fetched.match_id is None
            && fetched.start_time == s.start_time && fetched.league_id == s.league_id)
}

/// Whether `row` is `expected` with the state whose characters are `state`.
pub open spec fn row_with_state(row: Schedule, expected: Schedule, state: Seq<char>) -> bool {
    &&& row.state@ == state
    &&& row == Schedule { state: row.state, ..expected }
}

/// Whether `u` is the plan for the event `e` of the schedule: its row, with
/// the stored state, updates the first stored event that is the same event,
/// taking its id, or is inserted.
pub open spec fn is_event_plan(
    u: Upsert<Schedule>,
    e: serde_models::Event,
    leagues: Seq<League>,
    teams: Seq<Team>,
    stored: Seq<Schedule>,
) -> bool {
    let expected = event_row_in(e, leagues, teams);
    let state = stored_state(expected);
    match first_index(stored, same_stored_event(expected)) {
        Some(j) => match u {
            Upsert::Update(row) => row_with_state(row, Schedule { id: stored[j].id, ..expected }, state),
            Upsert::Insert(_) => false,
        },
        None => match u {
            Upsert::Insert(row) => row_with_state(row, expected, state),
            Upsert::Update(_) => false,
        },
    }
}

fn find_league_by_slug(leagues: &Vec<League>, slug: &String) -> (r: Option<usize>)
    ensures
        r matches Some(j) ==> first_index(leagues@, league_slug_is(slug@)) == Some(j as int),
        r is None ==> first_index(leagues@, league_slug_is(slug@)) is None,
{
    let mut i: usize = 0;
    while i < leagues.len()
        invariant
            i <= leagues.len(),
            forall|k: int| 0 <= k < i ==> !league_slug_is(slug@)(#[trigger] leagues@[k]),
        decreases leagues.len() - i,
    {
        if leagues[i].slug == *slug {
            proof {
                lemma_first_index_found(leagues@, league_slug_is(slug@), i as int);
            }
            return Some(i);
        }
        i = i + 1;
    }
    proof {
        lemma_first_index_absent(leagues@, league_slug_is(slug@));
    }
    None
}

fn find_league_id_by_slug(leagues: &Vec<League>, slug: &String) -> (r: Option<i64>)
    ensures
        r == league_id_by_slug(leagues@, slug@),
{
    match find_league_by_slug(leagues, slug) {
        Some(j) => Some(leagues[j].id as i64),
        None => None,
    }
}

fn find_team_id_by_name(teams: &Vec<Team>, name: &String) -> (r: Option<i64>)
    ensures
        r == team_id_by_name(teams@, name@),
{
    let mut i: usize = 0;
    while i < teams.len()
        invariant
            i <= teams.len(),
            forall|k: int| 0 <= k < i ==> !team_name_is(name@)(#[trigger] teams@[k]),
        decreases teams.len() - i,
    {
        if teams[i].name == *name {
            proof {
                lemma_first_index_found(teams@, team_name_is(name@), i as int);
            }
            return Some(teams[i].id as i64);
        }
        i = i + 1;
    }
    proof {
        lemma_first_index_absent(teams@, team_name_is(name@));
    }
    None
}

fn wins_of(t: &TeamEvent) -> (r: Option<i64>)
    ensures
        r == side_wins(*t),
{
    match &t.result {
        Some(res) => Some(res.game_wins as i64),
        None => None,
    }
}

fn same_opt_i64(a: Option<i64>, b: Option<i64>) -> (r: bool)
    ensures
        r == (a == b),
{
    match (a, b) {
        (Some(x), Some(y)) => x == y,
        (None, None) => true,
        _ => false,
    }
}

fn same_opt_time(a: Option<LolesportsDateTime>, b: Option<LolesportsDateTime>) -> (r: bool)
    ensures
        r == (a == b),
{
    match (a, b) {
        (Some(x), Some(y)) => x.0 == y.0,
        (None, None) => true,
        _ => false,
    }
}

fn completed_string() -> (r: String)
    ensures
        r@ == completed_state(),
{
    "completed".to_owned()
}

/// The row for an event of the schedule, with the stored state.
fn row_for_event(e: &serde_models::Event, leagues: &Vec<League>, teams: &Vec<Team>) -> (r: Schedule)
    requires
        sides_complete(*e),
    ensures
        row_with_state(r, event_row_in(*e, leagues@, teams@), stored_state(event_row_in(*e, leagues@, teams@))),
{
    let mut row = Schedule::from_event(e);
    row.league_id = find_league_id_by_slug(leagues, &e.league.slug);
    match &e.event_match {
        Some(m) => {
            if m.teams.len() > 0 {
                let team_1 = &m.teams[0];
                let team_2 = &m.teams[1];
                row.team_left_id = find_team_id_by_name(teams, &team_1.name);
                row.team_left_wins = wins_of(team_1);
                row.team_right_id = find_team_id_by_name(teams, &team_2.name);
                row.team_right_wins = wins_of(team_2);
            }
        },
        None => {},
    }
    let ghost expected = row;
    assert(expected == event_row_in(*e, leagues@, teams@));
    match (row.strategy_count, row.team_right_wins, row.team_left_wins) {
        (Some(c), Some(rw), Some(lw)) => {
            let completed = completed_string();
            if c as i128 == rw as i128 + lw as i128 && !(row.state == completed) {
                row.state = completed;
            }
        },
        _ => {},
    }
    row
}

fn find_stored_event(fetched: &Schedule, stored: &Vec<Schedule>) -> (r: Option<usize>)
    ensures
        r matches Some(j) ==> first_index(stored@, same_stored_event(*fetched)) == Some(j as int),
        r is None ==> first_index(stored@, same_stored_event(*fetched)) is None,
{
    let mut i: usize = 0;
    while i < stored.len()
        invariant
            i <= stored.len(),
            forall|k: int| 0 <= k < i ==> !same_stored_event(*fetched)(#[trigger] stored@[k]),
        decreases stored.len() - i,
    {
        let s = &stored[i];
        let hit = (fetched.match_id.is_some() && same_opt_i64(fetched.match_id, s.match_id)) || (
        fetched.match_id.is_none() && same_opt_time(fetched.start_time, s.start_time)
            && same_opt_i64(fetched.league_id, s.league_id));
        if hit {
            proof {
                lemma_first_index_found(stored@, same_stored_event(*fetched), i as int);
            }
            return Some(i);
        }
        i = i + 1;
    }
    proof {
        lemma_first_index_absent(stored@, same_stored_event(*fetched));
    }
    None
}

/// The key of a stored event by which live matches are found: its match id,
/// or 0 when it has none.
pub open spec fn stored_match_key(s: Schedule) -> i64 {
    match s.match_id {
        Some(m) => m,
        None => 0,
    }
}

/// The row planned for an event of the schedule is marked completed exactly
/// when the event is a match that names its teams, both of whose first two
/// teams report a result, and whose game count is the sum of those two
/// teams' wins; otherwise it keeps the event's own state.
pub proof fn lemma_completed_only_when_all_games_reported(
    e: serde_models::Event,
    leagues: Seq<League>,
    teams: Seq<Team>,
)
    requires
        sides_complete(e),
    ensures
        stored_state(event_row_in(e, leagues, teams)) == (if e.event_match is Some && e.event_match->0.teams@.len() > 0
            && e.event_match->0.teams@[0].result is Some
            && e.event_match->0.teams@[1].result is Some
            && e.event_match->0.strategy.count == e.event_match->0.teams@[0].result->0.game_wins
            + e.event_match->0.teams@[1].result->0.game_wins {
            "completed"@
        } else {
            e.state@
        }),
{
}

/// Whether a stored event is the one that live details `e` update, stated
/// from the stored event's fields: for a match, its match id (0 when it has
/// none) is the live event's id; for a show, it has the same type, the same
/// league (its league id and the id of the first stored league with the
/// show's slug are both known and equal, or both unknown), and a start less
/// than twenty-one minutes away from the show's.
pub open spec fn updated_by(e: EventDetails, leagues: Seq<League>, s: Schedule) -> bool {
    match e.event_match {
        Some(_) => (match s.match_id {
            Some(x) => x,
            None => 0,
        }) == e.id.0,
        None => {
            &&& s.event_type@ == e.event_type@
            &&& match (s.league_id, first_index(leagues, |l: League| l.slug@ == e.league.slug@)) {
                (Some(a), Some(i)) => a == leagues[i].id as i64,
                (None, None) => true,
                _ => false,
            }
            &&& match (s.start_time, e.start_time) {
                (Some(x), Some(y)) => -1_260_000 < y.0 - x.0 < 1_260_000,
                _ => false,
            }
        },
    }
}

/// Live details update the first stored event that they are about, as
/// [`updated_by`] says from its fields, and no stored event when none is;
/// in particular a live show never updates a stored event of another type.
pub proof fn lemma_stored_target_is_first_updated(
    e: EventDetails,
    leagues: Seq<League>,
    stored: Seq<Schedule>,
)
    ensures
        stored_target(e, leagues, stored) matches Some(j) ==> {
            &&& 0 <= j < stored.len()
            &&& updated_by(e, leagues, stored[j])
            &&& forall|k: int| 0 <= k < j ==> !updated_by(e, leagues, #[trigger] stored[k])
        },
        stored_target(e, leagues, stored) is None ==> forall|k: int|
            0 <= k < stored.len() ==> !updated_by(e, leagues, #[trigger] stored[k]),
{
    let q = |s: Schedule| updated_by(e, leagues, s);
    let p = match e.event_match {
        Some(_) => is_stored_match(e.id),
        None => is_stored_show(e, league_by_slug(leagues, e.league.slug@)),
    };
    assert(league_slug_is(e.league.slug@) =~= |l: League| l.slug@ == e.league.slug@);
    assert forall|s: Schedule| #[trigger] p(s) == q(s) by {
        if e.event_match is None {
            match (s.start_time, e.start_time) {
                (Some(x), Some(y)) => {
                    let d = y.0 - x.0;
                    assert(whole_minutes_apart(y.0, x.0) <= 20 <==> -1_260_000 < d < 1_260_000);
                },
                _ => {},
            }
        }
    }
    assert(p =~= q);
    match first_index(stored, p) {
        Some(j) => {
            crate::seqs::lemma_first_index_some(stored, p);
        },
        None => {
            assert forall|k: int| 0 <= k < stored.len() implies !updated_by(e, leagues, #[trigger] stored[k]) by {
                if updated_by(e, leagues, stored[k]) {
                    assert(p(stored[k]));
                    crate::seqs::lemma_first_index_exists(stored, p, k);
                }
            }
        },
    }
}

/// The stored league of a slug, its row id, and the row id of a team's name
/// are those of the first stored league with that slug and of the first
/// stored team with that name; none when there is none.
pub proof fn lemma_lookups_by_slug_and_name(
    leagues: Seq<League>,
    teams: Seq<Team>,
    key: Seq<char>,
)
    ensures
        league_by_slug(leagues, key) == match first_index(leagues, |l: League| l.slug@ == key) {
            Some(j) => Some(leagues[j]),
            None => None,
        },
        league_id_by_slug(leagues, key) == match first_index(leagues, |l: League| l.slug@ == key) {
            Some(j) => Some(leagues[j].id as i64),
            None => None,
        },
        team_id_by_name(teams, key) == match first_index(teams, |t: Team| t.name@ == key) {
            Some(j) => Some(teams[j].id as i64),
            None => None,
        },
{
    assert(league_slug_is(key) =~= |l: League| l.slug@ == key);
    assert(team_name_is(key) =~= |t: Team| t.name@ == key);
}

/// The row of an event of the schedule, before its state is settled: not
/// yet stored (id 0), with the event's start, state, type and block name; the
/// id of the first stored league with the event league's slug; for a match,
/// its id, strategy and game count; and, for a match that names its teams,
/// the first stored team with the name of its first team on the left and of
/// its second team on the right, with the wins that each reports.
pub proof fn lemma_event_row_fields(e: serde_models::Event, leagues: Seq<League>, teams: Seq<Team>)
    requires
        sides_complete(e),
    ensures
        ({
            let r = event_row_in(e, leagues, teams);
            let team_id = |name: Seq<char>|
                match first_index(teams, |t: Team| t.name@ == name) {
                    Some(j) => Some(teams[j].id as i64),
                    None => None,
                };
            let wins = |t: TeamEvent|
                match t.result {
                    Some(x) => Some(x.game_wins as i64),
                    None => None,
                };
            &&& r.id == 0 && r.start_time == Some(e.start_time) && r.state == e.state
                && r.event_type == e.event_type && r.blockname == e.block_name
            &&& r.league_id == match first_index(leagues, |l: League| l.slug@ == e.league.slug@) {
                Some(j) => Some(leagues[j].id as i64),
                None => None,
            }
            &&& match e.event_match {
                Some(m) => {
                    &&& r.match_id == Some(m.id.0)
                    &&& r.strategy == Some(m.strategy.strategy_type)
                    &&& r.strategy_count == Some(m.strategy.count as i64)
                    &&& if m.teams@.len() > 0 {
                        &&& r.team_left_id == team_id(m.teams@[0].name@)
                        &&& r.team_left_wins == wins(m.teams@[0])
                        &&& r.team_right_id == team_id(m.teams@[1].name@)
                        &&& r.team_right_wins == wins(m.teams@[1])
                    } else {
                        r.team_left_id is None && r.team_left_wins is None && r.team_right_id is None
                            && r.team_right_wins is None
                    }
                },
                None => r.match_id is None && r.strategy is None && r.strategy_count is None
                    && r.team_left_id is None && r.team_left_wins is None && r.team_right_id is None
                    && r.team_right_wins is None,
            }
        }),
{
    assert(league_slug_is(e.league.slug@) =~= |l: League| l.slug@ == e.league.slug@);
    match e.event_match {
        Some(m) => {
            if m.teams@.len() > 0 {
                assert(team_name_is(m.teams@[0].name@) =~= |t: Team| t.name@ == m.teams@[0].name@);
                assert(team_name_is(m.teams@[1].name@) =~= |t: Team| t.name@ == m.teams@[1].name@);
            }
        },
        None => {},
    }
}

/// The plan for an event of the schedule holds its row with the settled
/// state, and differs from that row at most in its id: when a stored event is
/// the same event (the same match id for a match; the same start and league
/// for an event without a match), the first such stored event is updated
/// under its row id; otherwise the row is inserted with id 0.
pub proof fn lemma_event_plan(
    u: Upsert<Schedule>,
    e: serde_models::Event,
    leagues: Seq<League>,
    teams: Seq<Team>,
    stored: Seq<Schedule>,
)
    requires
        is_event_plan(u, e, leagues, teams, stored),
    ensures
        ({
            let expected = event_row_in(e, leagues, teams);
            let row = match u {
                Upsert::Update(r) => r,
                Upsert::Insert(r) => r,
            };
            &&& row.state@ == stored_state(expected)
            &&& row == Schedule { id: row.id, state: row.state, ..expected }
            &&& match first_index(
                stored,
                |s: Schedule|
                    (expected.match_id is Some && expected.match_id == s.match_id) || (
                    expected.match_id is None && expected.start_time == s.start_time
                        && expected.league_id == s.league_id),
            ) {
                Some(j) => u is Update && row.id == stored[j].id,
                None => u is Insert && row.id == 0,
            }
        }),
{
    let expected = event_row_in(e, leagues, teams);
    assert(same_stored_event(expected) =~= |s: Schedule|
        (expected.match_id is Some && expected.match_id == s.match_id) || (expected.match_id is None
            && expected.start_time == s.start_time && expected.league_id == s.league_id));
}

/// The row of a stream planned for the stored event `event_id` is not yet
/// stored (id 0), belongs to that event, and holds the stream's provider,
/// parameter, locale and English name; a fetched stream is planned exactly
/// when no stored stream of that event has the same English name, locale,
/// parameter and provider.
pub proof fn lemma_stream_plan(s: serde_models::Stream, event_id: i32, stored: Seq<Stream>)
    ensures
        stream_row_of(s, event_id) == (Stream {
            id: 0,
            event_id: event_id,
            provider: s.provider,
            parameter: s.parameter,
            locale: s.media_locale.locale,
            english_name: s.media_locale.english_name,
        }),
        is_new_stream(event_id, stored)(s) <==> (forall|k: int|
            0 <= k < stored.len() ==> !(#[trigger] stored[k].event_id == event_id
                && stored[k].english_name@ == s.media_locale.english_name@ && stored[k].locale@
                == s.media_locale.locale@ && stored[k].parameter@ == s.parameter@
                && stored[k].provider@ == s.provider@)),
{
    let p = is_stored_stream(s, event_id);
    if first_index(stored, p) is Some {
        crate::seqs::lemma_first_index_some(stored, p);
    }
    if !is_new_stream(event_id, stored)(s) {
        crate::seqs::lemma_first_index_some(stored, p);
        let j = first_index(stored, p)->0;
        assert(p(stored[j]));
    } else {
        assert forall|k: int| 0 <= k < stored.len() implies !p(#[trigger] stored[k]) by {
            if p(stored[k]) {
                crate::seqs::lemma_first_index_exists(stored, p, k);
            }
        }
    }
}

/// Whether a stored event is the live match with the given id.
pub open spec fn is_stored_match(id: LolesportsId) -> spec_fn(Schedule) -> bool {
    |s: Schedule| stored_match_key(s) == id.0
}

/// The distance between two instants in whole minutes.
pub open spec fn whole_minutes_apart(a: i64, b: i64) -> int {
    let d = a - b;
    (if d < 0 {
        -d
    } else {
        d
    }) / 60000
}

/// Whether a stored start and a live start are both known and at most twenty
/// whole minutes apart.
pub open spec fn starts_near(stored: Option<LolesportsDateTime>, live: Option<LolesportsDateTime>) -> bool {
    match (stored, live) {
        (Some(s), Some(l)) => whole_minutes_apart(l.0, s.0) <= 20,
        _ => false,
    }
}

/// Whether a stored league id agrees with the stored league of a live event:
/// both are known and the same, or both are unknown.
pub open spec fn same_league(stored: Option<i64>, league: Option<League>) -> bool {
    match (stored, league) {
        (Some(a), Some(l)) => a == l.id as i64,
        (None, None) => true,
        _ => false,
    }
}

/// Whether a stored event is the live show `e`, whose league is `league`: the
/// same type, the same league, and a start at most twenty minutes away.
pub open spec fn is_stored_show(e: EventDetails, league: Option<League>) -> spec_fn(Schedule) -> bool {
    |s: Schedule|
        s.event_type@ == e.event_type@ && same_league(s.league_id, league) && starts_near(
            s.start_time,
            e.start_time,
        )
}

/// The position of the stored event that the live event `e` updates: for a
/// match, the first stored event with its id as match id; for a show, the
/// first stored event that [`is_stored_show`] finds.
pub open spec fn stored_target(e: EventDetails, leagues: Seq<League>, stored: Seq<Schedule>) -> Option<int> {
    match e.event_match {
        Some(_) => first_index(stored, is_stored_match(e.id)),
        None => first_index(stored, is_stored_show(e, league_by_slug(leagues, e.league.slug@))),
    }
}

/// What is done with live event details.
#[derive(Debug, Clone, PartialEq)]
pub enum DetailsTarget {
    /// The stored event at this position was updated with the details.
    Merged(usize),
    /// The details are a new event, with this row.
    Insert(Schedule),
}

fn starts_near_exec(stored: Option<LolesportsDateTime>, live: Option<LolesportsDateTime>) -> (r: bool)
    ensures
        r == starts_near(stored, live),
{
    match (stored, live) {
        (Some(s), Some(l)) => {
            let d: i128 = l.0 as i128 - s.0 as i128;
            let magnitude: i128 = if d < 0 {
                0 - d
            } else {
                d
            };
            magnitude / 60000 <= 20
        },
        _ => false,
    }
}

fn find_stored_target(e: &EventDetails, leagues: &Vec<League>, stored: &Vec<Schedule>) -> (r: Option<usize>)
    ensures
        r matches Some(j) ==> stored_target(*e, leagues@, stored@) == Some(j as int),
        r is None ==> stored_target(*e, leagues@, stored@) is None,
{
    let ghost p = match e.event_match {
        Some(_) => is_stored_match(e.id),
        None => is_stored_show(*e, league_by_slug(leagues@, e.league.slug@)),
    };
    let league = find_league_by_slug(leagues, &e.league.slug);
    let ghost league_row = league_by_slug(leagues@, e.league.slug@);
    assert(league matches Some(j) ==> league_row == Some(leagues@[j as int]));
    assert(league is None ==> league_row is None);
    let mut i: usize = 0;
    while i < stored.len()
        invariant
            i <= stored.len(),
            p == (match e.event_match {
                Some(_) => is_stored_match(e.id),
                None => is_stored_show(*e, league_row),
            }),
            league_row == league_by_slug(leagues@, e.league.slug@),
            league matches Some(j) ==> j < leagues@.len() && league_row == Some(leagues@[j as int]),
            league is None ==> league_row is None,
            forall|k: int| 0 <= k < i ==> !p(#[trigger] stored@[k]),
        decreases stored.len() - i,
    {
        let s = &stored[i];
        let hit = match &e.event_match {
            Some(_) => {
                let key = match s.match_id {
                    Some(m) => m,
                    None => 0,
                };
                key == e.id.0
            },
            None => {
                let league_agrees = match (s.league_id, league) {
                    (Some(a), Some(j)) => a == leagues[j].id as i64,
                    (None, None) => true,
                    _ => false,
                };
                s.event_type == e.event_type && league_agrees && starts_near_exec(s.start_time, e.start_time)
            },
        };
        if hit {
            proof {
                lemma_first_index_found(stored@, p, i as int);
            }
            return Some(i);
        }
        i = i + 1;
    }
    proof {
        lemma_first_index_absent(stored@, p);
    }
    None
}

/// Whether a stored stream is the fetched stream `s` of the event `event_id`.
pub open spec fn is_stored_stream(s: serde_models::Stream, event_id: i32) -> spec_fn(Stream) -> bool {
    |k: Stream|
        k.event_id == event_id && k.english_name@ == s.media_locale.english_name@ && k.locale@
            == s.media_locale.locale@ && k.parameter@ == s.parameter@ && k.provider@ == s.provider@
}

/// Whether a fetched stream of the event `event_id` is not stored yet.
pub open spec fn is_new_stream(event_id: i32, stored: Seq<Stream>) -> spec_fn(serde_models::Stream) -> bool {
    |s: serde_models::Stream| first_index(stored, is_stored_stream(s, event_id)) is None
}

/// The row for a fetched stream of the event `event_id`.
pub open spec fn stream_row_of(s: serde_models::Stream, event_id: i32) -> Stream {
    Stream { event_id: event_id, ..stream_row(s) }
}

/// Every stream row planned for the event `event_id` is attached to that
/// event and comes from a fetched stream that no stored stream of the event
/// already is.
pub proof fn lemma_planned_streams_are_new(
    streams: Seq<serde_models::Stream>,
    event_id: i32,
    stored: Seq<Stream>,
)
    ensures
        forall|i: int|
            0 <= i < streams.filter(is_new_stream(event_id, stored)).len() ==> {
                let s = #[trigger] streams.filter(is_new_stream(event_id, stored))[i];
                &&& first_index(stored, is_stored_stream(s, event_id)) is None
                &&& stream_row_of(s, event_id).event_id == event_id
            },
{
    let kept = streams.filter(is_new_stream(event_id, stored));
    assert forall|i: int| 0 <= i < kept.len() implies first_index(
        stored,
        is_stored_stream(#[trigger] kept[i], event_id),
    ) is None by {
        streams.lemma_filter_pred(is_new_stream(event_id, stored), i);
    }
}

fn stream_is_stored(s: &serde_models::Stream, event_id: i32, stored: &Vec<Stream>) -> (r: bool)
    ensures
        r == (first_index(stored@, is_stored_stream(*s, event_id)) is Some),
{
    let mut i: usize = 0;
    while i < stored.len()
        invariant
            i <= stored.len(),
            forall|k: int| 0 <= k < i ==> !is_stored_stream(*s, event_id)(#[trigger] stored@[k]),
        decreases stored.len() - i,
    {
        let k = &stored[i];
        if k.event_id == event_id && k.english_name == s.media_locale.english_name && k.locale
            == s.media_locale.locale && k.parameter == s.parameter && k.provider == s.provider {
            proof {
                lemma_first_index_found(stored@, is_stored_stream(*s, event_id), i as int);
            }
            return true;
        }
        i = i + 1;
    }
    proof {
        lemma_first_index_absent(stored@, is_stored_stream(*s, event_id));
    }
    false
}

impl DatabaseOps {
    /// Whether every event of the schedule can be stored: no match names a
    /// single team.
    pub fn schedule_sides_complete(events: &Vec<serde_models::Event>) -> (r: bool)
        ensures
            r == forall|i: int| 0 <= i < events@.len() ==> #[trigger] sides_complete(events@[i]),
    {
        let mut i: usize = 0;
        while i < events.len()
            invariant
                i <= events@.len(),
                forall|q: int| 0 <= q < i ==> #[trigger] sides_complete(events@[q]),
            decreases events@.len() - i,
        {
            let complete = match &events[i].event_match {
                Some(m) => m.teams.len() == 0 || m.teams.len() >= 2,
                None => true,
            };
            if !complete {
                assert(!sides_complete(events@[i as int]));
                return false;
            }
            i = i + 1;
        }
        true
    }

    /// For each event of the schedule, in order: its row, as
    /// [`is_event_plan`] says, updating the stored event that is the same
    /// event or inserted.
    pub fn plan_schedule(
        events: &Vec<serde_models::Event>,
        leagues: &Vec<League>,
        teams: &Vec<Team>,
        stored: &Vec<Schedule>,
    ) -> (r: Vec<Upsert<Schedule>>)
        requires
            forall|i: int| 0 <= i < events@.len() ==> #[trigger] sides_complete(events@[i]),
        ensures
            r@.len() == events@.len(),
            forall|i: int|
                0 <= i < events@.len() ==> #[trigger] is_event_plan(
                    r@[i],
                    events@[i],
                    leagues@,
                    teams@,
                    stored@,
                ),
    {
        let mut out: Vec<Upsert<Schedule>> = Vec::new();
        let mut i: usize = 0;
        while i < events.len()
            invariant
                i <= events@.len(),
                forall|q: int| 0 <= q < events@.len() ==> #[trigger] sides_complete(events@[q]),
                out@.len() == i,
                forall|q: int|
                    0 <= q < i ==> #[trigger] is_event_plan(out@[q], events@[q], leagues@, teams@, stored@),
            decreases events@.len() - i,
        {
            assert(sides_complete(events@[i as int]));
            let row = row_for_event(&events[i], leagues, teams);
            let ghost expected = event_row_in(events@[i as int], leagues@, teams@);
            assert(same_stored_event(row) == same_stored_event(expected));
            let plan = match find_stored_event(&row, stored) {
                Some(j) => {
                    let mut row = row;
                    row.id = stored[j].id;
                    Upsert::Update(row)
                },
                None => Upsert::Insert(row),
            };
            out.push(plan);
            assert(is_event_plan(out@[i as int], events@[i as int], leagues@, teams@, stored@));
            i = i + 1;
        }
        out
    }

    /// Stores live event details among the stored events: the stored event
    /// that [`stored_target`] finds is merged with the details, in place;
    /// when there is none, the row of the details, with the league of its
    /// slug, is to be inserted and the stored events are unchanged.
    pub fn apply_event_details(
        event: &EventDetails,
        leagues: &Vec<League>,
        stored: &mut Vec<Schedule>,
    ) -> (r: DetailsTarget)
        ensures
            match stored_target(*event, leagues@, old(stored)@) {
                Some(j) => {
                    &&& r == DetailsTarget::Merged(j as usize)
                    &&& final(stored)@ == old(stored)@.update(j, merged_row(old(stored)@[j], *event))
                },
                None => {
                    &&& final(stored)@ == old(stored)@
                    &&& r matches DetailsTarget::Insert(row)
                    &&& row.league_id == league_id_by_slug(leagues@, event.league.slug@)
                    &&& is_details_row(Schedule { league_id: None, ..row }, *event)
                },
            },
    {
        match find_stored_target(event, leagues, stored) {
            Some(j) => {
                let mut row = stored.remove(j);
                row.merge_with_event_details(event);
                stored.insert(j, row);
                assert(stored@ =~= old(stored)@.update(j as int, merged_row(old(stored)@[j as int], *event)));
                DetailsTarget::Merged(j)
            },
            None => {
                let mut row = Schedule::from_event_details(event);
                row.league_id = find_league_id_by_slug(leagues, &event.league.slug);
                DetailsTarget::Insert(row)
            },
        }
    }

    /// The rows of the streams of live event details that are not stored yet
    /// for the stored event `event_id`, in order, attached to that event.
    pub fn streams_to_insert(event: &EventDetails, event_id: i32, stored: &Vec<Stream>) -> (r: Vec<
        Stream,
    >)
        ensures
            r@ == event.streams@.filter(is_new_stream(event_id, stored@)).map_values(
                |s: serde_models::Stream| stream_row_of(s, event_id),
            ),
    {
        let ghost src = event.streams@;
        let ghost keep = is_new_stream(event_id, stored@);
        let mut out: Vec<Stream> = Vec::new();
        let mut i: usize = 0;
        while i < event.streams.len()
            invariant
                i <= src.len(),
                src == event.streams@,
                keep == is_new_stream(event_id, stored@),
                out@ == src.take(i as int).filter(keep).map_values(
                    |s: serde_models::Stream| stream_row_of(s, event_id),
                ),
            decreases src.len() - i,
        {
            let ghost before = out@;
            proof {
                lemma_take_succ(src, i as int);
                lemma_filter_push(src.take(i as int), keep, src[i as int]);
            }
            let s = &event.streams[i];
            if !stream_is_stored(s, event_id, stored) {
                let mut row = Stream::from_serde(s);
                row.event_id = event_id;
                out.push(row);
                assert(out@ =~= before.push(stream_row_of(src[i as int], event_id)));
            }
            i = i + 1;
        }
        assert(src.take(src.len() as int) =~= src);
        out
    }
}

} // verus!
