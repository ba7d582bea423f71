//! Rows known by the API id of what they hold, and the plan that stores a
//! fetched row: an update of the stored row with the same API id, if there is
//! one, or else an insert.
use vstd::prelude::*;
use itertools::Itertools;
use crate::seqs::{first_index, lemma_first_index_absent, lemma_first_index_exists, lemma_first_index_found, lemma_first_index_some, lemma_take_succ};
use crate::data_pull::serde_models;
use super::DatabaseOps;
use super::models::leagues::{League, league_row};
use super::models::players::{Player, player_row};
use super::models::teams::{Team, team_row};
use super::models::tournaments::{Tournament, tournament_row};

verus! {

/// A row that carries the API id of what it holds.
pub trait KeyedRow: Sized {
    /// The API id of what the row holds.
    spec fn key(&self) -> i64;

    /// The row id in the database.
    spec fn row_id(&self) -> i32;

    /// The row with another row id.
    spec fn with_row_id(self, id: i32) -> Self;

    fn ext_key(&self) -> (r: i64)
        ensures
            r == self.key(),
    ;

    fn stored_id(&self) -> (r: i32)
        ensures
            r == self.row_id(),
    ;

    fn set_stored_id(self, id: i32) -> (r: Self)
        ensures
            r == self.with_row_id(id),
    ;
}

impl KeyedRow for League {
    open spec fn key(&self) -> i64 {
        self.ext_id
    }

    open spec fn row_id(&self) -> i32 {
        self.id
    }

    open spec fn with_row_id(self, id: i32) -> Self {
        League { id: id, ..self }
    }

    fn ext_key(&self) -> (r: i64) {
        self.ext_id
    }

    fn stored_id(&self) -> (r: i32) {
        self.id
    }

    fn set_stored_id(self, id: i32) -> (r: Self) {
        let mut r = self;
        r.id = id;
        r
    }
}

impl KeyedRow for Tournament {
    open spec fn key(&self) -> i64 {
        self.ext_id
    }

    open spec fn row_id(&self) -> i32 {
        self.id
    }

    open spec fn with_row_id(self, id: i32) -> Self {
        Tournament { id: id, ..self }
    }

    fn ext_key(&self) -> (r: i64) {
        self.ext_id
    }

    fn stored_id(&self) -> (r: i32) {
        self.id
    }

    fn set_stored_id(self, id: i32) -> (r: Self) {
        let mut r = self;
        r.id = id;
        r
    }
}

impl KeyedRow for Team {
    open spec fn key(&self) -> i64 {
        self.ext_id
    }

    open spec fn row_id(&self) -> i32 {
        self.id
    }

    open spec fn with_row_id(self, id: i32) -> Self {
        Team { id: id, ..self }
    }

    fn ext_key(&self) -> (r: i64) {
        self.ext_id
    }

    fn stored_id(&self) -> (r: i32) {
        self.id
    }

    fn set_stored_id(self, id: i32) -> (r: Self) {
        let mut r = self;
        r.id = id;
        r
    }
}

impl KeyedRow for Player {
    open spec fn key(&self) -> i64 {
        self.ext_id
    }

    open spec fn row_id(&self) -> i32 {
        self.id
    }

    open spec fn with_row_id(self, id: i32) -> Self {
        Player { id: id, ..self }
    }

    fn ext_key(&self) -> (r: i64) {
        self.ext_id
    }

    fn stored_id(&self) -> (r: i32) {
        self.id
    }

    fn set_stored_id(self, id: i32) -> (r: Self) {
        let mut r = self;
        r.id = id;
        r
    }
}

/// What is done with a row when fetched data is stored.
#[derive(Debug, Clone, PartialEq)]
pub enum Upsert<T> {
    /// The row replaces the stored row with the same id.
    Update(T),
    /// The row is new.
    Insert(T),
}

/// Whether a row holds what has the API id `key`.
pub open spec fn has_key<T: KeyedRow>(key: i64) -> spec_fn(T) -> bool {
    |r: T| r.key() == key
}

/// The plan for a fetched row: when a stored row has the same API id, the
/// fetched row takes the row id of the first such stored row and updates it;
/// otherwise it is inserted.
pub open spec fn upsert_of<T: KeyedRow>(row: T, stored: Seq<T>) -> Upsert<T> {
    match first_index(stored, has_key::<T>(row.key())) {
        Some(j) => Upsert::Update(row.with_row_id(stored[j].row_id())),
        None => Upsert::Insert(row),
    }
}

/// A fetched row is updated exactly when a stored row has its API id; it then
/// takes the row id of a stored row with that API id, and is otherwise kept as
/// it was fetched; a row that is inserted is kept as it was fetched.
pub proof fn lemma_upsert_of<T: KeyedRow>(row: T, stored: Seq<T>)
    ensures
        upsert_of(row, stored) is Update <==> exists|k: int|
            0 <= k < stored.len() && #[trigger] stored[k].key() == row.key(),
        upsert_of(row, stored) matches Upsert::Update(u) ==> exists|k: int|
            0 <= k < stored.len() && #[trigger] stored[k].key() == row.key() && u
                == row.with_row_id(stored[k].row_id()),
        upsert_of(row, stored) matches Upsert::Insert(u) ==> u == row,
{
    let p = has_key::<T>(row.key());
    if exists|k: int| 0 <= k < stored.len() && #[trigger] stored[k].key() == row.key() {
        let k = choose|k: int| 0 <= k < stored.len() && #[trigger] stored[k].key() == row.key();
        assert(p(stored[k]));
        lemma_first_index_exists(stored, p, k);
        lemma_first_index_some(stored, p);
    } else {
        assert forall|k: int| 0 <= k < stored.len() implies !p(#[trigger] stored[k]) by {}
        lemma_first_index_absent(stored, p);
    }
}

/// The position of the first row of `rows` with the API id `key`.
pub fn position_by_key<T: KeyedRow>(rows: &Vec<T>, key: i64) -> (r: Option<usize>)
    ensures
        r matches Some(j) ==> first_index(rows@, has_key::<T>(key)) == Some(j as int),
        r is None ==> first_index(rows@, has_key::<T>(key)) is None,
{
    let mut i: usize = 0;
    while i < rows.len()
        invariant
            i <= rows.len(),
            forall|k: int| 0 <= k < i ==> !has_key::<T>(key)(#[trigger] rows@[k]),
        decreases rows.len() - i,
    {
        if rows[i].ext_key() == key {
            proof {
                lemma_first_index_found(rows@, has_key::<T>(key), i as int);
            }
            return Some(i);
        }
        i = i + 1;
    }
    proof {
        lemma_first_index_absent(rows@, has_key::<T>(key));
    }
    None
}

/// The plan for one fetched row.
pub fn upsert<T: KeyedRow>(row: T, stored: &Vec<T>) -> (r: Upsert<T>)
    ensures
        r == upsert_of(row, stored@),
{
    match position_by_key(stored, row.ext_key()) {
        Some(j) => {
            let id = stored[j].stored_id();
            Upsert::Update(row.set_stored_id(id))
        },
        None => Upsert::Insert(row),
    }
}

/// The rows, keeping only the first row for each API id, in their order.
pub open spec fn first_of_each_key(rows: Seq<Player>) -> Seq<Player>
    decreases rows.len(),
{
    if rows.len() == 0 {
        Seq::empty()
    } else {
        let before = rows.drop_last();
        if exists|k: int| 0 <= k < before.len() && #[trigger] before[k].ext_id == rows.last().ext_id {
            first_of_each_key(before)
        } else {
            first_of_each_key(before).push(rows.last())
        }
    }
}

/// Keeping the first row of each API id leaves no two rows with the same API
/// id, keeps a row for every API id of the input, and keeps only input rows.
pub proof fn lemma_first_of_each_key(rows: Seq<Player>)
    ensures
        forall|i: int, j: int|
            0 <= i < j < first_of_each_key(rows).len() ==> #[trigger] first_of_each_key(rows)[i].ext_id
                != #[trigger] first_of_each_key(rows)[j].ext_id,
        forall|k: int|
            0 <= k < rows.len() ==> exists|i: int|
                0 <= i < first_of_each_key(rows).len() && #[trigger] first_of_each_key(rows)[i].ext_id
                    == #[trigger] rows[k].ext_id,
        forall|i: int|
            0 <= i < first_of_each_key(rows).len() ==> rows.contains(
                #[trigger] first_of_each_key(rows)[i],
            ),
    decreases rows.len(),
{
    if rows.len() > 0 {
        let before = rows.drop_last();
        let kept = first_of_each_key(before);
        let out = first_of_each_key(rows);
        lemma_first_of_each_key(before);
        let last = rows.last();
        assert forall|i: int| 0 <= i < kept.len() implies rows.contains(#[trigger] kept[i]) by {
            assert(before.contains(kept[i]));
            let m = choose|m: int| 0 <= m < before.len() && before[m] == kept[i];
            assert(rows[m] == kept[i]);
        }
        if exists|k: int| 0 <= k < before.len() && #[trigger] before[k].ext_id == last.ext_id {
            assert(out == kept);
            assert forall|k: int| 0 <= k < rows.len() implies exists|i: int|
                0 <= i < out.len() && #[trigger] out[i].ext_id == #[trigger] rows[k].ext_id by {
                if k < before.len() {
                    assert(rows[k] == before[k]);
                } else {
                    let m = choose|m: int| 0 <= m < before.len() && #[trigger] before[m].ext_id == last.ext_id;
                    assert(before[m].ext_id == rows[k].ext_id);
                }
            }
        } else {
            assert(out == kept.push(last));
            assert forall|i: int| 0 <= i < kept.len() implies #[trigger] kept[i].ext_id != last.ext_id by {
                let m = choose|m: int| 0 <= m < before.len() && before[m] == kept[i];
                assert(before[m].ext_id == kept[i].ext_id);
            }
            assert forall|i: int, j: int| 0 <= i < j < out.len() implies #[trigger] out[i].ext_id
                != #[trigger] out[j].ext_id by {
                if j < kept.len() {
                    assert(out[i] == kept[i] && out[j] == kept[j]);
                } else {
                    assert(out[i] == kept[i]);
                    assert(kept[i].ext_id != last.ext_id);
                }
            }
            assert forall|k: int| 0 <= k < rows.len() implies exists|i: int|
                0 <= i < out.len() && #[trigger] out[i].ext_id == #[trigger] rows[k].ext_id by {
                if k < before.len() {
                    assert(rows[k] == before[k]);
                    let i = choose|i: int| 0 <= i < kept.len() && #[trigger] kept[i].ext_id == before[k].ext_id;
                    assert(out[i] == kept[i]);
                } else {
                    assert(out[kept.len() as int] == last);
                }
            }
            assert forall|i: int| 0 <= i < out.len() implies rows.contains(#[trigger] out[i]) by {
                if i < kept.len() {
                    assert(out[i] == kept[i]);
                } else {
                    assert(rows[rows.len() - 1] == out[i]);
                }
            }
        }
    }
}

/// Drops each player row whose API id an earlier row already has, with
/// `Itertools::unique_by` keyed by the API id. Its documentation promises that
/// the adaptor is stable and keeps the first item of each set of items with
/// equal keys; the contract states exactly that.
#[verifier::external_body]
fn unique_by_ext_id(rows: Vec<Player>) -> (r: Vec<Player>)
    ensures
        r@ == first_of_each_key(rows@),
{
    rows.into_iter().unique_by(|p| p.ext_id).collect()
}

/// The row id of the first stored league with the API id `ext_id`, if any.
pub open spec fn league_row_id(stored: Seq<League>, ext_id: i64) -> Option<i32> {
    match first_index(stored, has_key::<League>(ext_id)) {
        Some(j) => Some(stored[j].id),
        None => None,
    }
}

/// The row for a fetched tournament, attached to the stored league of the
/// tournament's league, or to no league (0).
pub open spec fn tournament_row_in(t: serde_models::Tournament, leagues: Seq<League>) -> Tournament {
    Tournament {
        league: match league_row_id(leagues, t.league_id.0) {
            Some(id) => id,
            None => 0,
        },
        ..tournament_row(t)
    }
}

/// The row for a fetched team, whose home league is the stored league whose
/// API id is the team's own API id, if there is one.
pub open spec fn team_row_in(t: serde_models::Team, leagues: Seq<League>) -> Team {
    Team {
        home_league: match league_row_id(leagues, t.id.0) {
            Some(id) => Some(id as i64),
            None => None,
        },
        ..team_row(t)
    }
}

fn find_league_row_id(stored: &Vec<League>, ext_id: i64) -> (r: Option<i32>)
    ensures
        r == league_row_id(stored@, ext_id),
{
    match position_by_key(stored, ext_id) {
        Some(j) => Some(stored[j].id),
        None => None,
    }
}

/// The plan for a fetched league holds the fetched league's API id, slug,
/// name, region and image; it updates the first stored league with the same
/// API id, under that league's row id, or, when none has it, it is inserted
/// with row id 0.
pub proof fn lemma_league_plan(l: serde_models::League, stored: Seq<League>)
    ensures
        ({
            let plan = upsert_of(league_row(l), stored);
            let u = match plan {
                Upsert::Update(u) => u,
                Upsert::Insert(u) => u,
            };
            &&& u.ext_id == l.id.0 && u.slug == l.slug && u.name == l.name && u.region == l.region
                && u.image_url == l.image
            &&& match first_index(stored, |s: League| s.ext_id == l.id.0) {
                Some(j) => plan is Update && u.id == stored[j].id,
                None => plan is Insert && u.id == 0,
            }
        }),
{
    assert(has_key::<League>(l.id.0) =~= |s: League| s.ext_id == l.id.0);
}

/// The plan for a fetched tournament holds the tournament's API id, slug and
/// dates, and the row id of the first stored league whose API id is the
/// tournament's league (0 when none is); it updates the first stored
/// tournament with the same API id, under that tournament's row id, or, when
/// none has it, it is inserted with row id 0.
pub proof fn lemma_tournament_plan(
    t: serde_models::Tournament,
    leagues: Seq<League>,
    stored: Seq<Tournament>,
)
    ensures
        ({
            let plan = upsert_of(tournament_row_in(t, leagues), stored);
            let u = match plan {
                Upsert::Update(u) => u,
                Upsert::Insert(u) => u,
            };
            &&& u.ext_id == t.id.0 && u.slug == t.slug && u.start_date == t.start_date
                && u.end_date == t.end_date
            &&& u.league == match first_index(leagues, |l: League| l.ext_id == t.league_id.0) {
                Some(j) => leagues[j].id,
                None => 0,
            }
            &&& match first_index(stored, |s: Tournament| s.ext_id == t.id.0) {
                Some(j) => plan is Update && u.id == stored[j].id,
                None => plan is Insert && u.id == 0,
            }
        }),
{
    assert(has_key::<League>(t.league_id.0) =~= |l: League| l.ext_id == t.league_id.0);
    assert(has_key::<Tournament>(t.id.0) =~= |s: Tournament| s.ext_id == t.id.0);
}

/// The plan for a fetched team holds the team's API id, name, slug, code and
/// images, and as home league the row id of the first stored league whose API
/// id is the team's own API id (none when no stored league has it); it
/// updates the first stored team with the same API id, under that team's row
/// id and with that same home league, or, when none has it, it is inserted
/// with row id 0.
pub proof fn lemma_team_plan(t: serde_models::Team, leagues: Seq<League>, stored: Seq<Team>)
    ensures
        ({
            let plan = upsert_of(team_row_in(t, leagues), stored);
            let u = match plan {
                Upsert::Update(u) => u,
                Upsert::Insert(u) => u,
            };
            &&& u.ext_id == t.id.0 && u.name == t.name && u.slug == t.slug && u.code == t.code
                && u.image_url == t.image && u.alt_image_url == t.alternative_image
                && u.bg_image_url == t.background_image
            &&& u.home_league == match first_index(leagues, |l: League| l.ext_id == t.id.0) {
                Some(j) => Some(leagues[j].id as i64),
                None => None,
            }
            &&& match first_index(stored, |s: Team| s.ext_id == t.id.0) {
                Some(j) => plan is Update && u.id == stored[j].id,
                None => plan is Insert && u.id == 0,
            }
        }),
{
    assert(has_key::<League>(t.id.0) =~= |l: League| l.ext_id == t.id.0);
    assert(has_key::<Team>(t.id.0) =~= |s: Team| s.ext_id == t.id.0);
}

/// The plan for a fetched player holds the player's API id, names, image and
/// role; it updates the first stored player with the same API id, under that
/// player's row id, or, when none has it, it is inserted with row id 0.
pub proof fn lemma_player_plan(p: serde_models::Player, stored: Seq<Player>)
    ensures
        ({
            let plan = upsert_of(player_row(p), stored);
            let u = match plan {
                Upsert::Update(u) => u,
                Upsert::Insert(u) => u,
            };
            &&& u.ext_id == p.id.0 && u.first_name == p.first_name && u.last_name == p.last_name
                && u.summoner_name == p.summoner_name && u.image_url == p.image && u.role
                == p.role
            &&& match first_index(stored, |s: Player| s.ext_id == p.id.0) {
                Some(j) => plan is Update && u.id == stored[j].id,
                None => plan is Insert && u.id == 0,
            }
        }),
{
    assert(has_key::<Player>(p.id.0) =~= |s: Player| s.ext_id == p.id.0);
}

impl DatabaseOps {
    /// For each fetched league, in order: its row, updating the stored league
    /// with the same API id or inserted.
    pub fn plan_leagues(leagues: &serde_models::Leagues, stored: &Vec<League>) -> (r: Vec<
        Upsert<League>,
    >)
        ensures
            r@ == leagues.leagues@.map_values(
                |l: serde_models::League| upsert_of(league_row(l), stored@),
            ),
    {
        let ghost src = leagues.leagues@;
        let mut out: Vec<Upsert<League>> = Vec::new();
        let mut i: usize = 0;
        while i < leagues.leagues.len()
            invariant
                i <= src.len(),
                src == leagues.leagues@,
                out@ == src.take(i as int).map_values(
                    |l: serde_models::League| upsert_of(league_row(l), stored@),
                ),
            decreases src.len() - i,
        {
            proof {
                lemma_take_succ(src, i as int);
            }
            let row = League::from_serde(&leagues.leagues[i]);
            out.push(upsert(row, stored));
            assert(out@ =~= src.take(i + 1).map_values(
                |l: serde_models::League| upsert_of(league_row(l), stored@),
            ));
            i = i + 1;
        }
        assert(src.take(src.len() as int) =~= src);
        out
    }

    /// For each fetched tournament, in order: its row, attached to the stored
    /// league of its league, updating the stored tournament with the same API
    /// id or inserted.
    pub fn plan_tournaments(
        tournaments: &Vec<serde_models::Tournament>,
        stored_tournaments: &Vec<Tournament>,
        stored_leagues: &Vec<League>,
    ) -> (r: Vec<Upsert<Tournament>>)
        ensures
            r@ == tournaments@.map_values(
                |t: serde_models::Tournament|
                    upsert_of(tournament_row_in(t, stored_leagues@), stored_tournaments@),
            ),
    {
        let ghost src = tournaments@;
        let mut out: Vec<Upsert<Tournament>> = Vec::new();
        let mut i: usize = 0;
        while i < tournaments.len()
            invariant
                i <= src.len(),
                src == tournaments@,
                out@ == src.take(i as int).map_values(
                    |t: serde_models::Tournament|
                        upsert_of(tournament_row_in(t, stored_leagues@), stored_tournaments@),
                ),
            decreases src.len() - i,
        {
            proof {
                lemma_take_succ(src, i as int);
            }
            let fetched = &tournaments[i];
            let mut row = Tournament::from_serde(fetched);
            row.league = match find_league_row_id(stored_leagues, fetched.league_id.0) {
                Some(id) => id,
                None => 0,
            };
            out.push(upsert(row, stored_tournaments));
            assert(out@ =~= src.take(i + 1).map_values(
                |t: serde_models::Tournament|
                    upsert_of(tournament_row_in(t, stored_leagues@), stored_tournaments@),
            ));
            i = i + 1;
        }
        assert(src.take(src.len() as int) =~= src);
        out
    }

    /// For each fetched team, in order: its row, with the home league that
    /// [`team_row_in`] gives it, updating the stored team with the same API
    /// id or inserted.
    pub fn plan_teams(
        teams: &Vec<serde_models::Team>,
        stored_leagues: &Vec<League>,
        stored_teams: &Vec<Team>,
    ) -> (r: Vec<Upsert<Team>>)
        ensures
            r@ == teams@.map_values(
                |t: serde_models::Team| upsert_of(team_row_in(t, stored_leagues@), stored_teams@),
            ),
    {
        let ghost src = teams@;
        let mut out: Vec<Upsert<Team>> = Vec::new();
        let mut i: usize = 0;
        while i < teams.len()
            invariant
                i <= src.len(),
                src == teams@,
                out@ == src.take(i as int).map_values(
                    |t: serde_models::Team|
                        upsert_of(team_row_in(t, stored_leagues@), stored_teams@),
                ),
            decreases src.len() - i,
        {
            proof {
                lemma_take_succ(src, i as int);
            }
            let fetched = &teams[i];
            let mut row = Team::from_serde(fetched);
            row.home_league = match find_league_row_id(stored_leagues, fetched.id.0) {
                Some(id) => Some(id as i64),
                None => None,
            };
            out.push(upsert(row, stored_teams));
            assert(out@ =~= src.take(i + 1).map_values(
                |t: serde_models::Team| upsert_of(team_row_in(t, stored_leagues@), stored_teams@),
            ));
            i = i + 1;
        }
        assert(src.take(src.len() as int) =~= src);
        out
    }

    /// The rows of the fetched players, only the first one for each API id,
    /// in order; each updates the stored player with the same API id or is
    /// inserted.
    pub fn plan_players(players: &Vec<serde_models::Player>, stored: &Vec<Player>) -> (r: Vec<
        Upsert<Player>,
    >)
        ensures
            r@ == first_of_each_key(
                players@.map_values(|p: serde_models::Player| player_row(p)),
            ).map_values(|p: Player| upsert_of(p, stored@)),
    {
        let ghost src = players@;
        let mut rows: Vec<Player> = Vec::new();
        let mut i: usize = 0;
        while i < players.len()
            invariant
                i <= src.len(),
                src == players@,
                rows@ == src.take(i as int).map_values(|p: serde_models::Player| player_row(p)),
            decreases src.len() - i,
        {
            proof {
                lemma_take_succ(src, i as int);
            }
            rows.push(Player::from_serde(&players[i]));
            assert(rows@ =~= src.take(i + 1).map_values(
                |p: serde_models::Player| player_row(p),
            ));
            i = i + 1;
        }
        assert(src.take(src.len() as int) =~= src);
        let unique = unique_by_ext_id(rows);
        let ghost kept = unique@;
        let mut out: Vec<Upsert<Player>> = Vec::new();
        for row in it: unique.into_iter()
            invariant
                it.seq() == kept,
                out@ == kept.take(it.index() as int).map_values(|p: Player| upsert_of(p, stored@)),
        {
            proof {
                lemma_take_succ(kept, it.index() as int);
            }
            out.push(upsert(row, stored));
            assert(out@ =~= kept.take(it.index() + 1).map_values(
                |p: Player| upsert_of(p, stored@),
            ));
        }
        assert(kept.take(kept.len() as int) =~= kept);
        out
    }
}

} // verus!
