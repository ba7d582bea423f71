use triforce::dao::models::event::Schedule;
use triforce::dao::models::leagues::League;
use triforce::dao::models::players::Player;
use triforce::dao::models::streams::Stream;
use triforce::dao::models::team_player::TeamPlayer;
use triforce::dao::models::teams::Team;
use triforce::dao::models::tournaments::Tournament;
use triforce::dao::rows::Upsert;
use triforce::dao::schedule_plan::DetailsTarget;
use triforce::dao::DatabaseOps;
use triforce::data_pull::serde_models as api;
use triforce::data_pull::serde_models::{CalendarDate, LolesportsDateTime, LolesportsId};

fn db_league(id: i32, ext_id: i64, slug: &str) -> League {
    League {
        id,
        ext_id,
        slug: slug.to_string(),
        name: slug.to_uppercase(),
        region: "EU".to_string(),
        image_url: String::new(),
    }
}

fn api_league(id: i64, slug: &str) -> api::League {
    api::League {
        id: LolesportsId(id),
        slug: slug.to_string(),
        name: slug.to_uppercase(),
        region: "EU".to_string(),
        image: format!("{slug}.png"),
    }
}

#[test]
fn a_league_row_holds_the_fetched_league() {
    let row = League::from_serde(&api_league(99, "lec"));
    assert_eq!(
        row,
        League { id: 0, ext_id: 99, slug: "lec".to_string(), name: "LEC".to_string(), region: "EU".to_string(), image_url: "lec.png".to_string() }
    );
}

#[test]
fn known_leagues_are_updated_and_new_ones_inserted() {
    let fetched = api::Leagues { leagues: vec![api_league(1, "lec"), api_league(2, "lck")] };
    let stored = vec![db_league(7, 2, "old-lck"), db_league(8, 2, "dup")];
    let plan = DatabaseOps::plan_leagues(&fetched, &stored);
    assert_eq!(plan.len(), 2);
    assert_eq!(plan[0], Upsert::Insert(League::from_serde(&api_league(1, "lec"))));
    assert_eq!(plan[1], Upsert::Update(League { id: 7, ..League::from_serde(&api_league(2, "lck")) }));
}

fn api_tournament(id: i64, league: i64) -> api::Tournament {
    api::Tournament {
        id: LolesportsId(id),
        slug: format!("t{id}"),
        start_date: CalendarDate { year: 2023, month: 1, day: 1 },
        end_date: CalendarDate { year: 2023, month: 2, day: 1 },
        league_id: LolesportsId(league),
    }
}

#[test]
fn tournaments_are_attached_to_their_stored_league() {
    let stored_leagues = vec![db_league(3, 100, "lec")];
    let stored = vec![Tournament { id: 40, ..Tournament::from_serde(&api_tournament(5, 100)) }];
    let plan = DatabaseOps::plan_tournaments(&vec![api_tournament(5, 100), api_tournament(6, 200)], &stored, &stored_leagues);
    assert_eq!(plan[0], Upsert::Update(Tournament { id: 40, league: 3, ..Tournament::from_serde(&api_tournament(5, 100)) }));
    assert_eq!(plan[1], Upsert::Insert(Tournament { league: 0, ..Tournament::from_serde(&api_tournament(6, 200)) }));
}

fn api_player(id: i64, name: &str) -> api::Player {
    api::Player {
        id: LolesportsId(id),
        first_name: "F".to_string(),
        last_name: "L".to_string(),
        summoner_name: name.to_string(),
        image: Some("img".to_string()),
        role: "top".to_string(),
    }
}

fn api_team(id: i64, name: &str, players: Vec<api::Player>) -> api::Team {
    api::Team {
        id: LolesportsId(id),
        name: name.to_string(),
        slug: name.to_lowercase(),
        code: name.to_string(),
        image: String::new(),
        alternative_image: None,
        background_image: None,
        status: "active".to_string(),
        players,
        home_league: None,
    }
}

#[test]
fn a_team_row_takes_the_stored_league_with_the_team_api_id() {
    let stored_leagues = vec![db_league(3, 555, "lec")];
    let plan = DatabaseOps::plan_teams(&vec![api_team(555, "G2", vec![]), api_team(1, "FNC", vec![])], &stored_leagues, &vec![]);
    assert_eq!(plan[0], Upsert::Insert(Team { home_league: Some(3), ..Team::from_serde(&api_team(555, "G2", vec![])) }));
    assert_eq!(plan[1], Upsert::Insert(Team::from_serde(&api_team(1, "FNC", vec![]))));
}

#[test]
fn players_are_planned_once_per_api_id() {
    let fetched = vec![api_player(1, "a"), api_player(2, "b"), api_player(1, "a-again"), api_player(3, "c"), api_player(2, "b-again")];
    let stored = vec![Player { id: 50, ..Player::from_serde(&api_player(3, "old")) }];
    let plan = DatabaseOps::plan_players(&fetched, &stored);
    assert_eq!(
        plan,
        vec![
            Upsert::Insert(Player::from_serde(&api_player(1, "a"))),
            Upsert::Insert(Player::from_serde(&api_player(2, "b"))),
            Upsert::Update(Player { id: 50, ..Player::from_serde(&api_player(3, "c")) }),
        ]
    );
}

fn db_team(id: i32, ext_id: i64, name: &str) -> Team {
    Team { id, name: name.to_string(), ..Team::from_serde(&api_team(ext_id, name, vec![])) }
}

fn db_player(id: i32, ext_id: i64) -> Player {
    Player { id, ..Player::from_serde(&api_player(ext_id, "x")) }
}

#[test]
fn team_player_rows_link_stored_teams_and_players() {
    let fetched = vec![
        api_team(1, "G2", vec![api_player(11, "a"), api_player(12, "b")]),
        api_team(2, "FNC", vec![]),
        api_team(3, "MAD", vec![api_player(11, "a")]),
    ];
    let teams = vec![db_team(100, 1, "G2"), db_team(200, 2, "FNC"), db_team(300, 3, "MAD")];
    let players = vec![db_player(7, 12), db_player(6, 11)];
    assert!(DatabaseOps::team_player_links_resolvable(&fetched, &teams, &players));
    let rows = DatabaseOps::plan_team_players(&fetched, &teams, &players);
    assert_eq!(
        rows,
        vec![
            TeamPlayer { id: 0, team_id: Some(100), player_id: Some(6) },
            TeamPlayer { id: 0, team_id: Some(100), player_id: Some(7) },
            TeamPlayer { id: 0, team_id: Some(300), player_id: Some(6) },
        ]
    );
}

#[test]
fn team_player_links_need_every_team_and_player_stored() {
    let teams = vec![db_team(100, 1, "G2")];
    let players = vec![db_player(6, 11)];
    assert!(!DatabaseOps::team_player_links_resolvable(&vec![api_team(2, "FNC", vec![])], &teams, &players));
    assert!(!DatabaseOps::team_player_links_resolvable(&vec![api_team(1, "G2", vec![api_player(12, "b")])], &teams, &players));
    assert!(DatabaseOps::team_player_links_resolvable(&vec![], &teams, &players));
}

fn api_event(match_id: Option<i64>, start: i64, teams: Vec<(&str, Option<i8>)>, count: i8, state: &str) -> api::Event {
    api::Event {
        start_time: LolesportsDateTime(start),
        state: state.to_string(),
        event_type: if match_id.is_some() { "match".to_string() } else { "show".to_string() },
        block_name: Some("Week 1".to_string()),
        league: api::ScheduleLeague { league_id: LolesportsId(0), name: "LEC".to_string(), slug: "lec".to_string() },
        slug: String::new(),
        event_match: match_id.map(|id| api::Match {
            id: LolesportsId(id),
            teams: teams
                .iter()
                .map(|(n, w)| api::TeamEvent {
                    name: n.to_string(),
                    code: n.to_string(),
                    image: String::new(),
                    result: w.map(|g| api::MatchTeamResult { outcome: None, game_wins: g }),
                })
                .collect(),
            strategy: api::Strategy { strategy_type: "bestOf".to_string(), count },
        }),
    }
}

#[test]
fn an_event_row_holds_the_event() {
    let row = Schedule::from_event(&api_event(Some(9), 1000, vec![], 3, "unstarted"));
    assert_eq!(row.match_id, Some(9));
    assert_eq!(row.strategy, Some("bestOf".to_string()));
    assert_eq!(row.strategy_count, Some(3));
    assert_eq!(row.start_time, Some(LolesportsDateTime(1000)));
    assert_eq!(row.blockname, Some("Week 1".to_string()));
    assert_eq!(row.league_id, None);
    let show = Schedule::from_event(&api_event(None, 5, vec![], 3, "unstarted"));
    assert_eq!((show.match_id, show.strategy, show.strategy_count), (None, None, None));
}

#[test]
fn a_match_with_all_games_reported_is_stored_as_completed() {
    let leagues = vec![db_league(4, 1, "lec")];
    let teams = vec![db_team(10, 1, "G2"), db_team(20, 2, "FNC")];
    let events = vec![
        api_event(Some(1), 0, vec![("G2", Some(2)), ("FNC", Some(1))], 3, "unstarted"),
        api_event(Some(2), 0, vec![("G2", Some(1)), ("FNC", Some(0))], 3, "inProgress"),
        api_event(Some(3), 0, vec![("G2", None), ("MAD", Some(0))], 1, "unstarted"),
    ];
    let plan = DatabaseOps::plan_schedule(&events, &leagues, &teams, &vec![]);
    let rows: Vec<Schedule> = plan
        .into_iter()
        .map(|u| match u {
            Upsert::Insert(r) => r,
            Upsert::Update(_) => panic!("nothing is stored"),
        })
        .collect();
    assert_eq!(rows[0].state, "completed");
    assert_eq!(rows[0].league_id, Some(4));
    assert_eq!((rows[0].team_left_id, rows[0].team_left_wins), (Some(10), Some(2)));
    assert_eq!((rows[0].team_right_id, rows[0].team_right_wins), (Some(20), Some(1)));
    assert_eq!(rows[1].state, "inProgress");
    assert_eq!(rows[2].state, "unstarted");
    assert_eq!(rows[2].team_right_id, None);
    assert_eq!(rows[2].team_left_wins, None);
}

#[test]
fn a_match_naming_a_single_team_cannot_be_stored() {
    let ok = vec![api_event(Some(1), 0, vec![("G2", None), ("FNC", None)], 1, "unstarted"), api_event(Some(2), 0, vec![], 1, "unstarted"), api_event(None, 0, vec![], 1, "unstarted")];
    assert!(DatabaseOps::schedule_sides_complete(&ok));
    let lone = vec![api_event(Some(1), 0, vec![("G2", None)], 1, "unstarted")];
    assert!(!DatabaseOps::schedule_sides_complete(&lone));
}

#[test]
fn stored_events_are_found_by_match_or_by_start_and_league() {
    let leagues = vec![db_league(4, 1, "lec")];
    let mut stored_match = Schedule::from_event(&api_event(Some(1), 0, vec![], 1, "unstarted"));
    stored_match.id = 71;
    let mut stored_show = Schedule::from_event(&api_event(None, 500, vec![], 1, "unstarted"));
    stored_show.id = 72;
    stored_show.league_id = Some(4);
    let stored = vec![stored_match, stored_show];
    let events = vec![
        api_event(Some(1), 999, vec![], 1, "inProgress"),
        api_event(None, 500, vec![], 1, "inProgress"),
        api_event(None, 501, vec![], 1, "inProgress"),
    ];
    let plan = DatabaseOps::plan_schedule(&events, &leagues, &vec![], &stored);
    assert!(matches!(&plan[0], Upsert::Update(r) if r.id == 71 && r.state == "inProgress"));
    assert!(matches!(&plan[1], Upsert::Update(r) if r.id == 72));
    assert!(matches!(&plan[2], Upsert::Insert(r) if r.id == 0));
}

fn details(id: i64, with_match: bool, start: Option<i64>, state: Option<&str>) -> api::EventDetails {
    api::EventDetails {
        id: LolesportsId(id),
        event_type: if with_match { "match".to_string() } else { "show".to_string() },
        tournament: api::EventDetailTournament { id: LolesportsId(1) },
        league: api::ScheduleLeague { league_id: LolesportsId(0), name: "LEC".to_string(), slug: "lec".to_string() },
        event_match: if with_match {
            Some(api::EventDetailMatch {
                teams: vec![
                    api::TeamEvent { name: "G2".to_string(), code: "G2".to_string(), image: String::new(), result: Some(api::MatchTeamResult { outcome: None, game_wins: 2 }) },
                    api::TeamEvent { name: "FNC".to_string(), code: "FNC".to_string(), image: String::new(), result: None },
                ],
                strategy: api::Strategy { strategy_type: "bestOf".to_string(), count: 3 },
                games: vec![],
            })
        } else {
            None
        },
        start_time: start.map(LolesportsDateTime),
        state: state.map(|s| s.to_string()),
        blockname: None,
        streams: vec![
            api::Stream {
                parameter: "lec".to_string(),
                locale: "en-US".to_string(),
                media_locale: api::MediaLocale { locale: "en-US".to_string(), english_name: "English".to_string(), translated_name: "English".to_string() },
                provider: "twitch".to_string(),
            },
            api::Stream {
                parameter: "lec_fr".to_string(),
                locale: "fr-FR".to_string(),
                media_locale: api::MediaLocale { locale: "fr-FR".to_string(), english_name: "French".to_string(), translated_name: "Francais".to_string() },
                provider: "twitch".to_string(),
            },
        ],
    }
}

#[test]
fn merging_details_updates_wins_and_state_only() {
    let mut row = Schedule::from_event(&api_event(Some(1), 0, vec![], 3, "unstarted"));
    row.team_right_wins = Some(1);
    let before = row.clone();
    row.merge_with_event_details(&details(1, true, None, Some("inProgress")));
    assert_eq!(row.team_left_wins, Some(2));
    assert_eq!(row.team_right_wins, Some(1));
    assert_eq!(row.state, "inProgress");
    assert_eq!(row.start_time, before.start_time);
    let again = row.clone();
    row.merge_with_event_details(&details(1, true, None, Some("inProgress")));
    assert_eq!(row, again);
    row.merge_with_event_details(&details(1, false, None, None));
    assert_eq!(row, again);
}

#[test]
fn a_details_row_uses_the_event_id_as_match_id() {
    let row = Schedule::from_event_details(&details(42, true, Some(7), None));
    assert_eq!(row.match_id, Some(42));
    assert_eq!(row.state, "");
    assert_eq!(row.start_time, Some(LolesportsDateTime(7)));
    assert_eq!(row.strategy_count, Some(3));
}

#[test]
fn live_matches_merge_into_the_stored_match() {
    let leagues = vec![db_league(4, 1, "lec")];
    let mut a = Schedule::from_event(&api_event(Some(5), 0, vec![], 3, "unstarted"));
    a.id = 1;
    let mut b = Schedule::from_event(&api_event(Some(6), 0, vec![], 3, "unstarted"));
    b.id = 2;
    let mut stored = vec![a.clone(), b];
    let target = DatabaseOps::apply_event_details(&details(6, true, None, Some("inProgress")), &leagues, &mut stored);
    assert_eq!(target, DetailsTarget::Merged(1));
    assert_eq!(stored[0], a);
    assert_eq!(stored[1].state, "inProgress");
    assert_eq!(stored[1].team_left_wins, Some(2));
}

#[test]
fn live_shows_merge_into_a_stored_show_that_starts_near() {
    let leagues = vec![db_league(4, 1, "lec")];
    let mut show = Schedule::from_event(&api_event(None, 0, vec![], 1, "unstarted"));
    show.id = 9;
    show.league_id = Some(4);
    let mut stored = vec![show];
    let near = 20 * 60_000 + 59_999;
    let target = DatabaseOps::apply_event_details(&details(77, false, Some(near), Some("inProgress")), &leagues, &mut stored);
    assert_eq!(target, DetailsTarget::Merged(0));
    assert_eq!(stored[0].state, "inProgress");
    let far = 21 * 60_000;
    let target = DatabaseOps::apply_event_details(&details(78, false, Some(far), None), &leagues, &mut stored);
    match target {
        DetailsTarget::Insert(row) => {
            assert_eq!(row.match_id, Some(78));
            assert_eq!(row.league_id, Some(4));
        },
        other => panic!("expected an insert, got {other:?}"),
    }
    assert_eq!(stored.len(), 1);
}

#[test]
fn live_shows_of_an_unknown_league_match_shows_without_league() {
    let mut show = Schedule::from_event(&api_event(None, 0, vec![], 1, "unstarted"));
    show.id = 3;
    let mut stored = vec![show];
    let target = DatabaseOps::apply_event_details(&details(1, false, Some(-60_000), None), &vec![], &mut stored);
    assert_eq!(target, DetailsTarget::Merged(0));
    let target = DatabaseOps::apply_event_details(&details(1, false, None, None), &vec![], &mut stored);
    assert!(matches!(target, DetailsTarget::Insert(_)));
}

#[test]
fn only_new_streams_are_inserted() {
    let event = details(1, true, None, None);
    let stored = vec![
        Stream { id: 1, event_id: 30, provider: "twitch".to_string(), parameter: "lec".to_string(), locale: "en-US".to_string(), english_name: "English".to_string() },
        Stream { id: 2, event_id: 31, provider: "twitch".to_string(), parameter: "lec_fr".to_string(), locale: "fr-FR".to_string(), english_name: "French".to_string() },
    ];
    let rows = DatabaseOps::streams_to_insert(&event, 30, &stored);
    assert_eq!(
        rows,
        vec![Stream { id: 0, event_id: 30, provider: "twitch".to_string(), parameter: "lec_fr".to_string(), locale: "fr-FR".to_string(), english_name: "French".to_string() }]
    );
    assert_eq!(DatabaseOps::streams_to_insert(&event, 31, &stored).len(), 1);
    assert_eq!(DatabaseOps::streams_to_insert(&event, 32, &stored).len(), 2);
}

#[test]
fn a_stream_row_takes_the_media_locale() {
    let event = details(1, true, None, None);
    let row = Stream::from_serde(&event.streams[1]);
    assert_eq!((row.locale.as_str(), row.english_name.as_str(), row.event_id), ("fr-FR", "French", 0));
}

#[test]
fn a_player_and_a_team_row_hold_the_fetched_values() {
    let p = Player::from_serde(&api_player(4, "caps"));
    assert_eq!((p.id, p.ext_id, p.summoner_name.as_str(), p.image_url.as_deref()), (0, 4, "caps", Some("img")));
    let t = Team::from_serde(&api::Team { background_image: Some("bg".to_string()), ..api_team(8, "G2", vec![]) });
    assert_eq!((t.ext_id, t.bg_image_url.as_deref(), t.home_league), (8, Some("bg"), None));
}

#[test]
fn database_ops_start_empty() {
    let ops = DatabaseOps::default();
    assert!(ops.leagues.is_empty() && ops.events.is_empty() && ops.players.is_empty());
}
