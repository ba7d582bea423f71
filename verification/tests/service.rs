use triforce::data_pull::serde_models::{
    CalendarDate, Event, EventDetailMatch, EventDetailTournament, EventDetails, HomeLeague, League,
    LeagueForTournaments, Leagues, LolesportsDateTime, LolesportsId, MatchTeamResult, Pages, Player,
    Schedule, ScheduleLeague, Strategy, Team, TeamEvent, TeamsPlayers, Tournament, Tournaments,
};
use triforce::deep::DeepClone;
use triforce::service::changes::{conclude_ended_match, contains_details, position_by_id, ChangeStep};
use triforce::service::paging::{SchedulePaging, MAX_OLDER_PAGES};
use triforce::service::DataPull;

fn api_league(id: i64, slug: &str, name: &str) -> League {
    League {
        id: LolesportsId(id),
        slug: slug.to_string(),
        name: name.to_string(),
        region: "EUROPE".to_string(),
        image: format!("{slug}.png"),
    }
}

fn pull_with_leagues() -> DataPull {
    let mut pull = DataPull::default();
    pull.leagues = Leagues {
        leagues: vec![
            api_league(10, "lec", "LEC"),
            api_league(20, "lck", "LCK"),
            api_league(30, "lec", "LEC Duplicate"),
        ],
    };
    pull
}

fn team_event(name: &str, wins: Option<i8>) -> TeamEvent {
    TeamEvent {
        name: name.to_string(),
        code: name.to_string(),
        image: String::new(),
        result: wins.map(|w| MatchTeamResult { outcome: None, game_wins: w }),
    }
}

fn live_match(id: i64, state: &str, wins: (i8, i8), count: i8) -> EventDetails {
    EventDetails {
        id: LolesportsId(id),
        event_type: "match".to_string(),
        tournament: EventDetailTournament { id: LolesportsId(1) },
        league: ScheduleLeague { league_id: LolesportsId(0), name: "LEC".to_string(), slug: "lec".to_string() },
        event_match: Some(EventDetailMatch {
            teams: vec![team_event("G2", Some(wins.0)), team_event("FNC", Some(wins.1))],
            strategy: Strategy { strategy_type: "bestOf".to_string(), count },
            games: vec![],
        }),
        start_time: Some(LolesportsDateTime(0)),
        state: Some(state.to_string()),
        blockname: None,
        streams: vec![],
    }
}

fn live_show(id: i64) -> EventDetails {
    EventDetails { event_type: "show".to_string(), event_match: None, ..live_match(id, "inProgress", (0, 0), 1) }
}

#[test]
fn search_league_by_name_finds_the_first_league_with_that_name() {
    let pull = pull_with_leagues();
    assert_eq!(pull.search_league_by_name("LCK"), LolesportsId(20));
    assert_eq!(pull.search_league_by_name("LEC"), LolesportsId(10));
}

#[test]
fn search_league_by_name_defaults_to_zero() {
    let pull = pull_with_leagues();
    assert_eq!(pull.search_league_by_name("LPL"), LolesportsId(0));
    assert_eq!(DataPull::default().search_league_by_name("LEC"), LolesportsId(0));
}

fn tournament(id: i64) -> Tournament {
    Tournament {
        id: LolesportsId(id),
        slug: format!("t{id}"),
        start_date: CalendarDate { year: 2023, month: 1, day: 2 },
        end_date: CalendarDate { year: 2023, month: 3, day: 4 },
        league_id: LolesportsId(0),
    }
}

#[test]
fn tournaments_of_the_first_answer_league_join_the_list() {
    let mut pull = pull_with_leagues();
    pull.tournaments.push(Tournament { league_id: LolesportsId(5), ..tournament(1) });
    let fetched = LeagueForTournaments {
        leagues: vec![
            Tournaments { tournaments: vec![tournament(2), tournament(3)] },
            Tournaments { tournaments: vec![tournament(4)] },
        ],
    };
    pull.add_league_tournaments(LolesportsId(10), fetched);
    assert_eq!(pull.tournaments.len(), 3);
    assert_eq!(pull.tournaments[0].league_id, LolesportsId(5));
    assert_eq!(pull.tournaments[1], Tournament { league_id: LolesportsId(10), ..tournament(2) });
    assert_eq!(pull.tournaments[2], Tournament { league_id: LolesportsId(10), ..tournament(3) });
}

fn player(id: i64) -> Player {
    Player {
        id: LolesportsId(id),
        first_name: "First".to_string(),
        last_name: "Last".to_string(),
        summoner_name: format!("p{id}"),
        image: None,
        role: "mid".to_string(),
    }
}

fn team(id: i64, home: Option<&str>, players: Vec<Player>) -> Team {
    Team {
        id: LolesportsId(id),
        name: format!("team{id}"),
        slug: format!("team-{id}"),
        code: "T".to_string(),
        image: String::new(),
        alternative_image: None,
        background_image: Some("bg.png".to_string()),
        status: "active".to_string(),
        players,
        home_league: home.map(|n| HomeLeague { league_id: LolesportsId(0), name: n.to_string(), region: "EU".to_string() }),
    }
}

#[test]
fn teams_get_their_home_league_and_players_are_collected() {
    let mut pull = pull_with_leagues();
    let fetched = TeamsPlayers {
        teams: vec![
            team(1, Some("LCK"), vec![player(11), player(12)]),
            team(2, None, vec![]),
            team(3, Some("Unknown"), vec![player(31)]),
        ],
    };
    pull.add_teams_and_players(fetched);
    assert_eq!(pull.teams.len(), 3);
    assert_eq!(pull.teams[0].home_league.as_ref().unwrap().league_id, LolesportsId(20));
    assert!(pull.teams[1].home_league.is_none());
    assert_eq!(pull.teams[2].home_league.as_ref().unwrap().league_id, LolesportsId(0));
    assert_eq!(pull.teams[0].players, vec![player(11), player(12)]);
    assert_eq!(pull.players, vec![player(11), player(12), player(31)]);
}

fn schedule_event(slug: &str, match_id: Option<i64>) -> Event {
    Event {
        start_time: LolesportsDateTime(0),
        state: "unstarted".to_string(),
        event_type: "match".to_string(),
        block_name: None,
        league: ScheduleLeague { league_id: LolesportsId(0), name: String::new(), slug: slug.to_string() },
        slug: String::new(),
        event_match: match_id.map(|id| triforce::data_pull::serde_models::Match {
            id: LolesportsId(id),
            teams: vec![],
            strategy: Strategy { strategy_type: "bestOf".to_string(), count: 1 },
        }),
    }
}

#[test]
fn schedule_events_get_the_league_of_their_slug() {
    let mut pull = pull_with_leagues();
    pull.schedule = vec![schedule_event("lck", Some(1)), schedule_event("lec", None), schedule_event("lpl", Some(2))];
    pull.assign_schedule_league_ids();
    let ids: Vec<LolesportsId> = pull.schedule.iter().map(|e| e.league.league_id).collect();
    assert_eq!(ids, vec![LolesportsId(20), LolesportsId(10), LolesportsId(0)]);
}

#[test]
fn a_live_poll_forgets_recent_changes() {
    let mut pull = DataPull::default();
    pull.events_with_recent_changes.push(live_show(1));
    pull.begin_live_poll();
    assert!(pull.events_with_recent_changes.is_empty());
    pull.set_live(vec![live_match(2, "inProgress", (0, 0), 3)]);
    assert_eq!(pull.live, vec![live_match(2, "inProgress", (0, 0), 3)]);
}

#[test]
fn an_unchanged_feed_has_no_changes() {
    let mut pull = DataPull::default();
    let feed = vec![live_match(1, "inProgress", (1, 0), 3), live_show(2)];
    pull.previous_live = feed.clone();
    pull.live = feed.clone();
    let steps = pull.plan_changes();
    assert!(steps.is_empty());
    assert_eq!(pull.previous_live, feed);
}

#[test]
fn a_changed_live_event_is_recorded_as_it_is_now() {
    let mut pull = DataPull::default();
    pull.previous_live = vec![live_match(1, "inProgress", (0, 0), 3)];
    pull.live = vec![live_match(1, "inProgress", (1, 0), 3)];
    let steps = pull.plan_changes();
    assert_eq!(steps, vec![ChangeStep::Ready(live_match(1, "inProgress", (1, 0), 3))]);
    assert_eq!(pull.previous_live, pull.live);
}

#[test]
fn an_ended_match_needs_its_details() {
    let mut pull = DataPull::default();
    pull.previous_live = vec![live_match(1, "inProgress", (1, 1), 3), live_match(2, "inProgress", (0, 0), 1)];
    pull.live = vec![live_match(2, "inProgress", (0, 0), 1)];
    let steps = pull.plan_changes();
    assert_eq!(steps, vec![ChangeStep::FetchDetails(live_match(1, "inProgress", (1, 1), 3))]);
}

#[test]
fn an_ended_show_is_recorded_as_completed() {
    let mut pull = DataPull::default();
    pull.previous_live = vec![live_show(5)];
    pull.live = vec![];
    let steps = pull.plan_changes();
    let mut expected = live_show(5);
    expected.state = Some("completed".to_string());
    assert_eq!(steps, vec![ChangeStep::Ready(expected)]);
    assert!(pull.previous_live.is_empty());
}

#[test]
fn steps_follow_the_order_of_the_previous_poll() {
    let mut pull = DataPull::default();
    pull.previous_live = vec![live_show(7), live_match(8, "inProgress", (0, 0), 3), live_match(9, "inProgress", (0, 0), 3)];
    pull.live = vec![live_match(9, "inProgress", (0, 0), 3), live_match(8, "inProgress", (0, 1), 3)];
    let steps = pull.plan_changes();
    let mut show = live_show(7);
    show.state = Some("completed".to_string());
    assert_eq!(
        steps,
        vec![ChangeStep::Ready(show), ChangeStep::Ready(live_match(8, "inProgress", (0, 1), 3))]
    );
}

#[test]
fn an_ended_match_with_a_winner_is_completed() {
    let last_seen = live_match(1, "inProgress", (2, 0), 3);
    let fetched = live_match(1, "inProgress", (2, 0), 3);
    let r = conclude_ended_match(last_seen.event_match.as_ref().unwrap(), fetched);
    assert_eq!(r.state, Some("completed".to_string()));
    assert_eq!(r.id, LolesportsId(1));
}

#[test]
fn an_ended_match_without_a_winner_keeps_its_details() {
    let last_seen = live_match(1, "inProgress", (1, 1), 3);
    let fetched = live_match(1, "unstarted", (1, 1), 3);
    let r = conclude_ended_match(last_seen.event_match.as_ref().unwrap(), fetched.deep_clone());
    assert_eq!(r, fetched);
}

#[test]
fn a_single_game_match_is_decided_by_one_win() {
    let last_seen = live_match(1, "inProgress", (0, 1), 1);
    let r = conclude_ended_match(last_seen.event_match.as_ref().unwrap(), live_show(1));
    assert_eq!(r.state, Some("completed".to_string()));
    let undecided = live_match(1, "inProgress", (0, 0), 1);
    let r = conclude_ended_match(undecided.event_match.as_ref().unwrap(), live_show(1));
    assert_eq!(r.state, Some("inProgress".to_string()));
}

#[test]
fn search_helpers_find_events() {
    let feed = vec![live_match(1, "a", (0, 0), 1), live_match(2, "b", (0, 0), 1), live_match(2, "c", (0, 0), 1)];
    assert_eq!(position_by_id(&feed, LolesportsId(2)), Some(1));
    assert_eq!(position_by_id(&feed, LolesportsId(3)), None);
    assert!(contains_details(&feed, &live_match(2, "c", (0, 0), 1)));
    assert!(!contains_details(&feed, &live_match(2, "d", (0, 0), 1)));
}

fn page(older: Option<&str>, newer: Option<&str>) -> Pages {
    Pages { older: older.map(|s| s.to_string()), newer: newer.map(|s| s.to_string()) }
}

#[test]
fn the_walk_fetches_at_most_the_allowed_older_pages_then_the_newer_ones() {
    let mut paging = SchedulePaging::start(&page(Some("o0"), Some("n0")));
    let mut older = 0;
    loop {
        let token = paging.next_request().expect("a page to fetch");
        if !paging.reading_older {
            assert_eq!(token, "n0");
            break;
        }
        older += 1;
        paging.record_page(page(Some(&format!("o{older}")), Some("ignored")));
    }
    assert_eq!(older, MAX_OLDER_PAGES);
    paging.record_page(page(Some("x"), Some("n1")));
    assert_eq!(paging.next_request(), Some("n1".to_string()));
    paging.record_page(page(None, None));
    assert_eq!(paging.next_request(), None);
    assert_eq!(paging.newer_pages, 3);
}

#[test]
fn the_walk_turns_to_newer_pages_when_older_ones_run_out() {
    let mut paging = SchedulePaging::start(&page(Some("o0"), None));
    assert_eq!(paging.next_request(), Some("o0".to_string()));
    paging.record_page(page(None, Some("n-from-older-page")));
    assert_eq!(paging.next_request(), None);
    assert!(!paging.reading_older);
    assert_eq!(paging.older_pages, 2);
}

#[test]
fn schedule_pages_extend_the_full_schedule() {
    let mut pull = DataPull::default();
    let first = Schedule { pages: page(Some("o"), None), events: vec![schedule_event("lec", Some(1))] };
    let mut paging = pull.begin_full_schedule(first);
    assert_eq!(pull.schedule.len(), 1);
    assert_eq!(paging.next_request(), Some("o".to_string()));
    pull.add_schedule_page(&mut paging, Schedule { pages: page(None, None), events: vec![schedule_event("lck", Some(2)), schedule_event("lck", None)] });
    assert_eq!(pull.schedule.len(), 3);
    assert_eq!(paging.next_request(), None);
}

#[test]
fn a_match_of_no_games_is_decided_by_any_win() {
    let won = live_match(1, "inProgress", (1, 0), 0);
    let r = conclude_ended_match(won.event_match.as_ref().unwrap(), live_show(1));
    assert_eq!(r.state, Some("completed".to_string()));
    let none = live_match(1, "inProgress", (0, 0), 0);
    let r = conclude_ended_match(none.event_match.as_ref().unwrap(), live_show(1));
    assert_eq!(r.state, Some("inProgress".to_string()));
}

#[test]
fn a_best_of_five_needs_three_wins() {
    let two = live_match(1, "inProgress", (2, 2), 5);
    let r = conclude_ended_match(two.event_match.as_ref().unwrap(), live_show(1));
    assert_eq!(r.state, Some("inProgress".to_string()));
    let three = live_match(1, "inProgress", (1, 3), 5);
    let r = conclude_ended_match(three.event_match.as_ref().unwrap(), live_show(1));
    assert_eq!(r.state, Some("completed".to_string()));
}
