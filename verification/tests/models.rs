use triforce::data_pull::serde_models::{
    Event, EventDetailMatch, EventDetailTournament, EventDetails, LolesportsDateTime, LolesportsId,
    Match, MatchTeamResult, MediaLocale, ScheduleLeague, Strategy, Stream, TeamEvent,
};
use triforce::deep::{DeepClone, DeepEq};

fn league(slug: &str) -> ScheduleLeague {
    ScheduleLeague { league_id: LolesportsId(0), name: format!("{slug} name"), slug: slug.to_string() }
}

fn strategy(count: i8) -> Strategy {
    Strategy { strategy_type: "bestOf".to_string(), count }
}

fn event(start: i64, kind: &str, slug: &str, match_id: Option<i64>) -> Event {
    Event {
        start_time: LolesportsDateTime(start),
        state: "unstarted".to_string(),
        event_type: kind.to_string(),
        block_name: None,
        league: league(slug),
        slug: String::new(),
        event_match: match_id.map(|id| Match { id: LolesportsId(id), teams: vec![], strategy: strategy(3) }),
    }
}

#[test]
fn matches_are_equal_by_match_id() {
    let a = event(1, "match", "lec", Some(7));
    let b = event(99, "match", "lck", Some(7));
    let c = event(1, "match", "lec", Some(8));
    assert!(a == b);
    assert!(a != c);
}

#[test]
fn shows_are_equal_by_start_type_and_league() {
    let a = event(1_000, "show", "lec", None);
    assert!(a == event(1_000, "show", "lec", None));
    assert!(a != event(1_001, "show", "lec", None));
    assert!(a != event(1_000, "match", "lec", None));
    assert!(a != event(1_000, "show", "lck", None));
}

#[test]
fn a_match_never_equals_a_show() {
    let m = event(1_000, "show", "lec", Some(3));
    let s = event(1_000, "show", "lec", None);
    assert!(m != s);
    assert!(s != m);
}

#[test]
fn event_equality_is_symmetric_and_transitive_on_examples() {
    let a = event(5, "show", "lec", None);
    let b = event(5, "show", "lec", None);
    let c = event(5, "show", "lec", None);
    assert!(a == a);
    assert_eq!(a == b, b == a);
    assert!(a == b && b == c && a == c);
}

#[test]
fn ids_parse_from_decimal_text() {
    assert_eq!(LolesportsId::from_api_str("98767991302996019"), Some(LolesportsId(98767991302996019)));
    assert_eq!(LolesportsId::from_api_str("-12"), Some(LolesportsId(-12)));
    assert_eq!(LolesportsId::from_api_str("+7"), Some(LolesportsId(7)));
    assert_eq!(LolesportsId::from_api_str("0"), Some(LolesportsId(0)));
}

#[test]
fn ids_reject_other_text() {
    assert_eq!(LolesportsId::from_api_str(""), None);
    assert_eq!(LolesportsId::from_api_str("-"), None);
    assert_eq!(LolesportsId::from_api_str("12a"), None);
    assert_eq!(LolesportsId::from_api_str(" 12"), None);
    assert_eq!(LolesportsId::from_api_str("1_000"), None);
    assert_eq!(LolesportsId::from_api_str("9223372036854775808"), None);
    assert_eq!(LolesportsId::from_api_str("9223372036854775807"), Some(LolesportsId(i64::MAX)));
    assert_eq!(LolesportsId::from_api_str("-9223372036854775808"), Some(LolesportsId(i64::MIN)));
}

#[test]
fn instants_parse_in_the_api_format() {
    assert_eq!(
        LolesportsDateTime::from_api_str("2023-04-04T17:00:00.000Z"),
        Some(LolesportsDateTime(1_680_627_600_000))
    );
    assert_eq!(
        LolesportsDateTime::from_api_str("1970-01-01T00:00:01.250Z"),
        Some(LolesportsDateTime(1_250))
    );
}

#[test]
fn instants_reject_other_formats() {
    assert_eq!(LolesportsDateTime::from_api_str("2023-04-04 17:00:00"), None);
    assert_eq!(LolesportsDateTime::from_api_str("not a date"), None);
    assert_eq!(LolesportsDateTime::from_api_str(""), None);
}

#[test]
fn id_converts_to_its_integer() {
    assert_eq!(i64::from(LolesportsId(42)), 42);
    let v: i64 = LolesportsId(-3).into();
    assert_eq!(v, -3);
}

fn details(id: i64, state: Option<&str>) -> EventDetails {
    EventDetails {
        id: LolesportsId(id),
        event_type: "match".to_string(),
        tournament: EventDetailTournament { id: LolesportsId(100) },
        league: league("lec"),
        event_match: Some(EventDetailMatch {
            teams: vec![TeamEvent {
                name: "G2".to_string(),
                code: "G2".to_string(),
                image: "g2.png".to_string(),
                result: Some(MatchTeamResult { outcome: None, game_wins: 1 }),
            }],
            strategy: strategy(3),
            games: vec![],
        }),
        start_time: Some(LolesportsDateTime(10)),
        state: state.map(|s| s.to_string()),
        blockname: None,
        streams: vec![Stream {
            parameter: "p".to_string(),
            locale: "en-US".to_string(),
            media_locale: MediaLocale {
                locale: "en-US".to_string(),
                english_name: "English".to_string(),
                translated_name: "English".to_string(),
            },
            provider: "twitch".to_string(),
        }],
    }
}

#[test]
fn deep_copies_compare_equal() {
    let d = details(1, Some("inProgress"));
    let c = d.deep_clone();
    assert_eq!(c, d);
    assert!(c.deep_eq(&d));
}

#[test]
fn deep_comparison_sees_nested_differences() {
    let d = details(1, Some("inProgress"));
    let mut e = d.deep_clone();
    e.streams[0].media_locale.english_name = "French".to_string();
    assert!(!d.deep_eq(&e));
    let mut f = d.deep_clone();
    f.event_match.as_mut().unwrap().teams[0].result = None;
    assert!(!d.deep_eq(&f));
    assert!(!d.deep_eq(&details(1, None)));
}
