//! Records of the esports API, as plain values.
//!
//! Identifiers are decimal strings in the API and integers here; instants are
//! held as milliseconds since the Unix epoch (UTC) and calendar dates as their
//! year, month and day.
use vstd::prelude::*;
use vstd::std_specs::cmp::PartialEqSpecImpl;

verus! {

/// The envelope `{ "data": ... }` of every API answer.
pub struct Wrapper<T> {
    pub data: T,
}

/// An identifier of the esports API.
#[derive(Debug, Clone, Copy, PartialEq, Eq, Structural, Default)]
pub struct LolesportsId(pub i64);

/// An instant of the esports API, in milliseconds since the Unix epoch (UTC).
#[derive(Debug, Clone, Copy, PartialEq, Eq, Structural, Default)]
pub struct LolesportsDateTime(pub i64);

/// A calendar date.
#[derive(Debug, Clone, Copy, PartialEq, Eq, Structural)]
pub struct CalendarDate {
    pub year: i32,
    pub month: u32,
    pub day: u32,
}

#[derive(Debug, Clone, PartialEq)]
pub struct Leagues {
    pub leagues: Vec<League>,
}

#[derive(Debug, Clone, PartialEq)]
pub struct League {
    pub id: LolesportsId,
    pub slug: String,
    pub name: String,
    pub region: String,
    pub image: String,
}

#[derive(Debug, Clone, PartialEq)]
pub struct LeagueForTournaments {
    pub leagues: Vec<Tournaments>,
}

#[derive(Debug, Clone, PartialEq)]
pub struct Tournaments {
    pub tournaments: Vec<Tournament>,
}

#[derive(Debug, Clone, PartialEq)]
pub struct Tournament {
    pub id: LolesportsId,
    pub slug: String,
    pub start_date: CalendarDate,
    pub end_date: CalendarDate,
    /// Not sent by the API: the league the tournament was fetched for.
    pub league_id: LolesportsId,
}

#[derive(Debug, Clone, PartialEq)]
pub struct Player {
    pub id: LolesportsId,
    pub first_name: String,
    pub last_name: String,
    pub summoner_name: String,
    pub image: Option<String>,
    pub role: String,
}

#[derive(Debug, Clone, PartialEq)]
pub struct TeamsPlayers {
    pub teams: Vec<Team>,
}

#[derive(Debug, Clone, PartialEq)]
pub struct Team {
    pub id: LolesportsId,
    pub name: String,
    pub slug: String,
    pub code: String,
    pub image: String,
    pub alternative_image: Option<String>,
    pub background_image: Option<String>,
    pub status: String,
    pub players: Vec<Player>,
    pub home_league: Option<HomeLeague>,
}

#[derive(Debug, Clone, PartialEq)]
pub struct HomeLeague {
    /// Not sent by the API: resolved from the league's name.
    pub league_id: LolesportsId,
    pub name: String,
    pub region: String,
}

#[derive(Debug, Clone, PartialEq)]
pub struct EventOutter {
    pub event: EventDetails,
}

/// A live event, or the details of one event.
#[derive(Debug, Clone, PartialEq)]
pub struct EventDetails {
    pub id: LolesportsId,
    pub event_type: String,
    pub tournament: EventDetailTournament,
    pub league: ScheduleLeague,
    pub event_match: Option<EventDetailMatch>,
    pub start_time: Option<LolesportsDateTime>,
    pub state: Option<String>,
    pub blockname: Option<String>,
    pub streams: Vec<Stream>,
}

#[derive(Debug, Clone, PartialEq)]
pub struct LiveScheduleOutter {
    pub schedule: LiveSchedule,
}

#[derive(Debug, Clone, PartialEq)]
pub struct LiveSchedule {
    pub events: Vec<EventDetails>,
}

#[derive(Debug, Clone, PartialEq)]
pub struct ScheduleOutter {
    pub schedule: Schedule,
}

/// One page of the schedule.
#[derive(Debug, Clone, PartialEq)]
pub struct Schedule {
    pub pages: Pages,
    pub events: Vec<Event>,
}

/// The tokens of the neighbouring pages of a schedule page.
#[derive(Debug, Clone, PartialEq, Default)]
pub struct Pages {
    pub older: Option<String>,
    pub newer: Option<String>,
}

#[derive(Debug, Clone, PartialEq)]
pub struct ScheduleLeague {
    pub league_id: LolesportsId,
    pub name: String,
    pub slug: String,
}

/// An event of the schedule.
#[derive(Debug, Clone)]
pub struct Event {
    pub start_time: LolesportsDateTime,
    pub state: String,
    pub event_type: String,
    pub block_name: Option<String>,
    pub league: ScheduleLeague,
    pub slug: String,
    pub event_match: Option<Match>,
}

#[derive(Debug, Clone, PartialEq)]
pub struct Match {
    pub id: LolesportsId,
    pub teams: Vec<TeamEvent>,
    pub strategy: Strategy,
}

#[derive(Debug, Clone, Copy, PartialEq, Eq, Structural)]
pub struct EventDetailTournament {
    pub id: LolesportsId,
}

#[derive(Debug, Clone, PartialEq)]
pub struct EventDetailMatch {
    pub teams: Vec<TeamEvent>,
    pub strategy: Strategy,
    pub games: Vec<Game>,
}

#[derive(Debug, Clone, PartialEq)]
pub struct Game {
    pub number: i32,
    pub id: String,
    pub state: String,
    pub teams: Vec<TeamSide>,
    pub vods: Vec<Vod>,
}

#[derive(Debug, Clone, PartialEq)]
pub struct TeamSide {
    pub id: String,
    pub side: String,
}

#[derive(Debug, Clone, PartialEq)]
pub struct Vod {
    pub id: String,
    pub parameter: String,
    pub locale: String,
    pub media_locale: MediaLocale,
    pub provider: String,
    pub offset: i32,
    pub first_frame_time: String,
    pub start_millis: Option<i64>,
    pub end_millis: Option<i64>,
}

#[derive(Debug, Clone, PartialEq)]
pub struct MediaLocale {
    pub locale: String,
    pub english_name: String,
    pub translated_name: String,
}

/// A stream of a live event.
#[derive(Debug, Clone, PartialEq)]
pub struct Stream {
    pub parameter: String,
    pub locale: String,
    pub media_locale: MediaLocale,
    pub provider: String,
}

#[derive(Debug, Clone, PartialEq)]
pub struct TeamEvent {
    pub name: String,
    pub code: String,
    pub image: String,
    pub result: Option<MatchTeamResult>,
}

#[derive(Debug, Clone, PartialEq)]
pub struct MatchTeamResult {
    pub outcome: Option<String>,
    pub game_wins: i8,
}

#[derive(Debug, Clone, PartialEq)]
pub struct Strategy {
    pub strategy_type: String,
    pub count: i8,
}

/// When two schedule events denote the same event: two matches are the same
/// when their match ids agree; two events without a match (shows) are the same
/// when their start, type and league slug agree; a match is never a show.
pub open spec fn same_schedule_event(a: Event, b: Event) -> bool {
    match (a.event_match, b.event_match) {
        (Some(ma), Some(mb)) => mb.id.0 == ma.id.0,
        (None, None) => {
            &&& a.start_time.0 == b.start_time.0
            &&& a.event_type@ == b.event_type@
            &&& a.league.slug@ == b.league.slug@
        },
        _ => false,
    }
}

impl PartialEq for Event {
    fn eq(&self, other: &Self) -> (r: bool) {
        match (&self.event_match, &other.event_match) {
            (Some(self_match), Some(other_match)) => other_match.id.0 == self_match.id.0,
            (None, None) => {
                self.start_time.0 == other.start_time.0 && self.event_type == other.event_type
                    && self.league.slug == other.league.slug
            },
            _ => false,
        }
    }
}

impl PartialEqSpecImpl for Event {
    open spec fn obeys_eq_spec() -> bool {
        true
    }

    open spec fn eq_spec(&self, other: &Event) -> bool {
        same_schedule_event(*self, *other)
    }
}

/// What schedule-event equality looks at: a match equals only a match, and
/// two matches are equal exactly when their match ids are; two events without
/// a match are equal exactly when their start, type and league slug are.
pub proof fn lemma_same_schedule_event_fields(a: Event, b: Event)
    ensures
        same_schedule_event(a, b) ==> (a.event_match is Some <==> b.event_match is Some),
        a.event_match is Some && b.event_match is Some ==> (same_schedule_event(a, b) <==> a.event_match->0.id
            == b.event_match->0.id),
        a.event_match is None && b.event_match is None ==> (same_schedule_event(a, b) <==> (
        a.start_time == b.start_time && a.event_type@ == b.event_type@ && a.league.slug@
            == b.league.slug@)),
{
}

/// Schedule events are compared by an equivalence relation: it is reflexive,
/// symmetric and transitive.
pub proof fn lemma_same_schedule_event_is_equivalence(a: Event, b: Event, c: Event)
    ensures
        same_schedule_event(a, a),
        same_schedule_event(a, b) == same_schedule_event(b, a),
        same_schedule_event(a, b) && same_schedule_event(b, c) ==> same_schedule_event(a, c),
{
}

} // verus!
