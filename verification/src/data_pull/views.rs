//! Deep views of the event records: every string is its sequence of
//! characters and every vector the sequence of the views of its items, so that
//! two records with the same view hold the same data.
use vstd::prelude::*;
use crate::deep::{DeepClone, DeepEq};
use super::serde_models::{
    EventDetailMatch, EventDetailTournament, EventDetails, Game, LolesportsDateTime, LolesportsId,
    MatchTeamResult, MediaLocale, ScheduleLeague, Strategy, Stream, TeamEvent, TeamSide, Vod,
};

verus! {

impl DeepView for LolesportsId {
    type V = LolesportsId;

    open spec fn deep_view(&self) -> LolesportsId {
        *self
    }
}

impl DeepEq for LolesportsId {
    fn deep_eq(&self, other: &Self) -> (r: bool) {
        self.0 == other.0
    }
}

impl DeepClone for LolesportsId {
    fn deep_clone(&self) -> (r: Self) {
        *self
    }
}

impl DeepView for LolesportsDateTime {
    type V = LolesportsDateTime;

    open spec fn deep_view(&self) -> LolesportsDateTime {
        *self
    }
}

impl DeepEq for LolesportsDateTime {
    fn deep_eq(&self, other: &Self) -> (r: bool) {
        self.0 == other.0
    }
}

impl DeepClone for LolesportsDateTime {
    fn deep_clone(&self) -> (r: Self) {
        *self
    }
}

impl DeepView for EventDetailTournament {
    type V = EventDetailTournament;

    open spec fn deep_view(&self) -> EventDetailTournament {
        *self
    }
}

impl DeepEq for EventDetailTournament {
    fn deep_eq(&self, other: &Self) -> (r: bool) {
        self.id.0 == other.id.0
    }
}

impl DeepClone for EventDetailTournament {
    fn deep_clone(&self) -> (r: Self) {
        *self
    }
}

pub struct MediaLocaleView {
    pub locale: Seq<char>,
    pub english_name: Seq<char>,
    pub translated_name: Seq<char>,
}

impl DeepView for MediaLocale {
    type V = MediaLocaleView;

    open spec fn deep_view(&self) -> MediaLocaleView {
        MediaLocaleView {
            locale: self.locale@,
            english_name: self.english_name@,
            translated_name: self.translated_name@,
        }
    }
}

impl DeepEq for MediaLocale {
    fn deep_eq(&self, other: &Self) -> (r: bool) {
        self.locale.deep_eq(&other.locale) && self.english_name.deep_eq(&other.english_name)
            && self.translated_name.deep_eq(&other.translated_name)
    }
}

impl DeepClone for MediaLocale {
    fn deep_clone(&self) -> (r: Self) {
        MediaLocale {
            locale: self.locale.deep_clone(),
            english_name: self.english_name.deep_clone(),
            translated_name: self.translated_name.deep_clone(),
        }
    }
}

pub struct StreamView {
    pub parameter: Seq<char>,
    pub locale: Seq<char>,
    pub media_locale: MediaLocaleView,
    pub provider: Seq<char>,
}

impl DeepView for Stream {
    type V = StreamView;

    open spec fn deep_view(&self) -> StreamView {
        StreamView {
            parameter: self.parameter@,
            locale: self.locale@,
            media_locale: self.media_locale.deep_view(),
            provider: self.provider@,
        }
    }
}

impl DeepEq for Stream {
    fn deep_eq(&self, other: &Self) -> (r: bool) {
        self.parameter.deep_eq(&other.parameter) && self.locale.deep_eq(&other.locale)
            && self.media_locale.deep_eq(&other.media_locale) && self.provider.deep_eq(
            &other.provider,
        )
    }
}

impl DeepClone for Stream {
    fn deep_clone(&self) -> (r: Self) {
        Stream {
            parameter: self.parameter.deep_clone(),
            locale: self.locale.deep_clone(),
            media_locale: self.media_locale.deep_clone(),
            provider: self.provider.deep_clone(),
        }
    }
}

pub struct TeamSideView {
    pub id: Seq<char>,
    pub side: Seq<char>,
}

impl DeepView for TeamSide {
    type V = TeamSideView;

    open spec fn deep_view(&self) -> TeamSideView {
        TeamSideView { id: self.id@, side: self.side@ }
    }
}

impl DeepEq for TeamSide {
    fn deep_eq(&self, other: &Self) -> (r: bool) {
        self.id.deep_eq(&other.id) && self.side.deep_eq(&other.side)
    }
}

impl DeepClone for TeamSide {
    fn deep_clone(&self) -> (r: Self) {
        TeamSide { id: self.id.deep_clone(), side: self.side.deep_clone() }
    }
}

pub struct VodView {
    pub id: Seq<char>,
    pub parameter: Seq<char>,
    pub locale: Seq<char>,
    pub media_locale: MediaLocaleView,
    pub provider: Seq<char>,
    pub offset: i32,
    pub first_frame_time: Seq<char>,
    pub start_millis: Option<i64>,
    pub end_millis: Option<i64>,
}

impl DeepView for Vod {
    type V = VodView;

    open spec fn deep_view(&self) -> VodView {
        VodView {
            id: self.id@,
            parameter: self.parameter@,
            locale: self.locale@,
            media_locale: self.media_locale.deep_view(),
            provider: self.provider@,
            offset: self.offset,
            first_frame_time: self.first_frame_time@,
            start_millis: self.start_millis,
            end_millis: self.end_millis,
        }
    }
}

impl DeepEq for Vod {
    fn deep_eq(&self, other: &Self) -> (r: bool) {
        self.id.deep_eq(&other.id) && self.parameter.deep_eq(&other.parameter)
            && self.locale.deep_eq(&other.locale) && self.media_locale.deep_eq(
            &other.media_locale,
        ) && self.provider.deep_eq(&other.provider) && self.offset == other.offset
            && self.first_frame_time.deep_eq(&other.first_frame_time)
            && self.start_millis.deep_eq(&other.start_millis) && self.end_millis.deep_eq(
            &other.end_millis,
        )
    }
}

impl DeepClone for Vod {
    fn deep_clone(&self) -> (r: Self) {
        Vod {
            id: self.id.deep_clone(),
            parameter: self.parameter.deep_clone(),
            locale: self.locale.deep_clone(),
            media_locale: self.media_locale.deep_clone(),
            provider: self.provider.deep_clone(),
            offset: self.offset,
            first_frame_time: self.first_frame_time.deep_clone(),
            start_millis: self.start_millis,
            end_millis: self.end_millis,
        }
    }
}

pub struct GameView {
    pub number: i32,
    pub id: Seq<char>,
    pub state: Seq<char>,
    pub teams: Seq<TeamSideView>,
    pub vods: Seq<VodView>,
}

impl DeepView for Game {
    type V = GameView;

    open spec fn deep_view(&self) -> GameView {
        GameView {
            number: self.number,
            id: self.id@,
            state: self.state@,
            teams: self.teams.deep_view(),
            vods: self.vods.deep_view(),
        }
    }
}

impl DeepEq for Game {
    fn deep_eq(&self, other: &Self) -> (r: bool) {
        self.number == other.number && self.id.deep_eq(&other.id) && self.state.deep_eq(
            &other.state,
        ) && self.teams.deep_eq(&other.teams) && self.vods.deep_eq(&other.vods)
    }
}

impl DeepClone for Game {
    fn deep_clone(&self) -> (r: Self) {
        Game {
            number: self.number,
            id: self.id.deep_clone(),
            state: self.state.deep_clone(),
            teams: self.teams.deep_clone(),
            vods: self.vods.deep_clone(),
        }
    }
}

pub struct MatchTeamResultView {
    pub outcome: Option<Seq<char>>,
    pub game_wins: i8,
}

impl DeepView for MatchTeamResult {
    type V = MatchTeamResultView;

    open spec fn deep_view(&self) -> MatchTeamResultView {
        MatchTeamResultView { outcome: self.outcome.deep_view(), game_wins: self.game_wins }
    }
}

impl DeepEq for MatchTeamResult {
    fn deep_eq(&self, other: &Self) -> (r: bool) {
        self.outcome.deep_eq(&other.outcome) && self.game_wins == other.game_wins
    }
}

impl DeepClone for MatchTeamResult {
    fn deep_clone(&self) -> (r: Self) {
        MatchTeamResult { outcome: self.outcome.deep_clone(), game_wins: self.game_wins }
    }
}

pub struct TeamEventView {
    pub name: Seq<char>,
    pub code: Seq<char>,
    pub image: Seq<char>,
    pub result: Option<MatchTeamResultView>,
}

impl DeepView for TeamEvent {
    type V = TeamEventView;

    open spec fn deep_view(&self) -> TeamEventView {
        TeamEventView {
            name: self.name@,
            code: self.code@,
            image: self.image@,
            result: self.result.deep_view(),
        }
    }
}

impl DeepEq for TeamEvent {
    fn deep_eq(&self, other: &Self) -> (r: bool) {
        self.name.deep_eq(&other.name) && self.code.deep_eq(&other.code) && self.image.deep_eq(
            &other.image,
        ) && self.result.deep_eq(&other.result)
    }
}

impl DeepClone for TeamEvent {
    fn deep_clone(&self) -> (r: Self) {
        TeamEvent {
            name: self.name.deep_clone(),
            code: self.code.deep_clone(),
            image: self.image.deep_clone(),
            result: self.result.deep_clone(),
        }
    }
}

pub struct StrategyView {
    pub strategy_type: Seq<char>,
    pub count: i8,
}

impl DeepView for Strategy {
    type V = StrategyView;

    open spec fn deep_view(&self) -> StrategyView {
        StrategyView { strategy_type: self.strategy_type@, count: self.count }
    }
}

impl DeepEq for Strategy {
    fn deep_eq(&self, other: &Self) -> (r: bool) {
        self.strategy_type.deep_eq(&other.strategy_type) && self.count == other.count
    }
}

impl DeepClone for Strategy {
    fn deep_clone(&self) -> (r: Self) {
        Strategy { strategy_type: self.strategy_type.deep_clone(), count: self.count }
    }
}

pub struct EventDetailMatchView {
    pub teams: Seq<TeamEventView>,
    pub strategy: StrategyView,
    pub games: Seq<GameView>,
}

impl DeepView for EventDetailMatch {
    type V = EventDetailMatchView;

    open spec fn deep_view(&self) -> EventDetailMatchView {
        EventDetailMatchView {
            teams: self.teams.deep_view(),
            strategy: self.strategy.deep_view(),
            games: self.games.deep_view(),
        }
    }
}

impl DeepEq for EventDetailMatch {
    fn deep_eq(&self, other: &Self) -> (r: bool) {
        self.teams.deep_eq(&other.teams) && self.strategy.deep_eq(&other.strategy)
            && self.games.deep_eq(&other.games)
    }
}

impl DeepClone for EventDetailMatch {
    fn deep_clone(&self) -> (r: Self) {
        EventDetailMatch {
            teams: self.teams.deep_clone(),
            strategy: self.strategy.deep_clone(),
            games: self.games.deep_clone(),
        }
    }
}

pub struct ScheduleLeagueView {
    pub league_id: LolesportsId,
    pub name: Seq<char>,
    pub slug: Seq<char>,
}

impl DeepView for ScheduleLeague {
    type V = ScheduleLeagueView;

    open spec fn deep_view(&self) -> ScheduleLeagueView {
        ScheduleLeagueView { league_id: self.league_id, name: self.name@, slug: self.slug@ }
    }
}

impl DeepEq for ScheduleLeague {
    fn deep_eq(&self, other: &Self) -> (r: bool) {
        self.league_id.0 == other.league_id.0 && self.name.deep_eq(&other.name)
            && self.slug.deep_eq(&other.slug)
    }
}

impl DeepClone for ScheduleLeague {
    fn deep_clone(&self) -> (r: Self) {
        ScheduleLeague {
            league_id: self.league_id,
            name: self.name.deep_clone(),
            slug: self.slug.deep_clone(),
        }
    }
}

pub struct EventDetailsView {
    pub id: LolesportsId,
    pub event_type: Seq<char>,
    pub tournament: EventDetailTournament,
    pub league: ScheduleLeagueView,
    pub event_match: Option<EventDetailMatchView>,
    pub start_time: Option<LolesportsDateTime>,
    pub state: Option<Seq<char>>,
    pub blockname: Option<Seq<char>>,
    pub streams: Seq<StreamView>,
}

impl DeepView for EventDetails {
    type V = EventDetailsView;

    open spec fn deep_view(&self) -> EventDetailsView {
        EventDetailsView {
            id: self.id,
            event_type: self.event_type@,
            tournament: self.tournament,
            league: self.league.deep_view(),
            event_match: self.event_match.deep_view(),
            start_time: self.start_time,
            state: self.state.deep_view(),
            blockname: self.blockname.deep_view(),
            streams: self.streams.deep_view(),
        }
    }
}

impl DeepEq for EventDetails {
    fn deep_eq(&self, other: &Self) -> (r: bool) {
        self.id.0 == other.id.0 && self.event_type.deep_eq(&other.event_type)
            && self.tournament.id.0 == other.tournament.id.0 && self.league.deep_eq(
            &other.league,
        ) && self.event_match.deep_eq(&other.event_match) && self.start_time.deep_eq(
            &other.start_time,
        ) && self.state.deep_eq(&other.state) && self.blockname.deep_eq(&other.blockname)
            && self.streams.deep_eq(&other.streams)
    }
}

impl DeepClone for EventDetails {
    fn deep_clone(&self) -> (r: Self) {
        EventDetails {
            id: self.id,
            event_type: self.event_type.deep_clone(),
            tournament: self.tournament,
            league: self.league.deep_clone(),
            event_match: self.event_match.deep_clone(),
            start_time: self.start_time,
            state: self.state.deep_clone(),
            blockname: self.blockname.deep_clone(),
            streams: self.streams.deep_clone(),
        }
    }
}

/// Two records have the same deep view exactly when every field of one has
/// the same characters, value or deep view as that field of the other: the
/// comparison by deep views misses no difference in any field.
pub proof fn lemma_media_locale_view_is_its_data(a: MediaLocale, b: MediaLocale)
    ensures
        a.deep_view() == b.deep_view() <==> (a.locale@ == b.locale@
            && a.english_name@ == b.english_name@
            && a.translated_name@ == b.translated_name@),
{
}

/// Two records have the same deep view exactly when every field of one has
/// the same characters, value or deep view as that field of the other: the
/// comparison by deep views misses no difference in any field.
pub proof fn lemma_stream_view_is_its_data(a: Stream, b: Stream)
    ensures
        a.deep_view() == b.deep_view() <==> (a.parameter@ == b.parameter@
            && a.locale@ == b.locale@
            && a.media_locale.deep_view() == b.media_locale.deep_view()
            && a.provider@ == b.provider@),
{
}

/// Two records have the same deep view exactly when every field of one has
/// the same characters, value or deep view as that field of the other: the
/// comparison by deep views misses no difference in any field.
pub proof fn lemma_team_side_view_is_its_data(a: TeamSide, b: TeamSide)
    ensures
        a.deep_view() == b.deep_view() <==> (a.id@ == b.id@
            && a.side@ == b.side@),
{
}

/// Two records have the same deep view exactly when every field of one has
/// the same characters, value or deep view as that field of the other: the
/// comparison by deep views misses no difference in any field.
pub proof fn lemma_vod_view_is_its_data(a: Vod, b: Vod)
    ensures
        a.deep_view() == b.deep_view() <==> (a.id@ == b.id@
            && a.parameter@ == b.parameter@
            && a.locale@ == b.locale@
            && a.media_locale.deep_view() == b.media_locale.deep_view()
            && a.provider@ == b.provider@
            && a.offset == b.offset
            && a.first_frame_time@ == b.first_frame_time@
            && a.start_millis == b.start_millis
            && a.end_millis == b.end_millis),
{
}

/// Two records have the same deep view exactly when every field of one has
/// the same characters, value or deep view as that field of the other: the
/// comparison by deep views misses no difference in any field.
pub proof fn lemma_game_view_is_its_data(a: Game, b: Game)
    ensures
        a.deep_view() == b.deep_view() <==> (a.number == b.number
            && a.id@ == b.id@
            && a.state@ == b.state@
            && a.teams.deep_view() == b.teams.deep_view()
            && a.vods.deep_view() == b.vods.deep_view()),
{
}

/// Two records have the same deep view exactly when every field of one has
/// the same characters, value or deep view as that field of the other: the
/// comparison by deep views misses no difference in any field.
pub proof fn lemma_match_team_result_view_is_its_data(a: MatchTeamResult, b: MatchTeamResult)
    ensures
        a.deep_view() == b.deep_view() <==> (a.outcome.deep_view() == b.outcome.deep_view()
            && a.game_wins == b.game_wins),
{
}

/// Two records have the same deep view exactly when every field of one has
/// the same characters, value or deep view as that field of the other: the
/// comparison by deep views misses no difference in any field.
pub proof fn lemma_team_event_view_is_its_data(a: TeamEvent, b: TeamEvent)
    ensures
        a.deep_view() == b.deep_view() <==> (a.name@ == b.name@
            && a.code@ == b.code@
            && a.image@ == b.image@
            && a.result.deep_view() == b.result.deep_view()),
{
}

/// Two records have the same deep view exactly when every field of one has
/// the same characters, value or deep view as that field of the other: the
/// comparison by deep views misses no difference in any field.
pub proof fn lemma_strategy_view_is_its_data(a: Strategy, b: Strategy)
    ensures
        a.deep_view() == b.deep_view() <==> (a.strategy_type@ == b.strategy_type@
            && a.count == b.count),
{
}

/// Two records have the same deep view exactly when every field of one has
/// the same characters, value or deep view as that field of the other: the
/// comparison by deep views misses no difference in any field.
pub proof fn lemma_event_detail_match_view_is_its_data(a: EventDetailMatch, b: EventDetailMatch)
    ensures
        a.deep_view() == b.deep_view() <==> (a.teams.deep_view() == b.teams.deep_view()
            && a.strategy.deep_view() == b.strategy.deep_view()
            && a.games.deep_view() == b.games.deep_view()),
{
}

/// Two records have the same deep view exactly when every field of one has
/// the same characters, value or deep view as that field of the other: the
/// comparison by deep views misses no difference in any field.
pub proof fn lemma_schedule_league_view_is_its_data(a: ScheduleLeague, b: ScheduleLeague)
    ensures
        a.deep_view() == b.deep_view() <==> (a.league_id == b.league_id
            && a.name@ == b.name@
            && a.slug@ == b.slug@),
{
}

/// Two records have the same deep view exactly when every field of one has
/// the same characters, value or deep view as that field of the other: the
/// comparison by deep views misses no difference in any field.
pub proof fn lemma_event_details_view_is_its_data(a: EventDetails, b: EventDetails)
    ensures
        a.deep_view() == b.deep_view() <==> (a.id == b.id
            && a.event_type@ == b.event_type@
            && a.tournament == b.tournament
            && a.league.deep_view() == b.league.deep_view()
            && a.event_match.deep_view() == b.event_match.deep_view()
            && a.start_time == b.start_time
            && a.state.deep_view() == b.state.deep_view()
            && a.blockname.deep_view() == b.blockname.deep_view()
            && a.streams.deep_view() == b.streams.deep_view()),
{
}

} // verus!
