//! The calls of the API: for each of them the request to send, and for
//! those that need it what to make of the answer.

use vstd::prelude::*;
use vstd::string::*;
use crate::config::{duration_of_secs, ClientConfig, DEFAULT_TIMEOUT_SECS};
use crate::date::GameDate;
use crate::error::NHLApiError;
use crate::http_client::{
    joined_url, Endpoint, HttpClient, RedirectPolicy, Request, MAX_REDIRECTS,
};
use crate::ids::GameId;
use crate::query::QueryParams;
use crate::text::{decimal, i64_to_string, str_eq};
use crate::types::common::Team;
use crate::types::schedule::{DailySchedule, GameDay, ScheduleGame, WeeklyScheduleResponse};
use crate::types::standings::{SeasonInfo, StandingsResponse};

verus! {

/// True when `request` asks `endpoint` for `resource`.
pub open spec fn asks_for(request: Request, endpoint: Endpoint, resource: Seq<char>) -> bool {
    &&& request.url@ == joined_url(endpoint.base_url_text(), resource)
    &&& request.resource@ == resource
}

/// True when `request` asks `endpoint` for `resource` and has no query.
pub open spec fn asks_plainly_for(request: Request, endpoint: Endpoint, resource: Seq<char>)
    -> bool {
    asks_for(request, endpoint, resource) && request.query is None
}

/// The number of results that a search asks for when no limit is given.
pub const DEFAULT_SEARCH_LIMIT: i32 = 20;

/// The filter of the shift chart of the game `game_id`: its shifts, and of
/// its goals only those that have a duration.
pub open spec fn shift_filter(game_id: int) -> Seq<char> {
    "gameId="@ + decimal(game_id)
        + " and ((duration != '00:00' and typeCode = 517) or typeCode != 517 )"@
}

/// The position of the first season of `seasons` with the identifier
/// `season_id`, if there is one.
pub open spec fn season_position(seasons: Seq<SeasonInfo>, season_id: i64) -> Option<int>
    decreases seasons.len(),
{
    if seasons.len() == 0 {
        None
    } else {
        match season_position(seasons.drop_last(), season_id) {
            Some(i) => Some(i),
            None => if seasons.last().id == season_id {
                Some(seasons.len() - 1)
            } else {
                None
            },
        }
    }
}

/// What [`season_position`] finds: the first season with that identifier,
/// or nothing where no season has it.
pub proof fn lemma_season_position(seasons: Seq<SeasonInfo>, season_id: i64)
    ensures
        match season_position(seasons, season_id) {
            Some(i) => 0 <= i < seasons.len() && seasons[i].id == season_id && forall|j: int|
                0 <= j < i ==> seasons[j].id != season_id,
            None => forall|j: int| 0 <= j < seasons.len() ==> seasons[j].id != season_id,
        },
    decreases seasons.len(),
{
    if seasons.len() > 0 {
        let init = seasons.drop_last();
        lemma_season_position(init, season_id);
        assert forall|j: int| 0 <= j < init.len() implies #[trigger] seasons[j].id
            == init[j].id by {}
    }
}

/// The position of the first day of `days` with the date `date`, if there
/// is one.
pub open spec fn day_position(days: Seq<GameDay>, date: Seq<char>) -> Option<int>
    decreases days.len(),
{
    if days.len() == 0 {
        None
    } else {
        match day_position(days.drop_last(), date) {
            Some(i) => Some(i),
            None => if days.last().date@ == date {
                Some(days.len() - 1)
            } else {
                None
            },
        }
    }
}

/// What [`day_position`] finds: the first day with that date, or nothing
/// where no day has it.
pub proof fn lemma_day_position(days: Seq<GameDay>, date: Seq<char>)
    ensures
        match day_position(days, date) {
            Some(i) => 0 <= i < days.len() && days[i].date@ == date && forall|j: int|
                0 <= j < i ==> days[j].date@ != date,
            None => forall|j: int| 0 <= j < days.len() ==> days[j].date@ != date,
        },
    decreases days.len(),
{
    if days.len() > 0 {
        let init = days.drop_last();
        lemma_day_position(init, date);
        assert forall|j: int| 0 <= j < init.len() implies #[trigger] days[j].date@
            == init[j].date@ by {}
    }
}

/// The games of the day `date` in the week `days`: those of the first day
/// with that date, and none where the week has no such day.
pub open spec fn games_on(days: Seq<GameDay>, date: Seq<char>) -> Seq<ScheduleGame> {
    match day_position(days, date) {
        Some(i) => days[i].games@,
        None => Seq::<ScheduleGame>::empty(),
    }
}

/// The calls of the API. A client says what to request; it sends nothing.
#[derive(Debug, Clone)]
pub struct Client {
    client: HttpClient,
}

impl Client {
    /// The transport settings and exchange rules of this client.
    pub closed spec fn spec_http(self) -> HttpClient {
        self.client
    }

    /// A client with the default configuration.
    pub fn new() -> (client: Client)
        ensures
            client.spec_http().spec_timeout() == duration_of_secs(DEFAULT_TIMEOUT_SECS),
            !client.spec_http().spec_accept_invalid_certs(),
            client.spec_http().spec_redirect() == RedirectPolicy::Limited(MAX_REDIRECTS),
    {
        Client::with_config(ClientConfig::default())
    }

    /// A client with the given configuration.
    pub fn with_config(config: ClientConfig) -> (client: Client)
        ensures
            client.spec_http().spec_timeout() == config.timeout,
            client.spec_http().spec_accept_invalid_certs() == !config.ssl_verify,
            client.spec_http().spec_redirect() == if config.follow_redirects {
                RedirectPolicy::Limited(MAX_REDIRECTS)
            } else {
                RedirectPolicy::Stay
            },
    {
        Client { client: HttpClient::new(config) }
    }

    /// The transport settings and exchange rules of this client.
    pub fn http(&self) -> (http: &HttpClient)
        ensures
            *http == self.spec_http(),
    {
        &self.client
    }

    /// The date to ask for: the one given, or `Now` where none is given.
    pub fn resolve_date(&self, date: Option<GameDate>) -> (resolved: GameDate)
        ensures
            resolved == match date {
                Some(given) => given,
                None => GameDate::Now,
            },
    {
        match date {
            Some(given) => given,
            None => GameDate::Now,
        }
    }

    /// The date to ask for: the one given, or today as a given day where
    /// none is given.
    pub fn resolve_date_to_today(&self, date: Option<GameDate>) -> (resolved: GameDate)
        ensures
            date matches Some(given) ==> resolved == given,
            date is None ==> resolved is Date && resolved.is_valid(),
    {
        match date {
            Some(given) => given,
            None => GameDate::today(),
        }
    }

    /// A request without a query.
    fn plain(&self, endpoint: Endpoint, resource: &str) -> (request: Request)
        ensures
            asks_plainly_for(request, endpoint, resource@),
    {
        self.client.get_json(endpoint, resource, None)
    }

    /// The request for the standings of `date`, written as the API writes
    /// dates.
    pub fn fetch_standings_data(&self, date: &str) -> (request: Request)
        ensures
            asks_plainly_for(request, Endpoint::ApiWebV1, "standings/"@ + date@),
    {
        let resource = String::from_str("standings/").concat(date);
        self.plain(Endpoint::ApiWebV1, resource.as_str())
    }

    /// The request for the teams of the league on `date`, or now where no
    /// date is given. The answer is a set of standings;
    /// [`Client::teams_of`] makes the teams of it.
    pub fn teams(&self, date: Option<GameDate>) -> (request: Request)
        ensures
            asks_plainly_for(
                request,
                Endpoint::ApiWebV1,
                "standings/"@ + (match date {
                    Some(given) => given,
                    None => GameDate::Now,
                }).api_text(),
            ),
    {
        let date = self.resolve_date(date);
        self.fetch_standings_data(date.to_api_string().as_str())
    }

    /// The teams that `response` has standings for, one for each standing
    /// and in the same order.
    pub fn teams_of(response: &StandingsResponse) -> (teams: Vec<Team>)
        ensures
            teams.len() == response.standings.len(),
            forall|i: int| 0 <= i < teams.len() ==> response.standings[i].describes(#[trigger] teams[i]),
    {
        let mut teams: Vec<Team> = Vec::new();
        let mut i: usize = 0;
        while i < response.standings.len()
            invariant
                i <= response.standings.len(),
                teams.len() == i,
                forall|j: int| 0 <= j < i ==> response.standings[j].describes(#[trigger] teams[j]),
            decreases response.standings.len() - i,
        {
            teams.push(response.standings[i].to_team());
            i += 1;
        }
        teams
    }

    /// The request for the standings of the league now.
    pub fn current_league_standings(&self) -> (request: Request)
        ensures
            asks_plainly_for(request, Endpoint::ApiWebV1, "standings/"@ + GameDate::Now.api_text()),
    {
        self.league_standings_for_date(&GameDate::Now)
    }

    /// The request for the standings of the league on `date`.
    pub fn league_standings_for_date(&self, date: &GameDate) -> (request: Request)
        ensures
            asks_plainly_for(request, Endpoint::ApiWebV1, "standings/"@ + date.api_text()),
    {
        self.fetch_standings_data(date.to_api_string().as_str())
    }

    /// The request for the seasons that have standings.
    pub fn season_standing_manifest(&self) -> (request: Request)
        ensures
            asks_plainly_for(request, Endpoint::ApiWebV1, "standings-season"@),
    {
        self.plain(Endpoint::ApiWebV1, "standings-season")
    }

    /// The request for the final standings of the season `season_id`, which
    /// is looked up in `seasons`, the answer to
    /// [`Client::season_standing_manifest`]: the standings on the day on
    /// which those of the first season with that identifier end. Where no
    /// season has that identifier, the result is an error that names it.
    pub fn league_standings_for_season(&self, seasons: &Vec<SeasonInfo>, season_id: i64) -> (result:
        Result<Request, NHLApiError>)
        ensures
            match season_position(seasons@, season_id) {
                Some(i) => result matches Ok(request) && asks_plainly_for(
                    request,
                    Endpoint::ApiWebV1,
                    "standings/"@ + seasons[i].standings_end@,
                ),
                None => result matches Err(NHLApiError::Other(message)) && message@
                    == "Invalid Season Id "@ + decimal(season_id as int),
            },
    {
        let mut i: usize = 0;
        while i < seasons.len()
            invariant
                i <= seasons.len(),
                season_position(seasons@.take(i as int), season_id) is None,
            decreases seasons.len() - i,
        {
            assert(seasons@.take(i + 1).drop_last() =~= seasons@.take(i as int));
            if seasons[i].id == season_id {
                proof {
                    lemma_found_stays_found(seasons@, i as int, season_id);
                }
                return Ok(self.fetch_standings_data(seasons[i].standings_end.as_str()));
            }
            i += 1;
        }
        assert(seasons@.take(i as int) =~= seasons@);
        let id = i64_to_string(season_id);
        Err(NHLApiError::Other(String::from_str("Invalid Season Id ").concat(id.as_str())))
    }

    /// The request for the resource `resource` of the game center of the
    /// game `game_id`.
    pub fn fetch_gamecenter(&self, game_id: &GameId, resource: &str) -> (request: Request)
        ensures
            asks_plainly_for(
                request,
                Endpoint::ApiWebV1,
                "gamecenter/"@ + decimal(game_id@) + "/"@ + resource@,
            ),
    {
        let id = game_id.to_string();
        let path = String::from_str("gamecenter/").concat(id.as_str()).concat("/").concat(resource);
        self.plain(Endpoint::ApiWebV1, path.as_str())
    }

    /// The request for the boxscore of a game.
    pub fn boxscore(&self, game_id: &GameId) -> (request: Request)
        ensures
            asks_plainly_for(
                request,
                Endpoint::ApiWebV1,
                "gamecenter/"@ + decimal(game_id@) + "/"@ + "boxscore"@,
            ),
    {
        self.fetch_gamecenter(game_id, "boxscore")
    }

    /// The request for the play-by-play of a game.
    pub fn play_by_play(&self, game_id: &GameId) -> (request: Request)
        ensures
            asks_plainly_for(
                request,
                Endpoint::ApiWebV1,
                "gamecenter/"@ + decimal(game_id@) + "/"@ + "play-by-play"@,
            ),
    {
        self.fetch_gamecenter(game_id, "play-by-play")
    }

    /// The request for the landing page of a game: a summary with the
    /// scores by period, lighter than the play-by-play.
    pub fn landing(&self, game_id: &GameId) -> (request: Request)
        ensures
            asks_plainly_for(
                request,
                Endpoint::ApiWebV1,
                "gamecenter/"@ + decimal(game_id@) + "/"@ + "landing"@,
            ),
    {
        self.fetch_gamecenter(game_id, "landing")
    }

    /// The request for the season series of the two teams of a game.
    pub fn season_series(&self, game_id: &GameId) -> (request: Request)
        ensures
            asks_plainly_for(
                request,
                Endpoint::ApiWebV1,
                "gamecenter/"@ + decimal(game_id@) + "/"@ + "right-rail"@,
            ),
    {
        self.fetch_gamecenter(game_id, "right-rail")
    }

    /// The request for the story of a game.
    pub fn game_story(&self, game_id: &GameId) -> (request: Request)
        ensures
            asks_plainly_for(request, Endpoint::ApiWebV1, "wsc/game-story/"@ + decimal(game_id@)),
    {
        let id = game_id.to_string();
        let path = String::from_str("wsc/game-story/").concat(id.as_str());
        self.plain(Endpoint::ApiWebV1, path.as_str())
    }

    /// The request for the shift chart of a game. Its query filters the
    /// shifts of that game and leaves out the details of events.
    pub fn shift_chart(&self, game_id: &GameId) -> (request: Request)
        ensures
            asks_for(request, Endpoint::ApiStats, "en/shiftcharts"@),
            request.query matches Some(params) && params@ == Map::<
                Seq<char>,
                Seq<char>,
            >::empty().insert("cayenneExp"@, shift_filter(game_id@)).insert(
                "exclude"@,
                "eventDetails"@,
            ),
    {
        let id = game_id.to_string();
        let filter = String::from_str("gameId=").concat(id.as_str()).concat(
            " and ((duration != '00:00' and typeCode = 517) or typeCode != 517 )",
        );
        let mut params = QueryParams::new();
        params.insert(String::from_str("cayenneExp"), filter);
        params.insert(String::from_str("exclude"), String::from_str("eventDetails"));
        self.client.get_json(Endpoint::ApiStats, "en/shiftcharts", Some(params))
    }

    /// The request for the schedule of the week of `date_string`, a date
    /// written as the API writes dates.
    pub fn fetch_weekly_schedule(&self, date_string: &str) -> (request: Request)
        ensures
            asks_plainly_for(request, Endpoint::ApiWebV1, "schedule/"@ + date_string@),
    {
        let path = String::from_str("schedule/").concat(date_string);
        self.plain(Endpoint::ApiWebV1, path.as_str())
    }

    /// The schedule of the day `date_string` out of the schedule of a week:
    /// the games of the first day of the week with that date, or none where
    /// the week has no such day, with their number; and the dates that the
    /// week before and the week after begin with.
    pub fn extract_daily_schedule(
        &self,
        schedule_data: WeeklyScheduleResponse,
        date_string: String,
    ) -> (schedule: DailySchedule)
        ensures
            schedule.date == date_string,
            schedule.next_start_date == Some(schedule_data.next_start_date),
            schedule.previous_start_date == Some(schedule_data.previous_start_date),
            schedule.games@ == games_on(schedule_data.game_week@, date_string@),
            schedule.number_of_games == schedule.games.len(),
    {
        let mut week = schedule_data.game_week;
        let mut found: Option<usize> = None;
        let mut i: usize = 0;
        while i < week.len() && found.is_none()
            invariant
                i <= week.len(),
                week == schedule_data.game_week,
                found is None ==> day_position(week@.take(i as int), date_string@) is None,
                found matches Some(at) ==> at < week.len() && day_position(week@, date_string@)
                    == Some(at as int),
            decreases week.len() - i + (if found is None { 1int } else { 0int }),
        {
            assert(week@.take(i + 1).drop_last() =~= week@.take(i as int));
            if str_eq(week[i].date.as_str(), date_string.as_str()) {
                proof {
                    lemma_day_found_stays_found(week@, i as int, date_string@);
                }
                found = Some(i);
            } else {
                i += 1;
            }
        }
        let games = match found {
            Some(at) => week.swap_remove(at).games,
            None => {
                assert(week@.take(i as int) =~= week@);
                Vec::new()
            },
        };
        DailySchedule {
            next_start_date: Some(schedule_data.next_start_date),
            previous_start_date: Some(schedule_data.previous_start_date),
            date: date_string,
            number_of_games: games.len(),
            games,
        }
    }

    /// The request for the schedule of the day `date`, or of today where no
    /// date is given, and beside it that date as the API writes it. The
    /// answer is the schedule of a week; [`Client::extract_daily_schedule`]
    /// takes the day out of it.
    pub fn daily_schedule(&self, date: Option<GameDate>) -> (call: (Request, String))
        ensures
            asks_plainly_for(call.0, Endpoint::ApiWebV1, "schedule/"@ + call.1@),
            date matches Some(given) ==> call.1@ == given.api_text(),
            date is None ==> exists|today: GameDate|
                today is Date && today.is_valid() && call.1@ == #[trigger] today.api_text(),
    {
        let date = self.resolve_date_to_today(date);
        let date_string = date.to_api_string();
        let request = self.fetch_weekly_schedule(date_string.as_str());
        (request, date_string)
    }

    /// The request for the schedule of the week that begins on `date`, or
    /// now where no date is given.
    pub fn weekly_schedule(&self, date: Option<GameDate>) -> (request: Request)
        ensures
            asks_plainly_for(
                request,
                Endpoint::ApiWebV1,
                "schedule/"@ + (match date {
                    Some(given) => given,
                    None => GameDate::Now,
                }).api_text(),
            ),
    {
        let date = self.resolve_date(date);
        self.fetch_weekly_schedule(date.to_api_string().as_str())
    }

    /// The request for the profile of a player: biography, statistics and
    /// career.
    pub fn player_landing(&self, player_id: i64) -> (request: Request)
        ensures
            asks_plainly_for(
                request,
                Endpoint::ApiWebV1,
                "player/"@ + decimal(player_id as int) + "/landing"@,
            ),
    {
        let id = i64_to_string(player_id);
        let path = String::from_str("player/").concat(id.as_str()).concat("/landing");
        self.plain(Endpoint::ApiWebV1, path.as_str())
    }

    /// The request for the games of a player in one season, game by game.
    /// The season is written as its two years, such as 20232024; the game
    /// type is 2 for the regular season and 3 for the playoffs.
    pub fn player_game_log(&self, player_id: i64, season: i32, game_type: i32) -> (request: Request)
        ensures
            asks_plainly_for(
                request,
                Endpoint::ApiWebV1,
                "player/"@ + decimal(player_id as int) + "/game-log/"@ + decimal(season as int)
                    + "/"@ + decimal(game_type as int),
            ),
    {
        let id = i64_to_string(player_id);
        let season = i64_to_string(season as i64);
        let game_type = i64_to_string(game_type as i64);
        let path = String::from_str("player/").concat(id.as_str()).concat("/game-log/").concat(
            season.as_str(),
        ).concat("/").concat(game_type.as_str());
        self.plain(Endpoint::ApiWebV1, path.as_str())
    }

    /// The request for the players whose name matches `query`, at most
    /// `limit` of them, or [`DEFAULT_SEARCH_LIMIT`] where no limit is given.
    pub fn search_player(&self, query: &str, limit: Option<i32>) -> (request: Request)
        ensures
            asks_for(request, Endpoint::SearchV1, "search/player"@),
            request.query matches Some(params) && params@ == Map::<
                Seq<char>,
                Seq<char>,
            >::empty().insert("culture"@, "en-us"@).insert("q"@, query@).insert(
                "limit"@,
                decimal(
                    match limit {
                        Some(given) => given as int,
                        None => DEFAULT_SEARCH_LIMIT as int,
                    },
                ),
            ),
    {
        let limit: i32 = match limit {
            Some(given) => given,
            None => DEFAULT_SEARCH_LIMIT,
        };
        let mut params = QueryParams::new();
        params.insert(String::from_str("culture"), String::from_str("en-us"));
        params.insert(String::from_str("q"), String::from_str(query));
        params.insert(String::from_str("limit"), i64_to_string(limit as i64));
        self.client.get_json(Endpoint::SearchV1, "search/player", Some(params))
    }

    /// The request for all franchises, past and present.
    pub fn franchises(&self) -> (request: Request)
        ensures
            asks_plainly_for(request, Endpoint::ApiStats, "en/franchise"@),
    {
        self.plain(Endpoint::ApiStats, "en/franchise")
    }

    /// The request for the statistics of the players of a team in one
    /// season and game type.
    pub fn club_stats(&self, team_abbr: &str, season: i32, game_type: i32) -> (request: Request)
        ensures
            asks_plainly_for(
                request,
                Endpoint::ApiWebV1,
                "club-stats/"@ + team_abbr@ + "/"@ + decimal(season as int) + "/"@ + decimal(
                    game_type as int,
                ),
            ),
    {
        let season = i64_to_string(season as i64);
        let game_type = i64_to_string(game_type as i64);
        let path = String::from_str("club-stats/").concat(team_abbr).concat("/").concat(
            season.as_str(),
        ).concat("/").concat(game_type.as_str());
        self.plain(Endpoint::ApiWebV1, path.as_str())
    }

    /// The request for the seasons and game types for which a team has
    /// statistics.
    pub fn club_stats_season(&self, team_abbr: &str) -> (request: Request)
        ensures
            asks_plainly_for(request, Endpoint::ApiWebV1, "club-stats-season/"@ + team_abbr@),
    {
        let path = String::from_str("club-stats-season/").concat(team_abbr);
        self.plain(Endpoint::ApiWebV1, path.as_str())
    }

    /// The request for the roster of a team as it is now.
    pub fn roster_current(&self, team_abbr: &str) -> (request: Request)
        ensures
            asks_plainly_for(
                request,
                Endpoint::ApiWebV1,
                "roster/"@ + team_abbr@ + "/current"@,
            ),
    {
        let path = String::from_str("roster/").concat(team_abbr).concat("/current");
        self.plain(Endpoint::ApiWebV1, path.as_str())
    }

    /// The request for the roster of a team in one season.
    pub fn roster_season(&self, team_abbr: &str, season: i32) -> (request: Request)
        ensures
            asks_plainly_for(
                request,
                Endpoint::ApiWebV1,
                "roster/"@ + team_abbr@ + "/"@ + decimal(season as int),
            ),
    {
        let season = i64_to_string(season as i64);
        let path = String::from_str("roster/").concat(team_abbr).concat("/").concat(
            season.as_str(),
        );
        self.plain(Endpoint::ApiWebV1, path.as_str())
    }

    /// The request for the scores of the day `date`, or of today where no
    /// date is given.
    pub fn daily_scores(&self, date: Option<GameDate>) -> (request: Request)
        ensures
            date matches Some(given) ==> asks_plainly_for(
                request,
                Endpoint::ApiWebV1,
                "score/"@ + given.api_text(),
            ),
            date is None ==> exists|today: GameDate|
                today is Date && today.is_valid() && asks_plainly_for(
                    request,
                    Endpoint::ApiWebV1,
                    "score/"@ + #[trigger] today.api_text(),
                ),
    {
        let date = self.resolve_date_to_today(date);
        let path = String::from_str("score/").concat(date.to_api_string().as_str());
        self.plain(Endpoint::ApiWebV1, path.as_str())
    }

    /// The request for the schedule of a team in the week of `date`, or of
    /// today where no date is given.
    pub fn team_weekly_schedule(&self, team_abbr: &str, date: Option<GameDate>) -> (request:
        Request)
        ensures
            date matches Some(given) ==> asks_plainly_for(
                request,
                Endpoint::ApiWebV1,
                "club-schedule/"@ + team_abbr@ + "/week/"@ + given.api_text(),
            ),
            date is None ==> exists|today: GameDate|
                today is Date && today.is_valid() && asks_plainly_for(
                    request,
                    Endpoint::ApiWebV1,
                    "club-schedule/"@ + team_abbr@ + "/week/"@ + #[trigger] today.api_text(),
                ),
    {
        let date = self.resolve_date_to_today(date);
        let path = String::from_str("club-schedule/").concat(team_abbr).concat("/week/").concat(
            date.to_api_string().as_str(),
        );
        self.plain(Endpoint::ApiWebV1, path.as_str())
    }
}

/// A season found at `at`, with none before it, is what [`season_position`]
/// finds in the whole sequence.
proof fn lemma_found_stays_found(seasons: Seq<SeasonInfo>, at: int, season_id: i64)
    requires
        0 <= at < seasons.len(),
        seasons[at].id == season_id,
        season_position(seasons.take(at), season_id) is None,
    ensures
        season_position(seasons, season_id) == Some(at),
{
    lemma_season_position(seasons, season_id);
    lemma_season_position(seasons.take(at), season_id);
    assert forall|j: int| 0 <= j < at implies seasons[j].id != season_id by {
        assert(seasons.take(at)[j] == seasons[j]);
    }
}

/// A day found at `at`, with none before it, is what [`day_position`] finds
/// in the whole sequence.
proof fn lemma_day_found_stays_found(days: Seq<GameDay>, at: int, date: Seq<char>)
    requires
        0 <= at < days.len(),
        days[at].date@ == date,
        day_position(days.take(at), date) is None,
    ensures
        day_position(days, date) == Some(at),
{
    lemma_day_position(days, date);
    lemma_day_position(days.take(at), date);
    assert forall|j: int| 0 <= j < at implies days[j].date@ != date by {
        assert(days.take(at)[j] == days[j]);
    }
}

} // verus!
