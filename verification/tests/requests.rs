//! The request that each call of the API makes.

use nhl_api::client::Client;
use nhl_api::date::GameDate;
use nhl_api::error::NHLApiError;
use nhl_api::http_client::Request;
use nhl_api::ids::GameId;
use nhl_api::types::common::LocalizedString;
use nhl_api::types::schedule::{GameDay, WeeklyScheduleResponse};
use nhl_api::types::standings::{SeasonInfo, Standing, StandingsResponse};

const WEB: &str = "https://api-web.nhle.com/v1/";
const STATS: &str = "https://api.nhle.com/stats/rest/";
const SEARCH: &str = "https://search.d3.nhle.com/api/v1/";

fn assert_plain(request: Request, base: &str, resource: &str) {
    assert_eq!(request.url, format!("{}{}", base, resource));
    assert_eq!(request.resource, resource);
    assert!(request.query.is_none());
}

fn date(year: i32, month: u32, day: u32) -> GameDate {
    GameDate::from_ymd(year, month, day).unwrap()
}

fn text(value: &str) -> LocalizedString {
    LocalizedString {
        default: value.to_string(),
    }
}

fn standing(abbrev: &str, conference: Option<&str>) -> Standing {
    Standing {
        conference_abbrev: conference.map(|c| c[..1].to_string()),
        conference_name: conference.map(|c| c.to_string()),
        division_abbrev: "ATL".to_string(),
        division_name: "Atlantic".to_string(),
        team_name: text(&format!("Team {}", abbrev)),
        team_common_name: text(abbrev),
        team_abbrev: text(abbrev),
        team_logo: format!("{}.svg", abbrev),
        wins: 1,
        losses: 2,
        ot_losses: 3,
        points: 5,
    }
}

#[test]
fn standings_requests() {
    let client = Client::new();
    assert_plain(client.teams(None), WEB, "standings/now");
    assert_plain(client.teams(Some(date(2024, 1, 5))), WEB, "standings/2024-01-05");
    assert_plain(client.current_league_standings(), WEB, "standings/now");
    assert_plain(
        client.league_standings_for_date(&date(2023, 11, 30)),
        WEB,
        "standings/2023-11-30",
    );
    assert_plain(client.fetch_standings_data("2020-02-02"), WEB, "standings/2020-02-02");
    assert_plain(client.season_standing_manifest(), WEB, "standings-season");
}

#[test]
fn standings_of_a_season_end_with_that_season() {
    let client = Client::new();
    let seasons = vec![
        SeasonInfo {
            id: 20222023,
            standings_start: "2022-10-07".to_string(),
            standings_end: "2023-04-14".to_string(),
        },
        SeasonInfo {
            id: 20232024,
            standings_start: "2023-10-10".to_string(),
            standings_end: "2024-04-18".to_string(),
        },
        SeasonInfo {
            id: 20232024,
            standings_start: "2023-10-10".to_string(),
            standings_end: "2024-12-31".to_string(),
        },
    ];
    let request = client.league_standings_for_season(&seasons, 20232024).unwrap();
    assert_plain(request, WEB, "standings/2024-04-18");
    let request = client.league_standings_for_season(&seasons, 20222023).unwrap();
    assert_plain(request, WEB, "standings/2023-04-14");
}

#[test]
fn an_unknown_season_is_an_error_that_names_it() {
    let client = Client::new();
    for (seasons, id) in [(vec![], 20232024i64), (vec![], -5)] {
        match client.league_standings_for_season(&seasons, id) {
            Err(NHLApiError::Other(message)) => {
                assert_eq!(message, format!("Invalid Season Id {}", id))
            }
            other => panic!("expected an error, got {:?}", other),
        }
    }
}

#[test]
fn game_center_requests() {
    let client = Client::new();
    let game = GameId::new(2023020001);
    assert_plain(client.boxscore(&game), WEB, "gamecenter/2023020001/boxscore");
    assert_plain(client.play_by_play(&game), WEB, "gamecenter/2023020001/play-by-play");
    assert_plain(client.landing(&game), WEB, "gamecenter/2023020001/landing");
    assert_plain(client.season_series(&game), WEB, "gamecenter/2023020001/right-rail");
    assert_plain(client.game_story(&game), WEB, "wsc/game-story/2023020001");
    assert_plain(
        client.fetch_gamecenter(&GameId::new(-7), "x"),
        WEB,
        "gamecenter/-7/x",
    );
}

#[test]
fn shift_chart_request() {
    let request = Client::new().shift_chart(&GameId::new(2023020001));
    assert_eq!(request.url, format!("{}en/shiftcharts", STATS));
    assert_eq!(request.resource, "en/shiftcharts");
    let query = request.query.unwrap();
    assert_eq!(query.len(), 2);
    assert_eq!(
        query.get("cayenneExp"),
        Some("gameId=2023020001 and ((duration != '00:00' and typeCode = 517) or typeCode != 517 )")
    );
    assert_eq!(query.get("exclude"), Some("eventDetails"));
}

#[test]
fn search_request() {
    let client = Client::new();
    let request = client.search_player("McDavid", None);
    assert_eq!(request.url, format!("{}search/player", SEARCH));
    let query = request.query.unwrap();
    assert_eq!(query.len(), 3);
    assert_eq!(query.get("culture"), Some("en-us"));
    assert_eq!(query.get("q"), Some("McDavid"));
    assert_eq!(query.get("limit"), Some("20"));

    let request = client.search_player("limit", Some(5));
    let query = request.query.unwrap();
    assert_eq!(query.get("q"), Some("limit"));
    assert_eq!(query.get("limit"), Some("5"));
    let request = client.search_player("", Some(-1));
    assert_eq!(request.query.unwrap().get("limit"), Some("-1"));
}

#[test]
fn schedule_requests() {
    let client = Client::new();
    assert_plain(client.weekly_schedule(None), WEB, "schedule/now");
    assert_plain(
        client.weekly_schedule(Some(date(2024, 1, 8))),
        WEB,
        "schedule/2024-01-08",
    );
    assert_plain(client.fetch_weekly_schedule("2024-01-08"), WEB, "schedule/2024-01-08");
    let (request, day) = client.daily_schedule(Some(date(2024, 1, 9)));
    assert_eq!(day, "2024-01-09");
    assert_plain(request, WEB, "schedule/2024-01-09");
    let (request, day) = client.daily_schedule(None);
    assert_ne!(day, "now");
    assert_eq!(GameDate::from_str(&day).map(|d| d.to_api_string()), Ok(day.clone()));
    assert_plain(request, WEB, &format!("schedule/{}", day));
    assert_plain(
        client.daily_scores(Some(date(2024, 2, 29))),
        WEB,
        "score/2024-02-29",
    );
    assert_plain(
        client.team_weekly_schedule("MTL", Some(date(2024, 2, 29))),
        WEB,
        "club-schedule/MTL/week/2024-02-29",
    );
    assert!(client.daily_scores(None).resource.starts_with("score/2"));
    assert!(client
        .team_weekly_schedule("MTL", None)
        .resource
        .starts_with("club-schedule/MTL/week/2"));
}

#[test]
fn player_and_club_requests() {
    let client = Client::new();
    assert_plain(client.player_landing(8478402), WEB, "player/8478402/landing");
    assert_plain(
        client.player_game_log(8478402, 20232024, 2),
        WEB,
        "player/8478402/game-log/20232024/2",
    );
    assert_plain(client.franchises(), STATS, "en/franchise");
    assert_plain(
        client.club_stats("MTL", 20242025, 2),
        WEB,
        "club-stats/MTL/20242025/2",
    );
    assert_plain(client.club_stats_season("MTL"), WEB, "club-stats-season/MTL");
    assert_plain(client.roster_current("TOR"), WEB, "roster/TOR/current");
    assert_plain(client.roster_season("TOR", 20192020), WEB, "roster/TOR/20192020");
}

#[test]
fn teams_of_standings() {
    let response = StandingsResponse {
        standings: vec![standing("MTL", Some("Eastern")), standing("SEA", None)],
    };
    let teams = Client::teams_of(&response);
    assert_eq!(teams.len(), 2);
    assert_eq!(teams[0].abbr, "MTL");
    assert_eq!(teams[0].name, "Team MTL");
    assert_eq!(teams[0].common_name, "MTL");
    assert_eq!(teams[0].logo, "MTL.svg");
    assert_eq!(teams[0].conference.abbr, "E");
    assert_eq!(teams[0].conference.name, "Eastern");
    assert_eq!(teams[0].division.abbr, "ATL");
    assert_eq!(teams[0].division.name, "Atlantic");
    assert_eq!(teams[0].franchise_id, None);
    assert_eq!(teams[1].abbr, "SEA");
    assert_eq!(teams[1].conference.abbr, "UNK");
    assert_eq!(teams[1].conference.name, "Unknown");
    assert!(Client::teams_of(&StandingsResponse { standings: vec![] }).is_empty());
}

#[test]
fn the_first_day_with_the_date_is_taken() {
    let client = Client::new();
    let week = WeeklyScheduleResponse {
        next_start_date: "2024-01-15".to_string(),
        previous_start_date: "2024-01-01".to_string(),
        game_week: vec![
            GameDay {
                date: "2024-01-08".to_string(),
                games: vec![],
            },
            GameDay {
                date: "2024-01-09".to_string(),
                games: vec![],
            },
            GameDay {
                date: "2024-01-08".to_string(),
                games: vec![],
            },
        ],
    };
    let day = client.extract_daily_schedule(week, "2024-01-09".to_string());
    assert_eq!(day.date, "2024-01-09");
    assert_eq!(day.number_of_games, 0);
    assert_eq!(day.next_start_date, Some("2024-01-15".to_string()));
    assert_eq!(day.previous_start_date, Some("2024-01-01".to_string()));
}

#[test]
fn resolving_dates() {
    let client = Client::new();
    let given = date(2024, 1, 15);
    assert_eq!(client.resolve_date(Some(given.clone())), given);
    assert_eq!(client.resolve_date(None), GameDate::Now);
    assert_eq!(client.resolve_date(Some(GameDate::Now)), GameDate::Now);
    assert_eq!(client.resolve_date_to_today(Some(given.clone())), given);
    assert_eq!(client.resolve_date_to_today(Some(GameDate::Now)), GameDate::Now);
    assert!(matches!(client.resolve_date_to_today(None), GameDate::Date(_)));
}
