//! A typed, I/O-free core for a client of the NHL web API.
//!
//! The crate computes what to request and how to read the answer: it resolves
//! endpoints and joins URLs, formats the dates and seasons that appear in
//! resource paths, and classifies HTTP status codes into typed errors.
//! Sending the request and decoding the body are left to the caller.

pub mod calendar;
pub mod client;
pub mod config;
pub mod date;
pub mod error;
pub mod http_client;
pub mod ids;
pub mod query;
pub mod text;
pub mod types;

pub use client::Client;
pub use config::ClientConfig;
pub use date::{CivilDate, GameDate, ParseDateError, Season};
pub use error::{ErrorKind, NHLApiError};
pub use http_client::{Endpoint, HttpClient, RedirectPolicy, Request};
pub use ids::GameId;
pub use query::QueryParams;
pub use types::{
    AssistSummary, Award, AwardSeason, BoxscoreTeam, Conference, DailySchedule, DailyScores,
    DefendingSide, Division, DraftDetails, Franchise, FranchisesResponse, GameClock, GameDay,
    GameLog, GameOutcome, GameScheduleState, GameScore, GameState, GameType, GoalSummary,
    GoalieDecision, Handedness, HomeRoad, LocalizedString, MatchupTeam, ParseDefendingSideError,
    ParseGameScheduleStateError, ParseGameStateError, ParseGoalieDecisionError,
    ParseHandednessError, ParseHomeRoadError, ParsePeriodTypeError, ParsePositionError,
    ParseZoneCodeError, PenaltyPlayer, PenaltySummary, PeriodDescriptor, PeriodPenalties,
    PeriodScoring, PeriodType, PlayEvent, PlayEventDetails, PlayerGameLog, PlayerSearchResult,
    Position, Roster, RosterPlayer, RosterSpot, ScheduleGame, ScheduleTeam, ScratchedPlayer,
    SeasonGameTypes, SeasonInfo, SeasonSeriesMatchup, SeasonTotal, SeasonsResponse, SeriesGame,
    SeriesGameInfo, SeriesTeam, SeriesWins, ShiftChart, ShiftEntry, ShootoutAttempt, SpecialEvent,
    Standing, StandingsResponse, StoryTeam, Team, TeamGameInfo, TeamGameStats,
    TeamScheduleResponse, TvBroadcast, WeeklyScheduleResponse, ZoneCode,
};
