//! The records that the API returns and the values that occur in them.

pub mod boxscore;
pub mod club_stats;
pub mod common;
pub mod enums;
pub mod game_center;
pub mod game_state;
pub mod game_type;
pub mod player;
pub mod schedule;
pub mod standings;

pub use boxscore::{
    BoxscoreTeam, GameClock, GoalieCounts, PeriodDescriptor, SkaterCounts, SpecialEvent, Tally,
    TeamGameStats, TvBroadcast,
};
pub use club_stats::SeasonGameTypes;
pub use common::{
    Conference, Division, Franchise, FranchisesResponse, LocalizedString, Roster, RosterPlayer,
    Team,
};
pub use game_center::{
    AssistSummary, GameOutcome, GoalSummary, MatchupTeam, PenaltyPlayer, PenaltySummary,
    PeriodPenalties, PeriodScoring, PlayEvent, PlayEventDetails, RosterSpot, ScratchedPlayer,
    SeasonSeriesMatchup, SeriesGame, SeriesGameInfo, SeriesTeam, SeriesWins, ShiftChart, ShiftEntry,
    ShootoutAttempt, StoryTeam, TeamGameInfo,
};
pub use player::{
    Award, AwardSeason, DraftDetails, GameLog, PlayerGameLog, PlayerSearchResult, SeasonTotal,
};
pub use schedule::{
    DailySchedule, DailyScores, GameDay, GameScore, ScheduleGame, ScheduleTeam,
    TeamScheduleResponse, WeeklyScheduleResponse,
};
pub use standings::{SeasonInfo, SeasonsResponse, Standing, StandingsResponse};
pub use enums::{
    DefendingSide, GameScheduleState, GoalieDecision, Handedness, HomeRoad, ParseDefendingSideError,
    ParseGameScheduleStateError, ParseGoalieDecisionError, ParseHandednessError, ParseHomeRoadError,
    ParsePeriodTypeError, ParsePositionError, ParseZoneCodeError, PeriodType, Position, ZoneCode,
};
pub use game_state::{GameState, ParseGameStateError};
pub use game_type::GameType;
