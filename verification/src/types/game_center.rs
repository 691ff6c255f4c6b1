//! The records of the game center: events of play, goals, penalties, shifts and season series.

use vstd::prelude::*;
use crate::types::boxscore::PeriodDescriptor;
use crate::types::common::LocalizedString;

verus! {

/// Game outcome information
#[derive(Debug, Clone, PartialEq)]
pub struct GameOutcome {
    pub last_period_type: String,
}

/// Individual play event in the game
#[derive(Debug, Clone)]
pub struct PlayEvent {
    pub event_id: i64,
    pub period_descriptor: PeriodDescriptor,
    pub time_in_period: String,
    pub time_remaining: String,
    pub situation_code: String,
    pub home_team_defending_side: String,
    pub type_code: i32,
    pub type_desc_key: String,
    pub sort_order: i32,
    pub details: Option<PlayEventDetails>,
    pub ppt_replay_url: Option<String>,
}

/// Details for a play event (varies by event type)
#[derive(Debug, Clone, PartialEq)]
pub struct PlayEventDetails {
    pub x_coord: Option<i32>,
    pub y_coord: Option<i32>,
    pub zone_code: Option<String>,
    pub event_owner_team_id: Option<i64>,
    pub shot_type: Option<String>,
    pub shooting_player_id: Option<i64>,
    pub goalie_in_net_id: Option<i64>,
    pub scoring_player_id: Option<i64>,
    pub scoring_player_total: Option<i32>,
    pub assist1_player_id: Option<i64>,
    pub assist1_player_total: Option<i32>,
    pub assist2_player_id: Option<i64>,
    pub assist2_player_total: Option<i32>,
    pub away_score: Option<i32>,
    pub home_score: Option<i32>,
    pub highlight_clip: Option<i64>,
    pub highlight_clip_sharing_url: Option<String>,
    pub discrete_clip: Option<i64>,
    pub type_code: Option<String>,
    pub desc_key: Option<String>,
    pub duration: Option<i32>,
    pub committed_by_player_id: Option<i64>,
    pub drawn_by_player_id: Option<i64>,
    pub hitting_player_id: Option<i64>,
    pub hittee_player_id: Option<i64>,
    pub winning_player_id: Option<i64>,
    pub losing_player_id: Option<i64>,
    pub player_id: Option<i64>,
    pub reason: Option<String>,
    pub away_sog: Option<i32>,
    pub home_sog: Option<i32>,
}

/// Roster spot with player information
#[derive(Debug, Clone, PartialEq)]
pub struct RosterSpot {
    pub team_id: i64,
    pub player_id: i64,
    pub first_name: LocalizedString,
    pub last_name: LocalizedString,
    pub sweater_number: i32,
    pub position_code: String,
    pub headshot: String,
}

/// Team information in game matchup
#[derive(Debug, Clone, PartialEq)]
pub struct MatchupTeam {
    pub id: i64,
    pub common_name: LocalizedString,
    pub abbrev: String,
    pub place_name: LocalizedString,
    pub place_name_with_preposition: LocalizedString,
    pub score: i32,
    pub sog: i32,
    pub logo: String,
    pub dark_logo: String,
}

/// Scoring summary for a period
#[derive(Debug, Clone, PartialEq)]
pub struct PeriodScoring {
    pub period_descriptor: PeriodDescriptor,
    pub goals: Vec<GoalSummary>,
}

/// Goal summary information
#[derive(Debug, Clone, PartialEq)]
pub struct GoalSummary {
    pub situation_code: String,
    pub event_id: i64,
    pub strength: String,
    pub player_id: i64,
    pub first_name: LocalizedString,
    pub last_name: LocalizedString,
    pub name: LocalizedString,
    pub team_abbrev: LocalizedString,
    pub headshot: String,
    pub highlight_clip_sharing_url: Option<String>,
    pub highlight_clip: Option<i64>,
    pub discrete_clip: Option<i64>,
    pub goals_to_date: i32,
    pub away_score: i32,
    pub home_score: i32,
    pub leading_team_abbrev: Option<LocalizedString>,
    pub time_in_period: String,
    pub shot_type: String,
    pub goal_modifier: String,
    pub assists: Vec<AssistSummary>,
    pub home_team_defending_side: String,
    pub is_home: bool,
}

/// Assist summary information
#[derive(Debug, Clone, PartialEq)]
pub struct AssistSummary {
    pub player_id: i64,
    pub first_name: LocalizedString,
    pub last_name: LocalizedString,
    pub name: LocalizedString,
    pub assists_to_date: i32,
    pub sweater_number: i32,
}

/// Shootout attempt information
#[derive(Debug, Clone, PartialEq)]
pub struct ShootoutAttempt {
    pub player_id: i64,
    pub first_name: LocalizedString,
    pub last_name: LocalizedString,
    pub team_abbrev: String,
    pub headshot: String,
    pub shot_type: String,
    pub result: String,
    pub is_home_team: bool,
}

/// Penalty summary for a period
#[derive(Debug, Clone, PartialEq)]
pub struct PeriodPenalties {
    pub period_descriptor: PeriodDescriptor,
    pub penalties: Vec<PenaltySummary>,
}

/// Penalty summary information
#[derive(Debug, Clone, PartialEq)]
pub struct PenaltySummary {
    pub time_in_period: String,
    pub penalty_type: String,
    pub duration: i32,
    pub committed_by_player: Option<PenaltyPlayer>,
    pub team_abbrev: LocalizedString,
    pub drawn_by: Option<PenaltyPlayer>,
    pub desc_key: String,
    pub served_by: Option<LocalizedString>,
    pub event_id: Option<i64>,
}

/// Player information in penalty summary
#[derive(Debug, Clone, PartialEq)]
pub struct PenaltyPlayer {
    pub first_name: LocalizedString,
    pub last_name: LocalizedString,
    pub sweater_number: i32,
}

/// Shift chart data
#[derive(Debug, Clone)]
pub struct ShiftChart {
    pub data: Vec<ShiftEntry>,
}

/// Individual shift entry for a player
#[derive(Debug, Clone, PartialEq)]
pub struct ShiftEntry {
    pub id: i64,
    pub detail_code: i32,
    pub duration: String,
    pub end_time: String,
    pub event_description: Option<String>,
    pub event_number: i64,
    pub first_name: String,
    pub game_id: i64,
    pub hex_value: String,
    pub last_name: String,
    pub period: i32,
    pub player_id: i64,
    pub shift_number: i32,
    pub start_time: String,
    pub team_abbrev: String,
    pub team_id: i64,
    pub team_name: String,
    pub type_code: i32,
}

/// Season series matchup
#[derive(Debug, Clone)]
pub struct SeasonSeriesMatchup {
    pub season_series: Vec<SeriesGame>,
    pub season_series_wins: SeriesWins,
    pub game_info: SeriesGameInfo,
}

/// Individual game in the season series
#[derive(Debug, Clone, PartialEq)]
pub struct SeriesGame {
    pub id: i64,
    pub season: i64,
    pub game_type: i32,
    pub game_date: String,
    pub start_time_utc: String,
    pub eastern_utc_offset: String,
    pub venue_utc_offset: String,
    pub game_state: String,
    pub game_schedule_state: String,
    pub away_team: SeriesTeam,
    pub home_team: SeriesTeam,
    pub period_descriptor: PeriodDescriptor,
    pub game_center_link: String,
    pub game_outcome: GameOutcome,
}

/// Team information in season series
#[derive(Debug, Clone, PartialEq)]
pub struct SeriesTeam {
    pub id: i64,
    pub abbrev: String,
    pub logo: String,
    pub score: i32,
}

/// Season series win counts
#[derive(Debug, Clone, PartialEq)]
pub struct SeriesWins {
    pub away_team_wins: i32,
    pub home_team_wins: i32,
}

/// Game information including officials and scratches
#[derive(Debug, Clone, PartialEq)]
pub struct SeriesGameInfo {
    pub referees: Vec<LocalizedString>,
    pub linesmen: Vec<LocalizedString>,
    pub away_team: TeamGameInfo,
    pub home_team: TeamGameInfo,
}

/// Team-specific game information
#[derive(Debug, Clone, PartialEq)]
pub struct TeamGameInfo {
    pub head_coach: LocalizedString,
    pub scratches: Vec<ScratchedPlayer>,
}

/// Scratched player information
#[derive(Debug, Clone, PartialEq)]
pub struct ScratchedPlayer {
    pub id: i64,
    pub first_name: LocalizedString,
    pub last_name: LocalizedString,
}

/// Team information in game story
#[derive(Debug, Clone, PartialEq)]
pub struct StoryTeam {
    pub id: i64,
    pub name: LocalizedString,
    pub abbrev: String,
    pub place_name: LocalizedString,
    pub score: i32,
    pub sog: i32,
    pub logo: String,
}
} // verus!
