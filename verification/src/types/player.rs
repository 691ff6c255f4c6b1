//! Records of a player: draft, season totals, awards, game logs and search results.

use vstd::prelude::*;
use crate::types::common::LocalizedString;
use crate::types::enums::{HomeRoad, Position};
use crate::types::game_type::GameType;

verus! {

/// Draft details for a player
#[derive(Debug, Clone, PartialEq)]
pub struct DraftDetails {
    pub year: i32,
    pub team_abbrev: String,
    pub round: i32,
    pub pick_in_round: i32,
    pub overall_pick: i32,
}

/// Season-by-season statistics
#[derive(Debug, Clone, PartialEq)]
pub struct SeasonTotal {
    pub season: i32,
    pub game_type: GameType,
    pub league_abbrev: String,
    pub team_name: LocalizedString,
    pub team_common_name: Option<LocalizedString>,
    pub sequence: Option<i32>,
    pub games_played: i32,
    pub goals: Option<i32>,
    pub assists: Option<i32>,
    pub points: Option<i32>,
    pub plus_minus: Option<i32>,
    pub pim: Option<i32>,
}

/// Award won by player
#[derive(Debug, Clone, PartialEq)]
pub struct Award {
    pub trophy: LocalizedString,
    pub seasons: Vec<AwardSeason>,
}

/// Season when award was won
#[derive(Debug, Clone, PartialEq)]
pub struct AwardSeason {
    pub season_id: i32,
}

/// Game log entry for a single game
#[derive(Debug, Clone, PartialEq)]
pub struct GameLog {
    pub game_id: i64,
    pub game_date: String,
    pub team_abbrev: String,
    pub home_road_flag: HomeRoad,
    pub opponent_abbrev: String,
    pub goals: i32,
    pub assists: i32,
    pub points: i32,
    pub plus_minus: i32,
    pub power_play_goals: i32,
    pub power_play_points: i32,
    pub shots: i32,
    pub shifts: i32,
    pub toi: String,
    pub game_winning_goals: Option<i32>,
    pub ot_goals: Option<i32>,
    pub pim: Option<i32>,
}

/// Player game log response
#[derive(Debug, Clone, PartialEq)]
pub struct PlayerGameLog {
    /// The player ID is not in the API response, we track it ourselves
    pub player_id: i64,
    pub season: i32,
    pub game_type: GameType,
    pub game_log: Vec<GameLog>,
}

/// Player search result
#[derive(Debug, Clone, PartialEq)]
pub struct PlayerSearchResult {
    pub player_id: String,
    pub name: String,
    pub position: Position,
    pub team_id: Option<String>,
    pub team_abbrev: Option<String>,
    pub sweater_number: Option<i32>,
    pub active: bool,
    pub height: Option<String>,
    pub birth_city: Option<String>,
    pub birth_state_province: Option<String>,
    pub birth_country: Option<String>,
}
} // verus!
