//! Schedules and scores by day and by week.

use vstd::prelude::*;
use vstd::string::*;
use crate::text::{decimal, i64_to_string};
use crate::types::common::LocalizedString;
use crate::types::game_state::GameState;

verus! {

/// Schedule game information
#[derive(Debug, Clone, PartialEq)]
pub struct ScheduleGame {
    pub id: i64,
    pub game_type: i32,
    pub game_date: Option<String>,
    pub start_time_utc: String,
    pub away_team: ScheduleTeam,
    pub home_team: ScheduleTeam,
    pub game_state: GameState,
}

/// Team information in schedule
#[derive(Debug, Clone, PartialEq)]
pub struct ScheduleTeam {
    pub id: i64,
    pub abbrev: String,
    pub place_name: Option<LocalizedString>,
    pub logo: String,
    pub score: Option<i32>,
}

/// Daily schedule response
#[derive(Debug, Clone, PartialEq)]
pub struct DailySchedule {
    pub next_start_date: Option<String>,
    pub previous_start_date: Option<String>,
    pub date: String,
    pub games: Vec<ScheduleGame>,
    pub number_of_games: usize,
}

/// Weekly schedule response
#[derive(Debug, Clone, PartialEq)]
pub struct WeeklyScheduleResponse {
    pub next_start_date: String,
    pub previous_start_date: String,
    pub game_week: Vec<GameDay>,
}

/// A day of games
#[derive(Debug, Clone, PartialEq)]
pub struct GameDay {
    pub date: String,
    pub games: Vec<ScheduleGame>,
}

/// Team schedule response (monthly/weekly)
#[derive(Debug, Clone, PartialEq)]
pub struct TeamScheduleResponse {
    pub games: Vec<ScheduleGame>,
}

/// Game scores for a day
#[derive(Debug, Clone, PartialEq)]
pub struct DailyScores {
    pub prev_date: String,
    pub current_date: String,
    pub next_date: String,
    pub games: Vec<GameScore>,
}

/// Individual game score
#[derive(Debug, Clone, PartialEq)]
pub struct GameScore {
    pub id: i64,
    pub game_type: i32,
    pub game_state: GameState,
    pub away_team: ScheduleTeam,
    pub home_team: ScheduleTeam,
}

/// A score as it is printed: the number, or a dash where there is none yet.
pub open spec fn score_text(score: Option<i32>) -> Seq<char> {
    match score {
        Some(goals) => decimal(goals as int),
        None => "-"@,
    }
}

/// A score as it is printed: the number, or a dash where there is none yet.
pub fn format_score(score: Option<i32>) -> (text: String)
    ensures
        text@ == score_text(score),
{
    match score {
        Some(goals) => i64_to_string(goals as i64),
        None => String::from_str("-"),
    }
}

impl ScheduleGame {
    /// This game as a line of text: the visitors at the home team, the
    /// date where it is known, and the state of the game in brackets.
    pub open spec fn text(self) -> Seq<char> {
        match self.game_date {
            Some(date) => self.away_team.abbrev@ + " @ "@ + self.home_team.abbrev@ + " on "@
                + date@ + " ["@ + self.game_state.code_text() + "]"@,
            None => self.away_team.abbrev@ + " @ "@ + self.home_team.abbrev@ + " ["@
                + self.game_state.code_text() + "]"@,
        }
    }

    /// This game as a line of text: the visitors at the home team, the
    /// date where it is known, and the state of the game in brackets.
    pub fn to_string(&self) -> (text: String)
        ensures
            text@ == self.text(),
    {
        let teams = String::from_str(self.away_team.abbrev.as_str()).concat(" @ ").concat(
            self.home_team.abbrev.as_str(),
        );
        let dated = match &self.game_date {
            Some(date) => teams.concat(" on ").concat(date.as_str()),
            None => teams,
        };
        dated.concat(" [").concat(self.game_state.as_str()).concat("]")
    }
}

impl GameScore {
    /// This score as a line of text: each team with its goals, the
    /// visitors first, and the state of the game in brackets.
    pub open spec fn text(self) -> Seq<char> {
        self.away_team.abbrev@ + " "@ + score_text(self.away_team.score) + " @ "@
            + self.home_team.abbrev@ + " "@ + score_text(self.home_team.score) + " ["@
            + self.game_state.code_text() + "]"@
    }

    /// This score as a line of text: each team with its goals, the
    /// visitors first, and the state of the game in brackets.
    pub fn to_string(&self) -> (text: String)
        ensures
            text@ == self.text(),
    {
        let away = format_score(self.away_team.score);
        let home = format_score(self.home_team.score);
        String::from_str(self.away_team.abbrev.as_str()).concat(" ").concat(away.as_str()).concat(
            " @ ",
        ).concat(self.home_team.abbrev.as_str()).concat(" ").concat(home.as_str()).concat(
            " [",
        ).concat(self.game_state.as_str()).concat("]")
    }
}

} // verus!
