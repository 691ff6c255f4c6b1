//! The standings of the league and the seasons that have standings.

use vstd::prelude::*;
use vstd::string::*;
use crate::text::{decimal, i64_to_string};
use crate::types::common::{Conference, Division, LocalizedString, Team};

verus! {

/// Standing entry for a team
#[derive(Debug, Clone, PartialEq)]
pub struct Standing {
    pub conference_abbrev: Option<String>,
    pub conference_name: Option<String>,
    pub division_abbrev: String,
    pub division_name: String,
    pub team_name: LocalizedString,
    pub team_common_name: LocalizedString,
    pub team_abbrev: LocalizedString,
    pub team_logo: String,
    pub wins: i32,
    pub losses: i32,
    pub ot_losses: i32,
    pub points: i32,
}

/// Standings response
#[derive(Debug, Clone, PartialEq)]
pub struct StandingsResponse {
    pub standings: Vec<Standing>,
}

/// Season manifest entry
#[derive(Debug, Clone, PartialEq, Eq, Hash)]
pub struct SeasonInfo {
    pub id: i64,
    pub standings_start: String,
    pub standings_end: String,
}

/// Seasons manifest response
#[derive(Debug, Clone, PartialEq)]
pub struct SeasonsResponse {
    pub seasons: Vec<SeasonInfo>,
}

impl Standing {
    /// The abbreviation of the conference, or `UNK` where the standing
    /// names no conference.
    pub open spec fn conference_abbrev_text(self) -> Seq<char> {
        match self.conference_abbrev {
            Some(abbrev) => abbrev@,
            None => "UNK"@,
        }
    }

    /// The name of the conference, or `Unknown` where the standing names
    /// no conference.
    pub open spec fn conference_name_text(self) -> Seq<char> {
        match self.conference_name {
            Some(name) => name@,
            None => "Unknown"@,
        }
    }

    /// The number of games that the team has played: its wins, losses and
    /// overtime losses together.
    pub open spec fn games_played_count(self) -> int {
        self.wins + self.losses + self.ot_losses
    }

    /// This standing as a line of text: the team's abbreviation, its
    /// points, and its record of wins, losses and overtime losses.
    pub open spec fn text(self) -> Seq<char> {
        self.team_abbrev.default@ + ": "@ + decimal(self.points as int) + " pts ("@ + decimal(
            self.wins as int,
        ) + "-"@ + decimal(self.losses as int) + "-"@ + decimal(self.ot_losses as int) + ")"@
    }

    /// True when `team` is the team that this standing is about: its
    /// names, logo, conference and division are those of the standing, a
    /// missing conference being `UNK` and `Unknown`, and its franchise is
    /// left open.
    pub open spec fn describes(self, team: Team) -> bool {
        &&& team.name@ == self.team_name.default@
        &&& team.common_name@ == self.team_common_name.default@
        &&& team.abbr@ == self.team_abbrev.default@
        &&& team.logo@ == self.team_logo@
        &&& team.conference.abbr@ == self.conference_abbrev_text()
        &&& team.conference.name@ == self.conference_name_text()
        &&& team.division.abbr@ == self.division_abbrev@
        &&& team.division.name@ == self.division_name@
        &&& team.franchise_id is None
    }

    /// The abbreviation of the conference, or `UNK` where the standing
    /// names no conference.
    pub fn conference_abbrev(&self) -> (abbrev: &str)
        ensures
            abbrev@ == self.conference_abbrev_text(),
    {
        match &self.conference_abbrev {
            Some(abbrev) => abbrev.as_str(),
            None => "UNK",
        }
    }

    /// The name of the conference, or `Unknown` where the standing names
    /// no conference.
    pub fn conference_name(&self) -> (name: &str)
        ensures
            name@ == self.conference_name_text(),
    {
        match &self.conference_name {
            Some(name) => name.as_str(),
            None => "Unknown",
        }
    }

    /// The team that this standing is about. Its names, logo, conference
    /// and division are those of the standing; a missing conference
    /// becomes `UNK` and `Unknown`; the franchise is left open.
    pub fn to_team(&self) -> (team: Team)
        ensures
            self.describes(team),
    {
        Team {
            name: self.team_name.default.clone(),
            common_name: self.team_common_name.default.clone(),
            abbr: self.team_abbrev.default.clone(),
            logo: self.team_logo.clone(),
            conference: Conference {
                abbr: String::from_str(self.conference_abbrev()),
                name: String::from_str(self.conference_name()),
            },
            division: Division {
                abbr: self.division_abbrev.clone(),
                name: self.division_name.clone(),
            },
            franchise_id: None,
        }
    }

    /// The number of games that the team has played: its wins, losses and
    /// overtime losses together.
    pub fn games_played(&self) -> (games: i32)
        requires
            i32::MIN <= self.games_played_count() <= i32::MAX,
        ensures
            games == self.games_played_count(),
    {
        let sum: i64 = self.wins as i64 + self.losses as i64 + self.ot_losses as i64;
        sum as i32
    }

    /// This standing as a line of text: the team's abbreviation, its
    /// points, and its record of wins, losses and overtime losses.
    pub fn to_string(&self) -> (text: String)
        ensures
            text@ == self.text(),
    {
        let points = i64_to_string(self.points as i64);
        let wins = i64_to_string(self.wins as i64);
        let losses = i64_to_string(self.losses as i64);
        let ot_losses = i64_to_string(self.ot_losses as i64);
        String::from_str(self.team_abbrev.default.as_str()).concat(": ").concat(
            points.as_str(),
        ).concat(" pts (").concat(wins.as_str()).concat("-").concat(losses.as_str()).concat(
            "-",
        ).concat(ot_losses.as_str()).concat(")")
    }
}

} // verus!
