//! Records that several resources share: localized text, teams, franchises and rosters.

use vstd::prelude::*;
use vstd::string::*;
use crate::text::{decimal, i64_to_string};

verus! {

/// Localized string (NHL API returns {default: "value"})
#[derive(Debug, Clone, PartialEq, Eq, Hash)]
pub struct LocalizedString {
    pub default: String,
}

/// Conference information for a team
#[derive(Debug, Clone, PartialEq)]
pub struct Conference {
    pub abbr: String,
    pub name: String,
}

/// Division information for a team
#[derive(Debug, Clone, PartialEq)]
pub struct Division {
    pub abbr: String,
    pub name: String,
}

/// NHL Team information
#[derive(Debug, Clone, PartialEq)]
pub struct Team {
    pub name: String,
    pub common_name: String,
    pub abbr: String,
    pub logo: String,
    pub conference: Conference,
    pub division: Division,
    pub franchise_id: Option<i64>,
}

/// Franchise information
#[derive(Debug, Clone, PartialEq, Eq, Hash)]
pub struct Franchise {
    pub id: i32,
    pub full_name: String,
    pub team_common_name: String,
    pub team_place_name: String,
}

/// Response from the franchises endpoint
#[derive(Debug, Clone)]
pub struct FranchisesResponse {
    pub data: Vec<Franchise>,
}

/// Team roster information
/// Team roster with players by position
#[derive(Debug, Clone)]
pub struct Roster {
    pub forwards: Vec<RosterPlayer>,
    pub defensemen: Vec<RosterPlayer>,
    pub goalies: Vec<RosterPlayer>,
}

/// Individual player in a team roster
#[derive(Debug, Clone, PartialEq)]
pub struct RosterPlayer {
    pub id: i64,
    pub headshot: String,
    pub first_name: LocalizedString,
    pub last_name: LocalizedString,
    pub sweater_number: i32,
    pub position_code: String,
    pub shoots_catches: String,
    pub height_in_inches: i32,
    pub weight_in_pounds: i32,
    pub height_in_centimeters: i32,
    pub weight_in_kilograms: i32,
    pub birth_date: String,
    pub birth_city: LocalizedString,
    pub birth_country: String,
    pub birth_state_province: Option<LocalizedString>,
}

impl Team {
    /// This team as a line of text: its name, then its abbreviation in
    /// brackets.
    pub open spec fn text(self) -> Seq<char> {
        self.name@ + " ("@ + self.abbr@ + ")"@
    }

    /// This team as a line of text: its name, then its abbreviation in
    /// brackets.
    pub fn to_string(&self) -> (text: String)
        ensures
            text@ == self.text(),
    {
        String::from_str(self.name.as_str()).concat(" (").concat(self.abbr.as_str()).concat(")")
    }
}

impl Franchise {
    /// This franchise as a line of text: its full name, then its
    /// identifier in brackets.
    pub open spec fn text(self) -> Seq<char> {
        self.full_name@ + " (ID: "@ + decimal(self.id as int) + ")"@
    }

    /// This franchise as a line of text: its full name, then its
    /// identifier in brackets.
    pub fn to_string(&self) -> (text: String)
        ensures
            text@ == self.text(),
    {
        let id = i64_to_string(self.id as i64);
        String::from_str(self.full_name.as_str()).concat(" (ID: ").concat(id.as_str()).concat(")")
    }
}

} // verus!
