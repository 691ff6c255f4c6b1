//! What describes a game and the events of its play: kinds of period, home
//! and road, zones and sides of the ice, and the state of the schedule.

use vstd::prelude::*;
use vstd::string::*;
use crate::text::str_eq;

verus! {

/// A text that names no period type. It carries the text.
#[derive(Debug, Clone, PartialEq, Eq)]
pub struct ParsePeriodTypeError(pub String);

impl ParsePeriodTypeError {
    /// The error as a line of text: what was expected, then the text that
    /// was found.
    pub fn to_string(&self) -> (text: String)
        ensures
            text@ == "Unknown period type: "@ + self.0@,
    {
        String::from_str("Unknown period type: ").concat(self.0.as_str())
    }
}

/// The kind of a period of play.
#[derive(Debug, Clone, Copy, PartialEq, Eq, Hash, Structural)]
pub enum PeriodType {
    /// A period of regulation time.
    Regulation,
    /// An overtime period.
    Overtime,
    /// A shootout.
    Shootout,
}

impl PeriodType {
    /// The code of this period type as the API writes it.
    pub open spec fn code_text(self) -> Seq<char> {
        match self {
            PeriodType::Regulation => "REG"@,
            PeriodType::Overtime => "OT"@,
            PeriodType::Shootout => "SO"@,
        }
    }

    /// The name of this period type in words.
    pub open spec fn name_text(self) -> Seq<char> {
        match self {
            PeriodType::Regulation => "Regulation"@,
            PeriodType::Overtime => "Overtime"@,
            PeriodType::Shootout => "Shootout"@,
        }
    }

    /// The period type that `text` names, if it names one.
    pub open spec fn parsed(text: Seq<char>) -> Option<PeriodType> {
        if text == "REG"@ {
            Some(PeriodType::Regulation)
        } else if text == "OT"@ {
            Some(PeriodType::Overtime)
        } else if text == "SO"@ {
            Some(PeriodType::Shootout)
        } else {
            None
        }
    }

    /// The code of a period type, read again, names that period type.
    pub proof fn lemma_code_parses_back(value: PeriodType)
        ensures
            Self::parsed(value.code_text()) == Some(value),
    {
        reveal_strlit("REG");
        reveal_strlit("OT");
        reveal_strlit("SO");
        assert("REG"@.len() != "OT"@.len());
        assert("REG"@.len() != "SO"@.len());
        assert("OT"@[0] != "SO"@[0]);
    }

    /// The code of this period type as the API writes it.
    pub fn code(&self) -> (code: &'static str)
        ensures
            code@ == self.code_text(),
    {
        match self {
            PeriodType::Regulation => "REG",
            PeriodType::Overtime => "OT",
            PeriodType::Shootout => "SO",
        }
    }

    /// The name of this period type in words.
    pub fn name(&self) -> (name: &'static str)
        ensures
            name@ == self.name_text(),
    {
        match self {
            PeriodType::Regulation => "Regulation",
            PeriodType::Overtime => "Overtime",
            PeriodType::Shootout => "Shootout",
        }
    }

    /// True for what follows regulation time: overtime and the shootout.
    pub fn is_overtime(&self) -> (answer: bool)
        ensures
            answer == (*self is Overtime || *self is Shootout),
    {
        match self {
            PeriodType::Overtime | PeriodType::Shootout => true,
            _ => false,
        }
    }

    /// This period type as text: its code.
    pub fn to_string(&self) -> (text: String)
        ensures
            text@ == self.code_text(),
    {
        String::from_str(self.code())
    }

    /// Reads a period type from its code. Any other text is an error that
    /// carries the text.
    pub fn from_str(s: &str) -> (parsed: Result<PeriodType, ParsePeriodTypeError>)
        ensures
            match Self::parsed(s@) {
                Some(value) => parsed == Ok::<PeriodType, ParsePeriodTypeError>(value),
                None => parsed matches Err(error) && error.0@ == s@,
            },
    {
        if str_eq(s, "REG") {
            Ok(PeriodType::Regulation)
        } else if str_eq(s, "OT") {
            Ok(PeriodType::Overtime)
        } else if str_eq(s, "SO") {
            Ok(PeriodType::Shootout)
        } else {
            Err(ParsePeriodTypeError(String::from_str(s)))
        }
    }
}

impl core::str::FromStr for PeriodType {
    type Err = ParsePeriodTypeError;

    fn from_str(s: &str) -> (parsed: Result<PeriodType, ParsePeriodTypeError>)
        ensures
            match PeriodType::parsed(s@) {
                Some(value) => parsed == Ok::<PeriodType, ParsePeriodTypeError>(value),
                None => parsed matches Err(error) && error.0@ == s@,
            },
    {
        PeriodType::from_str(s)
    }
}

/// A text that names no home/road value. It carries the text.
#[derive(Debug, Clone, PartialEq, Eq)]
pub struct ParseHomeRoadError(pub String);

impl ParseHomeRoadError {
    /// The error as a line of text: what was expected, then the text that
    /// was found.
    pub fn to_string(&self) -> (text: String)
        ensures
            text@ == "Unknown home/road value: "@ + self.0@,
    {
        String::from_str("Unknown home/road value: ").concat(self.0.as_str())
    }
}

/// Whether a team plays at home or on the road.
#[derive(Debug, Clone, Copy, PartialEq, Eq, Hash, Structural)]
pub enum HomeRoad {
    /// At home.
    Home,
    /// On the road.
    Road,
}

impl HomeRoad {
    /// The code of this home/road value as the API writes it.
    pub open spec fn code_text(self) -> Seq<char> {
        match self {
            HomeRoad::Home => "H"@,
            HomeRoad::Road => "R"@,
        }
    }

    /// The name of this home/road value in words.
    pub open spec fn name_text(self) -> Seq<char> {
        match self {
            HomeRoad::Home => "Home"@,
            HomeRoad::Road => "Road"@,
        }
    }

    /// The home/road value that `text` names, if it names one.
    pub open spec fn parsed(text: Seq<char>) -> Option<HomeRoad> {
        if text == "H"@ {
            Some(HomeRoad::Home)
        } else if text == "R"@ {
            Some(HomeRoad::Road)
        } else {
            None
        }
    }

    /// The code of a home/road value, read again, names that home/road value.
    pub proof fn lemma_code_parses_back(value: HomeRoad)
        ensures
            Self::parsed(value.code_text()) == Some(value),
    {
        reveal_strlit("H");
        reveal_strlit("R");
        assert("H"@[0] != "R"@[0]);
    }

    /// The code of this home/road value as the API writes it.
    pub fn code(&self) -> (code: &'static str)
        ensures
            code@ == self.code_text(),
    {
        match self {
            HomeRoad::Home => "H",
            HomeRoad::Road => "R",
        }
    }

    /// The name of this home/road value in words.
    pub fn name(&self) -> (name: &'static str)
        ensures
            name@ == self.name_text(),
    {
        match self {
            HomeRoad::Home => "Home",
            HomeRoad::Road => "Road",
        }
    }

    /// This home/road value as text: its code.
    pub fn to_string(&self) -> (text: String)
        ensures
            text@ == self.code_text(),
    {
        String::from_str(self.code())
    }

    /// Reads a home/road value from its code. Any other text is an error that
    /// carries the text.
    pub fn from_str(s: &str) -> (parsed: Result<HomeRoad, ParseHomeRoadError>)
        ensures
            match Self::parsed(s@) {
                Some(value) => parsed == Ok::<HomeRoad, ParseHomeRoadError>(value),
                None => parsed matches Err(error) && error.0@ == s@,
            },
    {
        if str_eq(s, "H") {
            Ok(HomeRoad::Home)
        } else if str_eq(s, "R") {
            Ok(HomeRoad::Road)
        } else {
            Err(ParseHomeRoadError(String::from_str(s)))
        }
    }
}

impl core::str::FromStr for HomeRoad {
    type Err = ParseHomeRoadError;

    fn from_str(s: &str) -> (parsed: Result<HomeRoad, ParseHomeRoadError>)
        ensures
            match HomeRoad::parsed(s@) {
                Some(value) => parsed == Ok::<HomeRoad, ParseHomeRoadError>(value),
                None => parsed matches Err(error) && error.0@ == s@,
            },
    {
        HomeRoad::from_str(s)
    }
}

/// A text that names no zone code. It carries the text.
#[derive(Debug, Clone, PartialEq, Eq)]
pub struct ParseZoneCodeError(pub String);

impl ParseZoneCodeError {
    /// The error as a line of text: what was expected, then the text that
    /// was found.
    pub fn to_string(&self) -> (text: String)
        ensures
            text@ == "Unknown zone code: "@ + self.0@,
    {
        String::from_str("Unknown zone code: ").concat(self.0.as_str())
    }
}

/// The zone of the ice in which an event took place.
#[derive(Debug, Clone, Copy, PartialEq, Eq, Hash, Structural)]
pub enum ZoneCode {
    /// The offensive zone.
    Offensive,
    /// The defensive zone.
    Defensive,
    /// The neutral zone.
    Neutral,
}

impl ZoneCode {
    /// The code of this zone code as the API writes it.
    pub open spec fn code_text(self) -> Seq<char> {
        match self {
            ZoneCode::Offensive => "O"@,
            ZoneCode::Defensive => "D"@,
            ZoneCode::Neutral => "N"@,
        }
    }

    /// The name of this zone code in words.
    pub open spec fn name_text(self) -> Seq<char> {
        match self {
            ZoneCode::Offensive => "Offensive"@,
            ZoneCode::Defensive => "Defensive"@,
            ZoneCode::Neutral => "Neutral"@,
        }
    }

    /// The zone code that `text` names, if it names one.
    pub open spec fn parsed(text: Seq<char>) -> Option<ZoneCode> {
        if text == "O"@ {
            Some(ZoneCode::Offensive)
        } else if text == "D"@ {
            Some(ZoneCode::Defensive)
        } else if text == "N"@ {
            Some(ZoneCode::Neutral)
        } else {
            None
        }
    }

    /// The code of a zone code, read again, names that zone code.
    pub proof fn lemma_code_parses_back(value: ZoneCode)
        ensures
            Self::parsed(value.code_text()) == Some(value),
    {
        reveal_strlit("O");
        reveal_strlit("D");
        reveal_strlit("N");
        assert("O"@[0] != "D"@[0]);
        assert("O"@[0] != "N"@[0]);
        assert("D"@[0] != "N"@[0]);
    }

    /// The code of this zone code as the API writes it.
    pub fn code(&self) -> (code: &'static str)
        ensures
            code@ == self.code_text(),
    {
        match self {
            ZoneCode::Offensive => "O",
            ZoneCode::Defensive => "D",
            ZoneCode::Neutral => "N",
        }
    }

    /// The name of this zone code in words.
    pub fn name(&self) -> (name: &'static str)
        ensures
            name@ == self.name_text(),
    {
        match self {
            ZoneCode::Offensive => "Offensive",
            ZoneCode::Defensive => "Defensive",
            ZoneCode::Neutral => "Neutral",
        }
    }

    /// This zone code as text: its code.
    pub fn to_string(&self) -> (text: String)
        ensures
            text@ == self.code_text(),
    {
        String::from_str(self.code())
    }

    /// Reads a zone code from its code. Any other text is an error that
    /// carries the text.
    pub fn from_str(s: &str) -> (parsed: Result<ZoneCode, ParseZoneCodeError>)
        ensures
            match Self::parsed(s@) {
                Some(value) => parsed == Ok::<ZoneCode, ParseZoneCodeError>(value),
                None => parsed matches Err(error) && error.0@ == s@,
            },
    {
        if str_eq(s, "O") {
            Ok(ZoneCode::Offensive)
        } else if str_eq(s, "D") {
            Ok(ZoneCode::Defensive)
        } else if str_eq(s, "N") {
            Ok(ZoneCode::Neutral)
        } else {
            Err(ParseZoneCodeError(String::from_str(s)))
        }
    }
}

impl core::str::FromStr for ZoneCode {
    type Err = ParseZoneCodeError;

    fn from_str(s: &str) -> (parsed: Result<ZoneCode, ParseZoneCodeError>)
        ensures
            match ZoneCode::parsed(s@) {
                Some(value) => parsed == Ok::<ZoneCode, ParseZoneCodeError>(value),
                None => parsed matches Err(error) && error.0@ == s@,
            },
    {
        ZoneCode::from_str(s)
    }
}

/// The lowercase form of `text`: the value of std's `str::to_lowercase`.
pub uninterp spec fn lowercase_of(text: Seq<char>) -> Seq<char>;

/// The lowercase form of `s`, by std's `str::to_lowercase`, which follows
/// the Unicode tables.
#[verifier::external_body]
fn to_lowercase(s: &str) -> (lowered: String)
    ensures
        lowered@ == lowercase_of(s@),
{
    s.to_lowercase()
}

/// A text that names no side of the ice. It carries the text.
#[derive(Debug, Clone, PartialEq, Eq)]
pub struct ParseDefendingSideError(pub String);

impl ParseDefendingSideError {
    /// The error as a line of text: what was expected, then the text that
    /// was found.
    pub fn to_string(&self) -> (text: String)
        ensures
            text@ == "Unknown defending side: "@ + self.0@,
    {
        String::from_str("Unknown defending side: ").concat(self.0.as_str())
    }
}

/// The side of the ice that the home team defends.
#[derive(Debug, Clone, Copy, PartialEq, Eq, Hash, Structural)]
pub enum DefendingSide {
    /// The left side.
    Left,
    /// The right side.
    Right,
}

impl DefendingSide {
    /// The name of this side as the API writes it, in lowercase.
    pub open spec fn name_text(self) -> Seq<char> {
        match self {
            DefendingSide::Left => "left"@,
            DefendingSide::Right => "right"@,
        }
    }

    /// The side that a lowercase text names, if it names one.
    pub open spec fn named(lowered: Seq<char>) -> Option<DefendingSide> {
        if lowered == "left"@ {
            Some(DefendingSide::Left)
        } else if lowered == "right"@ {
            Some(DefendingSide::Right)
        } else {
            None
        }
    }

    /// The side that `text` names in any mix of upper and lower case, if it
    /// names one.
    pub open spec fn parsed(text: Seq<char>) -> Option<DefendingSide> {
        Self::named(lowercase_of(text))
    }

    /// The name of a side names that side.
    pub proof fn lemma_name_names_side(value: DefendingSide)
        ensures
            Self::named(value.name_text()) == Some(value),
    {
        reveal_strlit("left");
        reveal_strlit("right");
        assert("left"@.len() != "right"@.len());
    }

    /// The name of this side as the API writes it, in lowercase.
    pub fn name(&self) -> (name: &'static str)
        ensures
            name@ == self.name_text(),
    {
        match self {
            DefendingSide::Left => "left",
            DefendingSide::Right => "right",
        }
    }

    /// This side as text: its name.
    pub fn to_string(&self) -> (text: String)
        ensures
            text@ == self.name_text(),
    {
        String::from_str(self.name())
    }

    /// The side that `lowered` names, where `lowered` is the lowercase form
    /// of `given`. A text that names no side is an error that carries the
    /// text as it was given.
    pub fn from_lowercase(lowered: &str, given: &str) -> (parsed: Result<
        DefendingSide,
        ParseDefendingSideError,
    >)
        ensures
            match Self::named(lowered@) {
                Some(value) => parsed == Ok::<DefendingSide, ParseDefendingSideError>(value),
                None => parsed matches Err(error) && error.0@ == given@,
            },
    {
        if str_eq(lowered, "left") {
            Ok(DefendingSide::Left)
        } else if str_eq(lowered, "right") {
            Ok(DefendingSide::Right)
        } else {
            Err(ParseDefendingSideError(String::from_str(given)))
        }
    }

    /// Reads a side from its name, in any mix of upper and lower case. Any
    /// other text is an error that carries the text.
    pub fn from_str(s: &str) -> (parsed: Result<DefendingSide, ParseDefendingSideError>)
        ensures
            match Self::parsed(s@) {
                Some(value) => parsed == Ok::<DefendingSide, ParseDefendingSideError>(value),
                None => parsed matches Err(error) && error.0@ == s@,
            },
    {
        let lowered = to_lowercase(s);
        Self::from_lowercase(lowered.as_str(), s)
    }
}

impl core::str::FromStr for DefendingSide {
    type Err = ParseDefendingSideError;

    fn from_str(s: &str) -> (parsed: Result<DefendingSide, ParseDefendingSideError>)
        ensures
            match DefendingSide::parsed(s@) {
                Some(value) => parsed == Ok::<DefendingSide, ParseDefendingSideError>(value),
                None => parsed matches Err(error) && error.0@ == s@,
            },
    {
        DefendingSide::from_str(s)
    }
}

/// A text that names no game schedule state. It carries the text.
#[derive(Debug, Clone, PartialEq, Eq)]
pub struct ParseGameScheduleStateError(pub String);

impl ParseGameScheduleStateError {
    /// The error as a line of text: what was expected, then the text that
    /// was found.
    pub fn to_string(&self) -> (text: String)
        ensures
            text@ == "Unknown game schedule state: "@ + self.0@,
    {
        String::from_str("Unknown game schedule state: ").concat(self.0.as_str())
    }
}

/// Whether a game stands in the schedule as planned.
#[derive(Debug, Clone, Copy, PartialEq, Eq, Hash, Structural)]
pub enum GameScheduleState {
    /// The game is to be played as planned. The API writes it `OK`.
    Okay,
    /// The game is postponed.
    Postponed,
    /// The game is suspended.
    Suspended,
    /// The game is cancelled.
    Cancelled,
}

impl GameScheduleState {
    /// The code of this game schedule state as the API writes it.
    pub open spec fn code_text(self) -> Seq<char> {
        match self {
            GameScheduleState::Okay => "OK"@,
            GameScheduleState::Postponed => "PPD"@,
            GameScheduleState::Suspended => "SUSP"@,
            GameScheduleState::Cancelled => "CNCL"@,
        }
    }

    /// The name of this game schedule state in words.
    pub open spec fn name_text(self) -> Seq<char> {
        match self {
            GameScheduleState::Okay => "OK"@,
            GameScheduleState::Postponed => "Postponed"@,
            GameScheduleState::Suspended => "Suspended"@,
            GameScheduleState::Cancelled => "Cancelled"@,
        }
    }

    /// The game schedule state that `text` names, if it names one.
    pub open spec fn parsed(text: Seq<char>) -> Option<GameScheduleState> {
        if text == "OK"@ {
            Some(GameScheduleState::Okay)
        } else if text == "PPD"@ {
            Some(GameScheduleState::Postponed)
        } else if text == "SUSP"@ {
            Some(GameScheduleState::Suspended)
        } else if text == "CNCL"@ {
            Some(GameScheduleState::Cancelled)
        } else {
            None
        }
    }

    /// The code of a game schedule state, read again, names that game schedule state.
    pub proof fn lemma_code_parses_back(value: GameScheduleState)
        ensures
            Self::parsed(value.code_text()) == Some(value),
    {
        reveal_strlit("OK");
        reveal_strlit("PPD");
        reveal_strlit("SUSP");
        reveal_strlit("CNCL");
        assert("OK"@.len() != "PPD"@.len());
        assert("OK"@.len() != "SUSP"@.len());
        assert("OK"@.len() != "CNCL"@.len());
        assert("PPD"@.len() != "SUSP"@.len());
        assert("PPD"@.len() != "CNCL"@.len());
        assert("SUSP"@[0] != "CNCL"@[0]);
    }

    /// The code of this game schedule state as the API writes it.
    pub fn code(&self) -> (code: &'static str)
        ensures
            code@ == self.code_text(),
    {
        match self {
            GameScheduleState::Okay => "OK",
            GameScheduleState::Postponed => "PPD",
            GameScheduleState::Suspended => "SUSP",
            GameScheduleState::Cancelled => "CNCL",
        }
    }

    /// The name of this game schedule state in words.
    pub fn name(&self) -> (name: &'static str)
        ensures
            name@ == self.name_text(),
    {
        match self {
            GameScheduleState::Okay => "OK",
            GameScheduleState::Postponed => "Postponed",
            GameScheduleState::Suspended => "Suspended",
            GameScheduleState::Cancelled => "Cancelled",
        }
    }

    /// True when the game can be played: it is neither postponed, suspended nor cancelled.
    pub fn is_playable(&self) -> (answer: bool)
        ensures
            answer == (*self is Okay),
    {
        match self {
            GameScheduleState::Okay => true,
            _ => false,
        }
    }

    /// This game schedule state as text: its code.
    pub fn to_string(&self) -> (text: String)
        ensures
            text@ == self.code_text(),
    {
        String::from_str(self.code())
    }

    /// Reads a game schedule state from its code. Any other text is an error that
    /// carries the text.
    pub fn from_str(s: &str) -> (parsed: Result<GameScheduleState, ParseGameScheduleStateError>)
        ensures
            match Self::parsed(s@) {
                Some(value) => parsed == Ok::<GameScheduleState, ParseGameScheduleStateError>(value),
                None => parsed matches Err(error) && error.0@ == s@,
            },
    {
        if str_eq(s, "OK") {
            Ok(GameScheduleState::Okay)
        } else if str_eq(s, "PPD") {
            Ok(GameScheduleState::Postponed)
        } else if str_eq(s, "SUSP") {
            Ok(GameScheduleState::Suspended)
        } else if str_eq(s, "CNCL") {
            Ok(GameScheduleState::Cancelled)
        } else {
            Err(ParseGameScheduleStateError(String::from_str(s)))
        }
    }
}

impl core::str::FromStr for GameScheduleState {
    type Err = ParseGameScheduleStateError;

    fn from_str(s: &str) -> (parsed: Result<GameScheduleState, ParseGameScheduleStateError>)
        ensures
            match GameScheduleState::parsed(s@) {
                Some(value) => parsed == Ok::<GameScheduleState, ParseGameScheduleStateError>(value),
                None => parsed matches Err(error) && error.0@ == s@,
            },
    {
        GameScheduleState::from_str(s)
    }
}

} // verus!
