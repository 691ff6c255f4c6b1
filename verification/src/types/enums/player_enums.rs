//! What describes a player: position, handedness, and the decision credited to a goalie.

use vstd::prelude::*;
use vstd::string::*;
use crate::text::str_eq;

verus! {

/// A text that names no position. It carries the text.
#[derive(Debug, Clone, PartialEq, Eq)]
pub struct ParsePositionError(pub String);

impl ParsePositionError {
    /// The error as a line of text: what was expected, then the text that
    /// was found.
    pub fn to_string(&self) -> (text: String)
        ensures
            text@ == "Unknown position: "@ + self.0@,
    {
        String::from_str("Unknown position: ").concat(self.0.as_str())
    }
}

/// The position that a player plays.
#[derive(Debug, Clone, Copy, PartialEq, Eq, Hash, Structural)]
pub enum Position {
    /// Center.
    Center,
    /// Left wing. Some resources write it `L`.
    LeftWing,
    /// Right wing. Some resources write it `R`.
    RightWing,
    /// Defense.
    Defense,
    /// Goalie.
    Goalie,
}

impl Position {
    /// The code of this position as the API writes it.
    pub open spec fn code_text(self) -> Seq<char> {
        match self {
            Position::Center => "C"@,
            Position::LeftWing => "LW"@,
            Position::RightWing => "RW"@,
            Position::Defense => "D"@,
            Position::Goalie => "G"@,
        }
    }

    /// The name of this position in words.
    pub open spec fn name_text(self) -> Seq<char> {
        match self {
            Position::Center => "Center"@,
            Position::LeftWing => "Left Wing"@,
            Position::RightWing => "Right Wing"@,
            Position::Defense => "Defense"@,
            Position::Goalie => "Goalie"@,
        }
    }

    /// The position that `text` names, if it names one.
    pub open spec fn parsed(text: Seq<char>) -> Option<Position> {
        if text == "C"@ {
            Some(Position::Center)
        } else if text == "L"@ || text == "LW"@ {
            Some(Position::LeftWing)
        } else if text == "R"@ || text == "RW"@ {
            Some(Position::RightWing)
        } else if text == "D"@ {
            Some(Position::Defense)
        } else if text == "G"@ {
            Some(Position::Goalie)
        } else {
            None
        }
    }

    /// The code of a position, read again, names that position.
    pub proof fn lemma_code_parses_back(value: Position)
        ensures
            Self::parsed(value.code_text()) == Some(value),
    {
        reveal_strlit("C");
        reveal_strlit("L");
        reveal_strlit("LW");
        reveal_strlit("R");
        reveal_strlit("RW");
        reveal_strlit("D");
        reveal_strlit("G");
        assert("C"@[0] != "L"@[0]);
        assert("C"@.len() != "LW"@.len());
        assert("C"@[0] != "R"@[0]);
        assert("C"@.len() != "RW"@.len());
        assert("C"@[0] != "D"@[0]);
        assert("C"@[0] != "G"@[0]);
        assert("L"@.len() != "LW"@.len());
        assert("L"@[0] != "R"@[0]);
        assert("L"@.len() != "RW"@.len());
        assert("L"@[0] != "D"@[0]);
        assert("L"@[0] != "G"@[0]);
        assert("LW"@.len() != "R"@.len());
        assert("LW"@[0] != "RW"@[0]);
        assert("LW"@.len() != "D"@.len());
        assert("LW"@.len() != "G"@.len());
        assert("R"@.len() != "RW"@.len());
        assert("R"@[0] != "D"@[0]);
        assert("R"@[0] != "G"@[0]);
        assert("RW"@.len() != "D"@.len());
        assert("RW"@.len() != "G"@.len());
        assert("D"@[0] != "G"@[0]);
    }

    /// The code of this position as the API writes it.
    pub fn code(&self) -> (code: &'static str)
        ensures
            code@ == self.code_text(),
    {
        match self {
            Position::Center => "C",
            Position::LeftWing => "LW",
            Position::RightWing => "RW",
            Position::Defense => "D",
            Position::Goalie => "G",
        }
    }

    /// The name of this position in words.
    pub fn name(&self) -> (name: &'static str)
        ensures
            name@ == self.name_text(),
    {
        match self {
            Position::Center => "Center",
            Position::LeftWing => "Left Wing",
            Position::RightWing => "Right Wing",
            Position::Defense => "Defense",
            Position::Goalie => "Goalie",
        }
    }

    /// True for the forward positions: center and the two wings.
    pub fn is_forward(&self) -> (answer: bool)
        ensures
            answer == (*self is Center || *self is LeftWing || *self is RightWing),
    {
        match self {
            Position::Center | Position::LeftWing | Position::RightWing => true,
            _ => false,
        }
    }

    /// True for every position but the goalie.
    pub fn is_skater(&self) -> (answer: bool)
        ensures
            answer == !(*self is Goalie),
    {
        match self {
            Position::Goalie => false,
            _ => true,
        }
    }

    /// This position as text: its code.
    pub fn to_string(&self) -> (text: String)
        ensures
            text@ == self.code_text(),
    {
        String::from_str(self.code())
    }

    /// Reads a position from its code. Any other text is an error that
    /// carries the text.
    pub fn from_str(s: &str) -> (parsed: Result<Position, ParsePositionError>)
        ensures
            match Self::parsed(s@) {
                Some(value) => parsed == Ok::<Position, ParsePositionError>(value),
                None => parsed matches Err(error) && error.0@ == s@,
            },
    {
        if str_eq(s, "C") {
            Ok(Position::Center)
        } else if str_eq(s, "L") || str_eq(s, "LW") {
            Ok(Position::LeftWing)
        } else if str_eq(s, "R") || str_eq(s, "RW") {
            Ok(Position::RightWing)
        } else if str_eq(s, "D") {
            Ok(Position::Defense)
        } else if str_eq(s, "G") {
            Ok(Position::Goalie)
        } else {
            Err(ParsePositionError(String::from_str(s)))
        }
    }
}

impl core::str::FromStr for Position {
    type Err = ParsePositionError;

    fn from_str(s: &str) -> (parsed: Result<Position, ParsePositionError>)
        ensures
            match Position::parsed(s@) {
                Some(value) => parsed == Ok::<Position, ParsePositionError>(value),
                None => parsed matches Err(error) && error.0@ == s@,
            },
    {
        Position::from_str(s)
    }
}

/// A text that names no handedness. It carries the text.
#[derive(Debug, Clone, PartialEq, Eq)]
pub struct ParseHandednessError(pub String);

impl ParseHandednessError {
    /// The error as a line of text: what was expected, then the text that
    /// was found.
    pub fn to_string(&self) -> (text: String)
        ensures
            text@ == "Unknown handedness: "@ + self.0@,
    {
        String::from_str("Unknown handedness: ").concat(self.0.as_str())
    }
}

/// The hand with which a player shoots or catches.
#[derive(Debug, Clone, Copy, PartialEq, Eq, Hash, Structural)]
pub enum Handedness {
    /// Left-handed.
    Left,
    /// Right-handed.
    Right,
}

impl Handedness {
    /// The code of this handedness as the API writes it.
    pub open spec fn code_text(self) -> Seq<char> {
        match self {
            Handedness::Left => "L"@,
            Handedness::Right => "R"@,
        }
    }

    /// The name of this handedness in words.
    pub open spec fn name_text(self) -> Seq<char> {
        match self {
            Handedness::Left => "Left"@,
            Handedness::Right => "Right"@,
        }
    }

    /// The handedness that `text` names, if it names one.
    pub open spec fn parsed(text: Seq<char>) -> Option<Handedness> {
        if text == "L"@ {
            Some(Handedness::Left)
        } else if text == "R"@ {
            Some(Handedness::Right)
        } else {
            None
        }
    }

    /// The code of a handedness, read again, names that handedness.
    pub proof fn lemma_code_parses_back(value: Handedness)
        ensures
            Self::parsed(value.code_text()) == Some(value),
    {
        reveal_strlit("L");
        reveal_strlit("R");
        assert("L"@[0] != "R"@[0]);
    }

    /// The code of this handedness as the API writes it.
    pub fn code(&self) -> (code: &'static str)
        ensures
            code@ == self.code_text(),
    {
        match self {
            Handedness::Left => "L",
            Handedness::Right => "R",
        }
    }

    /// The name of this handedness in words.
    pub fn name(&self) -> (name: &'static str)
        ensures
            name@ == self.name_text(),
    {
        match self {
            Handedness::Left => "Left",
            Handedness::Right => "Right",
        }
    }

    /// This handedness as text: its code.
    pub fn to_string(&self) -> (text: String)
        ensures
            text@ == self.code_text(),
    {
        String::from_str(self.code())
    }

    /// Reads a handedness from its code. Any other text is an error that
    /// carries the text.
    pub fn from_str(s: &str) -> (parsed: Result<Handedness, ParseHandednessError>)
        ensures
            match Self::parsed(s@) {
                Some(value) => parsed == Ok::<Handedness, ParseHandednessError>(value),
                None => parsed matches Err(error) && error.0@ == s@,
            },
    {
        if str_eq(s, "L") {
            Ok(Handedness::Left)
        } else if str_eq(s, "R") {
            Ok(Handedness::Right)
        } else {
            Err(ParseHandednessError(String::from_str(s)))
        }
    }
}

impl core::str::FromStr for Handedness {
    type Err = ParseHandednessError;

    fn from_str(s: &str) -> (parsed: Result<Handedness, ParseHandednessError>)
        ensures
            match Handedness::parsed(s@) {
                Some(value) => parsed == Ok::<Handedness, ParseHandednessError>(value),
                None => parsed matches Err(error) && error.0@ == s@,
            },
    {
        Handedness::from_str(s)
    }
}

/// A text that names no goalie decision. It carries the text.
#[derive(Debug, Clone, PartialEq, Eq)]
pub struct ParseGoalieDecisionError(pub String);

impl ParseGoalieDecisionError {
    /// The error as a line of text: what was expected, then the text that
    /// was found.
    pub fn to_string(&self) -> (text: String)
        ensures
            text@ == "Unknown goalie decision: "@ + self.0@,
    {
        String::from_str("Unknown goalie decision: ").concat(self.0.as_str())
    }
}

/// How a game is counted for the goalie of record.
#[derive(Debug, Clone, Copy, PartialEq, Eq, Hash, Structural)]
pub enum GoalieDecision {
    /// A win.
    Win,
    /// A loss.
    Loss,
    /// A loss in overtime.
    OvertimeLoss,
}

impl GoalieDecision {
    /// The code of this goalie decision as the API writes it.
    pub open spec fn code_text(self) -> Seq<char> {
        match self {
            GoalieDecision::Win => "W"@,
            GoalieDecision::Loss => "L"@,
            GoalieDecision::OvertimeLoss => "O"@,
        }
    }

    /// The name of this goalie decision in words.
    pub open spec fn name_text(self) -> Seq<char> {
        match self {
            GoalieDecision::Win => "Win"@,
            GoalieDecision::Loss => "Loss"@,
            GoalieDecision::OvertimeLoss => "Overtime Loss"@,
        }
    }

    /// The goalie decision that `text` names, if it names one.
    pub open spec fn parsed(text: Seq<char>) -> Option<GoalieDecision> {
        if text == "W"@ {
            Some(GoalieDecision::Win)
        } else if text == "L"@ {
            Some(GoalieDecision::Loss)
        } else if text == "O"@ {
            Some(GoalieDecision::OvertimeLoss)
        } else {
            None
        }
    }

    /// The code of a goalie decision, read again, names that goalie decision.
    pub proof fn lemma_code_parses_back(value: GoalieDecision)
        ensures
            Self::parsed(value.code_text()) == Some(value),
    {
        reveal_strlit("W");
        reveal_strlit("L");
        reveal_strlit("O");
        assert("W"@[0] != "L"@[0]);
        assert("W"@[0] != "O"@[0]);
        assert("L"@[0] != "O"@[0]);
    }

    /// The code of this goalie decision as the API writes it.
    pub fn code(&self) -> (code: &'static str)
        ensures
            code@ == self.code_text(),
    {
        match self {
            GoalieDecision::Win => "W",
            GoalieDecision::Loss => "L",
            GoalieDecision::OvertimeLoss => "O",
        }
    }

    /// The name of this goalie decision in words.
    pub fn name(&self) -> (name: &'static str)
        ensures
            name@ == self.name_text(),
    {
        match self {
            GoalieDecision::Win => "Win",
            GoalieDecision::Loss => "Loss",
            GoalieDecision::OvertimeLoss => "Overtime Loss",
        }
    }

    /// This goalie decision as text: its code.
    pub fn to_string(&self) -> (text: String)
        ensures
            text@ == self.code_text(),
    {
        String::from_str(self.code())
    }

    /// Reads a goalie decision from its code. Any other text is an error that
    /// carries the text.
    pub fn from_str(s: &str) -> (parsed: Result<GoalieDecision, ParseGoalieDecisionError>)
        ensures
            match Self::parsed(s@) {
                Some(value) => parsed == Ok::<GoalieDecision, ParseGoalieDecisionError>(value),
                None => parsed matches Err(error) && error.0@ == s@,
            },
    {
        if str_eq(s, "W") {
            Ok(GoalieDecision::Win)
        } else if str_eq(s, "L") {
            Ok(GoalieDecision::Loss)
        } else if str_eq(s, "O") {
            Ok(GoalieDecision::OvertimeLoss)
        } else {
            Err(ParseGoalieDecisionError(String::from_str(s)))
        }
    }
}

impl core::str::FromStr for GoalieDecision {
    type Err = ParseGoalieDecisionError;

    fn from_str(s: &str) -> (parsed: Result<GoalieDecision, ParseGoalieDecisionError>)
        ensures
            match GoalieDecision::parsed(s@) {
                Some(value) => parsed == Ok::<GoalieDecision, ParseGoalieDecisionError>(value),
                None => parsed matches Err(error) && error.0@ == s@,
            },
    {
        GoalieDecision::from_str(s)
    }
}

} // verus!
