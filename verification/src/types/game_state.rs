//! The state of a game.

use vstd::prelude::*;
use vstd::string::*;
use crate::text::str_eq;

verus! {

/// A text that names no game state. It carries the text.
#[derive(Debug, Clone, PartialEq, Eq)]
pub struct ParseGameStateError(pub String);

impl ParseGameStateError {
    /// The error as a line of text: what was expected, then the text that
    /// was found.
    pub fn to_string(&self) -> (text: String)
        ensures
            text@ == "Unknown game state: "@ + self.0@,
    {
        String::from_str("Unknown game state: ").concat(self.0.as_str())
    }
}

/// Where a game stands, from scheduled to final.
#[derive(Debug, Clone, Copy, PartialEq, Eq, Hash, Structural)]
pub enum GameState {
    /// Scheduled, not yet near.
    Future,
    /// About to begin.
    PreGame,
    /// In progress.
    Live,
    /// Over.
    Final,
    /// Over and official.
    Off,
    /// Postponed.
    Postponed,
    /// Suspended.
    Suspended,
    /// In progress and close to its end.
    Critical,
}

impl GameState {
    /// The code of this game state as the API writes it.
    pub open spec fn code_text(self) -> Seq<char> {
        match self {
            GameState::Future => "FUT"@,
            GameState::PreGame => "PRE"@,
            GameState::Live => "LIVE"@,
            GameState::Final => "FINAL"@,
            GameState::Off => "OFF"@,
            GameState::Postponed => "PPD"@,
            GameState::Suspended => "SUSP"@,
            GameState::Critical => "CRIT"@,
        }
    }

    /// The game state that `text` names, if it names one.
    pub open spec fn parsed(text: Seq<char>) -> Option<GameState> {
        if text == "FUT"@ {
            Some(GameState::Future)
        } else if text == "PRE"@ {
            Some(GameState::PreGame)
        } else if text == "LIVE"@ {
            Some(GameState::Live)
        } else if text == "FINAL"@ {
            Some(GameState::Final)
        } else if text == "OFF"@ {
            Some(GameState::Off)
        } else if text == "PPD"@ {
            Some(GameState::Postponed)
        } else if text == "SUSP"@ {
            Some(GameState::Suspended)
        } else if text == "CRIT"@ {
            Some(GameState::Critical)
        } else {
            None
        }
    }

    /// The code of a game state, read again, names that game state.
    pub proof fn lemma_code_parses_back(value: GameState)
        ensures
            Self::parsed(value.code_text()) == Some(value),
    {
        reveal_strlit("FUT");
        reveal_strlit("PRE");
        reveal_strlit("LIVE");
        reveal_strlit("FINAL");
        reveal_strlit("OFF");
        reveal_strlit("PPD");
        reveal_strlit("SUSP");
        reveal_strlit("CRIT");
        assert("FUT"@[0] != "PRE"@[0]);
        assert("FUT"@.len() != "LIVE"@.len());
        assert("FUT"@.len() != "FINAL"@.len());
        assert("FUT"@[0] != "OFF"@[0]);
        assert("FUT"@[0] != "PPD"@[0]);
        assert("FUT"@.len() != "SUSP"@.len());
        assert("FUT"@.len() != "CRIT"@.len());
        assert("PRE"@.len() != "LIVE"@.len());
        assert("PRE"@.len() != "FINAL"@.len());
        assert("PRE"@[0] != "OFF"@[0]);
        assert("PRE"@[1] != "PPD"@[1]);
        assert("PRE"@.len() != "SUSP"@.len());
        assert("PRE"@.len() != "CRIT"@.len());
        assert("LIVE"@.len() != "FINAL"@.len());
        assert("LIVE"@.len() != "OFF"@.len());
        assert("LIVE"@.len() != "PPD"@.len());
        assert("LIVE"@[0] != "SUSP"@[0]);
        assert("LIVE"@[0] != "CRIT"@[0]);
        assert("FINAL"@.len() != "OFF"@.len());
        assert("FINAL"@.len() != "PPD"@.len());
        assert("FINAL"@.len() != "SUSP"@.len());
        assert("FINAL"@.len() != "CRIT"@.len());
        assert("OFF"@[0] != "PPD"@[0]);
        assert("OFF"@.len() != "SUSP"@.len());
        assert("OFF"@.len() != "CRIT"@.len());
        assert("PPD"@.len() != "SUSP"@.len());
        assert("PPD"@.len() != "CRIT"@.len());
        assert("SUSP"@[0] != "CRIT"@[0]);
    }

    /// The code of this game state as the API writes it.
    pub fn as_str(&self) -> (code: &'static str)
        ensures
            code@ == self.code_text(),
    {
        match self {
            GameState::Future => "FUT",
            GameState::PreGame => "PRE",
            GameState::Live => "LIVE",
            GameState::Final => "FINAL",
            GameState::Off => "OFF",
            GameState::Postponed => "PPD",
            GameState::Suspended => "SUSP",
            GameState::Critical => "CRIT",
        }
    }

    /// True when play has begun: the game is in progress or over.
    pub fn has_started(&self) -> (answer: bool)
        ensures
            answer == (*self is Live || *self is Critical || *self is Final || *self is Off),
    {
        match self {
            GameState::Live | GameState::Critical | GameState::Final | GameState::Off => true,
            _ => false,
        }
    }

    /// True when the game is over.
    pub fn is_final(&self) -> (answer: bool)
        ensures
            answer == (*self is Final || *self is Off),
    {
        match self {
            GameState::Final | GameState::Off => true,
            _ => false,
        }
    }

    /// True when the game is in progress.
    pub fn is_live(&self) -> (answer: bool)
        ensures
            answer == (*self is Live || *self is Critical),
    {
        match self {
            GameState::Live | GameState::Critical => true,
            _ => false,
        }
    }

    /// True when the game is scheduled and has not begun.
    pub fn is_scheduled(&self) -> (answer: bool)
        ensures
            answer == (*self is Future || *self is PreGame),
    {
        match self {
            GameState::Future | GameState::PreGame => true,
            _ => false,
        }
    }

    /// This game state as text: its code.
    pub fn to_string(&self) -> (text: String)
        ensures
            text@ == self.code_text(),
    {
        String::from_str(self.as_str())
    }

    /// Reads a game state from its code. Any other text is an error that
    /// carries the text.
    pub fn from_str(s: &str) -> (parsed: Result<GameState, ParseGameStateError>)
        ensures
            match Self::parsed(s@) {
                Some(value) => parsed == Ok::<GameState, ParseGameStateError>(value),
                None => parsed matches Err(error) && error.0@ == s@,
            },
    {
        if str_eq(s, "FUT") {
            Ok(GameState::Future)
        } else if str_eq(s, "PRE") {
            Ok(GameState::PreGame)
        } else if str_eq(s, "LIVE") {
            Ok(GameState::Live)
        } else if str_eq(s, "FINAL") {
            Ok(GameState::Final)
        } else if str_eq(s, "OFF") {
            Ok(GameState::Off)
        } else if str_eq(s, "PPD") {
            Ok(GameState::Postponed)
        } else if str_eq(s, "SUSP") {
            Ok(GameState::Suspended)
        } else if str_eq(s, "CRIT") {
            Ok(GameState::Critical)
        } else {
            Err(ParseGameStateError(String::from_str(s)))
        }
    }
}

impl core::str::FromStr for GameState {
    type Err = ParseGameStateError;

    fn from_str(s: &str) -> (parsed: Result<GameState, ParseGameStateError>)
        ensures
            match GameState::parsed(s@) {
                Some(value) => parsed == Ok::<GameState, ParseGameStateError>(value),
                None => parsed matches Err(error) && error.0@ == s@,
            },
    {
        GameState::from_str(s)
    }
}

} // verus!
