//! The type of a game: where in the season it belongs.

use vstd::prelude::*;
use vstd::string::*;

verus! {

/// The type of a game. The API writes it as a number from 1 to 4.
#[derive(Debug, Clone, Copy, PartialEq, Eq, Hash, Structural)]
pub enum GameType {
    /// A game of the preseason.
    Preseason,
    /// A game of the regular season.
    RegularSeason,
    /// A game of the playoffs.
    Playoffs,
    /// The All-Star game.
    AllStar,
}

impl GameType {
    /// The number that the API writes for this type.
    pub open spec fn number(self) -> int {
        match self {
            GameType::Preseason => 1,
            GameType::RegularSeason => 2,
            GameType::Playoffs => 3,
            GameType::AllStar => 4,
        }
    }

    /// The type that the API writes as `value`, if there is one.
    pub open spec fn of_number(value: int) -> Option<GameType> {
        if value == 1 {
            Some(GameType::Preseason)
        } else if value == 2 {
            Some(GameType::RegularSeason)
        } else if value == 3 {
            Some(GameType::Playoffs)
        } else if value == 4 {
            Some(GameType::AllStar)
        } else {
            None
        }
    }

    /// The name of this type in words.
    pub open spec fn name_text(self) -> Seq<char> {
        match self {
            GameType::Preseason => "Preseason"@,
            GameType::RegularSeason => "Regular Season"@,
            GameType::Playoffs => "Playoffs"@,
            GameType::AllStar => "All-Star"@,
        }
    }

    /// The number of a type stands for that type, and a number that stands
    /// for a type is the number of that type.
    pub proof fn lemma_number_round_trip(game_type: GameType, value: int)
        ensures
            Self::of_number(game_type.number()) == Some(game_type),
            Self::of_number(value) matches Some(found) ==> found.number() == value,
    {
    }

    /// The number that the API writes for this type.
    pub fn to_int(self) -> (value: i32)
        ensures
            value == self.number(),
    {
        match self {
            GameType::Preseason => 1,
            GameType::RegularSeason => 2,
            GameType::Playoffs => 3,
            GameType::AllStar => 4,
        }
    }

    /// The type that the API writes as `value`; `None` for a number that
    /// stands for no type.
    pub fn from_int(value: i32) -> (game_type: Option<GameType>)
        ensures
            game_type == Self::of_number(value as int),
    {
        match value {
            1 => Some(GameType::Preseason),
            2 => Some(GameType::RegularSeason),
            3 => Some(GameType::Playoffs),
            4 => Some(GameType::AllStar),
            _ => None,
        }
    }

    /// The name of this type in words.
    pub fn name(&self) -> (name: &'static str)
        ensures
            name@ == self.name_text(),
    {
        match self {
            GameType::Preseason => "Preseason",
            GameType::RegularSeason => "Regular Season",
            GameType::Playoffs => "Playoffs",
            GameType::AllStar => "All-Star",
        }
    }

    /// This type as text: its name in words.
    pub fn to_string(&self) -> (text: String)
        ensures
            text@ == self.name_text(),
    {
        String::from_str(self.name())
    }
}

} // verus!
