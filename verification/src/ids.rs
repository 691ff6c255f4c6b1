//! Identifiers of the things that the API speaks of.

use vstd::prelude::*;
use crate::text::{decimal, i64_to_string, integer_of_text, parse_i64};

verus! {

/// The identifier of a game.
#[derive(Debug, Clone, Copy, PartialEq, Eq, Hash, PartialOrd, Ord, Structural)]
pub struct GameId(i64);

impl View for GameId {
    type V = int;

    closed spec fn view(&self) -> int {
        self.0 as int
    }
}

impl GameId {
    /// The identifier with the given number.
    pub closed spec fn spec_new(id: i64) -> GameId {
        GameId(id)
    }

    /// The number of this identifier.
    pub closed spec fn spec_as_i64(self) -> i64 {
        self.0
    }

    /// An identifier is its number and nothing else.
    pub proof fn lemma_number(id: i64, other: GameId)
        ensures
            Self::spec_new(id).spec_as_i64() == id,
            Self::spec_new(id)@ == id,
            Self::spec_new(other.spec_as_i64()) == other,
            other@ == other.spec_as_i64(),
    {
    }

    /// The identifier with the given number.
    pub fn new(id: i64) -> (game_id: GameId)
        ensures
            game_id == Self::spec_new(id),
            game_id@ == id,
    {
        GameId(id)
    }

    /// The number of this identifier.
    pub fn as_i64(&self) -> (id: i64)
        ensures
            id == self.spec_as_i64(),
            id == self@,
    {
        self.0
    }

    /// The number of this identifier in decimal.
    pub fn to_string(&self) -> (text: String)
        ensures
            text@ == decimal(self@),
    {
        i64_to_string(self.0)
    }

    /// Reads an identifier from its number in decimal: an optional sign
    /// and digits. Any other text, and a number that does not fit in 64
    /// bits, is an error.
    pub fn from_str(s: &str) -> (parsed: Result<GameId, core::num::ParseIntError>)
        ensures
            parsed is Ok <==> (integer_of_text(s@) matches Some(n) && i64::MIN <= n <= i64::MAX),
            parsed matches Ok(game_id) ==> integer_of_text(s@) == Some(game_id@),
    {
        match parse_i64(s) {
            Ok(id) => Ok(GameId(id)),
            Err(error) => Err(error),
        }
    }
}

impl core::str::FromStr for GameId {
    type Err = core::num::ParseIntError;

    fn from_str(s: &str) -> (parsed: Result<GameId, core::num::ParseIntError>)
        ensures
            parsed is Ok <==> (integer_of_text(s@) matches Some(n) && i64::MIN <= n <= i64::MAX),
            parsed matches Ok(game_id) ==> integer_of_text(s@) == Some(game_id@),
    {
        GameId::from_str(s)
    }
}

impl From<i64> for GameId {
    fn from(id: i64) -> (game_id: GameId) {
        GameId(id)
    }
}

impl vstd::std_specs::convert::FromSpecImpl<i64> for GameId {
    open spec fn obeys_from_spec() -> bool {
        true
    }

    open spec fn from_spec(id: i64) -> GameId {
        GameId::spec_new(id)
    }
}

impl From<GameId> for i64 {
    fn from(game_id: GameId) -> (id: i64) {
        game_id.0
    }
}

impl vstd::std_specs::convert::FromSpecImpl<GameId> for i64 {
    open spec fn obeys_from_spec() -> bool {
        true
    }

    open spec fn from_spec(game_id: GameId) -> i64 {
        game_id.spec_as_i64()
    }
}

} // verus!
