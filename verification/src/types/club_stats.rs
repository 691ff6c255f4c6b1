//! The seasons and game types for which a club has statistics.

use vstd::prelude::*;
use vstd::string::*;
use crate::text::{decimal, i64_to_string};
use crate::types::game_type::GameType;

verus! {

/// Season game type availability for a team
#[derive(Debug, Clone, PartialEq, Eq, Hash)]
pub struct SeasonGameTypes {
    pub season: i32,
    pub game_types: Vec<GameType>,
}

/// The names of the game types of `types`, with a comma and a space
/// between one and the next.
pub open spec fn names_joined(types: Seq<GameType>) -> Seq<char>
    decreases types.len(),
{
    if types.len() == 0 {
        Seq::<char>::empty()
    } else if types.len() == 1 {
        types[0].name_text()
    } else {
        names_joined(types.drop_last()) + ", "@ + types.last().name_text()
    }
}

impl SeasonGameTypes {
    /// This entry as a line of text: the season, a colon, and the names
    /// of its game types.
    pub open spec fn text(self) -> Seq<char> {
        decimal(self.season as int) + ": "@ + names_joined(self.game_types@)
    }

    /// This entry as a line of text: the season, a colon, and the names
    /// of its game types.
    pub fn to_string(&self) -> (text: String)
        ensures
            text@ == self.text(),
    {
        let mut names = String::new();
        let mut i: usize = 0;
        while i < self.game_types.len()
            invariant
                i <= self.game_types.len(),
                names@ == names_joined(self.game_types@.take(i as int)),
            decreases self.game_types.len() - i,
        {
            let ghost before = self.game_types@.take(i as int);
            let ghost after = self.game_types@.take(i + 1);
            assert(after.drop_last() =~= before);
            assert(after.last() == self.game_types@[i as int]);
            if i > 0 {
                names.append(", ");
            }
            names.append(self.game_types[i].name());
            assert(names@ =~= names_joined(after));
            i += 1;
        }
        assert(self.game_types@.take(i as int) =~= self.game_types@);
        i64_to_string(self.season as i64).concat(": ").concat(names.as_str())
    }
}

} // verus!
