//! The closed sets of values that the API writes as short codes.

pub mod game_enums;
pub mod player_enums;

pub use game_enums::{
    DefendingSide, GameScheduleState, HomeRoad, ParseDefendingSideError,
    ParseGameScheduleStateError, ParseHomeRoadError, ParsePeriodTypeError, ParseZoneCodeError,
    PeriodType, ZoneCode,
};
pub use player_enums::{
    GoalieDecision, Handedness, ParseGoalieDecisionError, ParseHandednessError,
    ParsePositionError, Position,
};
