//! Codes, names and parsing of the enumerations.

use nhl_api::types::enums::{DefendingSide, GameScheduleState, GoalieDecision, Handedness, HomeRoad, ParsePositionError, PeriodType, Position, ZoneCode};
use std::collections::HashSet;

#[test]
fn enums_test_position_code() {
    assert_eq!(Position::Center.code(), "C");
    assert_eq!(Position::LeftWing.code(), "LW");
    assert_eq!(Position::RightWing.code(), "RW");
    assert_eq!(Position::Defense.code(), "D");
    assert_eq!(Position::Goalie.code(), "G");
}

#[test]
fn enums_test_position_name() {
    assert_eq!(Position::Center.name(), "Center");
    assert_eq!(Position::LeftWing.name(), "Left Wing");
    assert_eq!(Position::RightWing.name(), "Right Wing");
    assert_eq!(Position::Defense.name(), "Defense");
    assert_eq!(Position::Goalie.name(), "Goalie");
}

#[test]
fn enums_test_position_is_forward() {
    assert!(Position::Center.is_forward());
    assert!(Position::LeftWing.is_forward());
    assert!(Position::RightWing.is_forward());
    assert!(!Position::Defense.is_forward());
    assert!(!Position::Goalie.is_forward());
}

#[test]
fn enums_test_position_is_skater() {
    assert!(Position::Center.is_skater());
    assert!(Position::LeftWing.is_skater());
    assert!(Position::RightWing.is_skater());
    assert!(Position::Defense.is_skater());
    assert!(!Position::Goalie.is_skater());
}

#[test]
fn enums_test_position_display() {
    assert_eq!(Position::Center.to_string(), "C");
    assert_eq!(Position::LeftWing.to_string(), "LW");
    assert_eq!(Position::RightWing.to_string(), "RW");
    assert_eq!(Position::Defense.to_string(), "D");
    assert_eq!(Position::Goalie.to_string(), "G");
}

#[test]
fn enums_test_position_from_str() {
    assert_eq!("C".parse::<Position>().unwrap(), Position::Center);
    assert_eq!("LW".parse::<Position>().unwrap(), Position::LeftWing);
    assert_eq!("L".parse::<Position>().unwrap(), Position::LeftWing);
    assert_eq!("RW".parse::<Position>().unwrap(), Position::RightWing);
    assert_eq!("R".parse::<Position>().unwrap(), Position::RightWing);
    assert_eq!("D".parse::<Position>().unwrap(), Position::Defense);
    assert_eq!("G".parse::<Position>().unwrap(), Position::Goalie);
}

#[test]
fn enums_test_position_from_str_invalid() {
    let result = "X".parse::<Position>();
    assert!(result.is_err());
    assert_eq!(result.unwrap_err(), ParsePositionError("X".to_string()));
}

#[test]
fn enums_test_position_hash() {
    let mut set = HashSet::new();
    set.insert(Position::Center);
    set.insert(Position::LeftWing);
    set.insert(Position::Defense);

    assert!(set.contains(&Position::Center));
    assert!(set.contains(&Position::LeftWing));
    assert!(set.contains(&Position::Defense));
    assert!(!set.contains(&Position::RightWing));
    assert!(!set.contains(&Position::Goalie));
}

#[test]
fn enums_test_period_type_code() {
    assert_eq!(PeriodType::Regulation.code(), "REG");
    assert_eq!(PeriodType::Overtime.code(), "OT");
    assert_eq!(PeriodType::Shootout.code(), "SO");
}

#[test]
fn enums_test_period_type_name() {
    assert_eq!(PeriodType::Regulation.name(), "Regulation");
    assert_eq!(PeriodType::Overtime.name(), "Overtime");
    assert_eq!(PeriodType::Shootout.name(), "Shootout");
}

#[test]
fn enums_test_period_type_is_overtime() {
    assert!(!PeriodType::Regulation.is_overtime());
    assert!(PeriodType::Overtime.is_overtime());
    assert!(PeriodType::Shootout.is_overtime());
}

#[test]
fn enums_test_period_type_display() {
    assert_eq!(PeriodType::Regulation.to_string(), "REG");
    assert_eq!(PeriodType::Overtime.to_string(), "OT");
    assert_eq!(PeriodType::Shootout.to_string(), "SO");
}

#[test]
fn enums_test_period_type_from_str() {
    assert_eq!("REG".parse::<PeriodType>().unwrap(), PeriodType::Regulation);
    assert_eq!("OT".parse::<PeriodType>().unwrap(), PeriodType::Overtime);
    assert_eq!("SO".parse::<PeriodType>().unwrap(), PeriodType::Shootout);
}

#[test]
fn enums_test_period_type_from_str_invalid() {
    let result = "INVALID".parse::<PeriodType>();
    assert!(result.is_err());
}

#[test]
fn enums_test_handedness_code() {
    assert_eq!(Handedness::Left.code(), "L");
    assert_eq!(Handedness::Right.code(), "R");
}

#[test]
fn enums_test_handedness_name() {
    assert_eq!(Handedness::Left.name(), "Left");
    assert_eq!(Handedness::Right.name(), "Right");
}

#[test]
fn enums_test_handedness_display() {
    assert_eq!(Handedness::Left.to_string(), "L");
    assert_eq!(Handedness::Right.to_string(), "R");
}

#[test]
fn enums_test_handedness_from_str() {
    assert_eq!("L".parse::<Handedness>().unwrap(), Handedness::Left);
    assert_eq!("R".parse::<Handedness>().unwrap(), Handedness::Right);
}

#[test]
fn enums_test_handedness_from_str_invalid() {
    let result = "X".parse::<Handedness>();
    assert!(result.is_err());
}

#[test]
fn enums_test_home_road_from_str() {
    assert_eq!("H".parse::<HomeRoad>().unwrap(), HomeRoad::Home);
    assert_eq!("R".parse::<HomeRoad>().unwrap(), HomeRoad::Road);
}

#[test]
fn enums_test_home_road_display() {
    assert_eq!(HomeRoad::Home.to_string(), "H");
    assert_eq!(HomeRoad::Road.to_string(), "R");
}

#[test]
fn enums_test_zone_code_from_str() {
    assert_eq!("O".parse::<ZoneCode>().unwrap(), ZoneCode::Offensive);
    assert_eq!("D".parse::<ZoneCode>().unwrap(), ZoneCode::Defensive);
    assert_eq!("N".parse::<ZoneCode>().unwrap(), ZoneCode::Neutral);
}

#[test]
fn enums_test_defending_side_from_str() {
    assert_eq!("left".parse::<DefendingSide>().unwrap(), DefendingSide::Left);
    assert_eq!("right".parse::<DefendingSide>().unwrap(), DefendingSide::Right);
    assert_eq!("LEFT".parse::<DefendingSide>().unwrap(), DefendingSide::Left);
}

#[test]
fn enums_test_goalie_decision_from_str() {
    assert_eq!("W".parse::<GoalieDecision>().unwrap(), GoalieDecision::Win);
    assert_eq!("L".parse::<GoalieDecision>().unwrap(), GoalieDecision::Loss);
    assert_eq!("O".parse::<GoalieDecision>().unwrap(), GoalieDecision::OvertimeLoss);
}

#[test]
fn enums_test_game_schedule_state_is_playable() {
    assert!(GameScheduleState::Okay.is_playable());
    assert!(!GameScheduleState::Postponed.is_playable());
    assert!(!GameScheduleState::Suspended.is_playable());
    assert!(!GameScheduleState::Cancelled.is_playable());
}
