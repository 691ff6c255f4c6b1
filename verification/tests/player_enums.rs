//! Enumerations that describe a player.

use nhl_api::types::enums::{GoalieDecision, Handedness, ParseGoalieDecisionError, ParseHandednessError, ParsePositionError, Position};
use std::collections::HashSet;

#[test]
fn player_enums_test_position_code() {
    assert_eq!(Position::Center.code(), "C");
    assert_eq!(Position::LeftWing.code(), "LW");
    assert_eq!(Position::RightWing.code(), "RW");
    assert_eq!(Position::Defense.code(), "D");
    assert_eq!(Position::Goalie.code(), "G");
}

#[test]
fn player_enums_test_position_name() {
    assert_eq!(Position::Center.name(), "Center");
    assert_eq!(Position::LeftWing.name(), "Left Wing");
    assert_eq!(Position::RightWing.name(), "Right Wing");
    assert_eq!(Position::Defense.name(), "Defense");
    assert_eq!(Position::Goalie.name(), "Goalie");
}

#[test]
fn player_enums_test_position_is_forward() {
    assert!(Position::Center.is_forward());
    assert!(Position::LeftWing.is_forward());
    assert!(Position::RightWing.is_forward());
    assert!(!Position::Defense.is_forward());
    assert!(!Position::Goalie.is_forward());
}

#[test]
fn player_enums_test_position_is_skater() {
    assert!(Position::Center.is_skater());
    assert!(Position::LeftWing.is_skater());
    assert!(Position::RightWing.is_skater());
    assert!(Position::Defense.is_skater());
    assert!(!Position::Goalie.is_skater());
}

#[test]
fn player_enums_test_position_display() {
    assert_eq!(Position::Center.to_string(), "C");
    assert_eq!(Position::LeftWing.to_string(), "LW");
    assert_eq!(Position::RightWing.to_string(), "RW");
    assert_eq!(Position::Defense.to_string(), "D");
    assert_eq!(Position::Goalie.to_string(), "G");
}

#[test]
fn player_enums_test_position_from_str() {
    assert_eq!("C".parse::<Position>().unwrap(), Position::Center);
    assert_eq!("LW".parse::<Position>().unwrap(), Position::LeftWing);
    assert_eq!("L".parse::<Position>().unwrap(), Position::LeftWing);
    assert_eq!("RW".parse::<Position>().unwrap(), Position::RightWing);
    assert_eq!("R".parse::<Position>().unwrap(), Position::RightWing);
    assert_eq!("D".parse::<Position>().unwrap(), Position::Defense);
    assert_eq!("G".parse::<Position>().unwrap(), Position::Goalie);
}

#[test]
fn player_enums_test_position_from_str_invalid() {
    let result = "X".parse::<Position>();
    assert!(result.is_err());
    assert_eq!(result.unwrap_err(), ParsePositionError("X".to_string()));
}

#[test]
fn player_enums_test_position_hash() {
    let mut set = HashSet::new();
    set.insert(Position::Center);
    set.insert(Position::LeftWing);
    set.insert(Position::Defense);

    assert!(set.contains(&Position::Center));
    assert!(set.contains(&Position::LeftWing));
    assert!(set.contains(&Position::Defense));
    assert!(!set.contains(&Position::RightWing));
    assert!(!set.contains(&Position::Goalie));
}

#[test]
fn player_enums_test_handedness_code() {
    assert_eq!(Handedness::Left.code(), "L");
    assert_eq!(Handedness::Right.code(), "R");
}

#[test]
fn player_enums_test_handedness_name() {
    assert_eq!(Handedness::Left.name(), "Left");
    assert_eq!(Handedness::Right.name(), "Right");
}

#[test]
fn player_enums_test_handedness_display() {
    assert_eq!(Handedness::Left.to_string(), "L");
    assert_eq!(Handedness::Right.to_string(), "R");
}

#[test]
fn player_enums_test_handedness_from_str() {
    assert_eq!("L".parse::<Handedness>().unwrap(), Handedness::Left);
    assert_eq!("R".parse::<Handedness>().unwrap(), Handedness::Right);
}

#[test]
fn player_enums_test_handedness_from_str_invalid() {
    let result = "X".parse::<Handedness>();
    assert!(result.is_err());
}

#[test]
fn test_handedness_hash() {
    let mut set = HashSet::new();
    set.insert(Handedness::Left);
    set.insert(Handedness::Right);
    assert_eq!(set.len(), 2);
}

#[test]
fn test_goalie_decision_code() {
    assert_eq!(GoalieDecision::Win.code(), "W");
    assert_eq!(GoalieDecision::Loss.code(), "L");
    assert_eq!(GoalieDecision::OvertimeLoss.code(), "O");
}

#[test]
fn test_goalie_decision_name() {
    assert_eq!(GoalieDecision::Win.name(), "Win");
    assert_eq!(GoalieDecision::Loss.name(), "Loss");
    assert_eq!(GoalieDecision::OvertimeLoss.name(), "Overtime Loss");
}

#[test]
fn player_enums_test_goalie_decision_from_str() {
    assert_eq!("W".parse::<GoalieDecision>().unwrap(), GoalieDecision::Win);
    assert_eq!("L".parse::<GoalieDecision>().unwrap(), GoalieDecision::Loss);
    assert_eq!(
        "O".parse::<GoalieDecision>().unwrap(),
        GoalieDecision::OvertimeLoss
    );
}

#[test]
fn test_goalie_decision_from_str_invalid() {
    let result = "X".parse::<GoalieDecision>();
    assert!(result.is_err());
    assert_eq!(
        result.unwrap_err(),
        ParseGoalieDecisionError("X".to_string())
    );
}

#[test]
fn test_goalie_decision_display() {
    assert_eq!(GoalieDecision::Win.to_string(), "W");
    assert_eq!(GoalieDecision::Loss.to_string(), "L");
    assert_eq!(GoalieDecision::OvertimeLoss.to_string(), "O");
}

#[test]
fn test_goalie_decision_hash() {
    let mut set = HashSet::new();
    set.insert(GoalieDecision::Win);
    set.insert(GoalieDecision::Loss);
    set.insert(GoalieDecision::OvertimeLoss);
    assert_eq!(set.len(), 3);
}

#[test]
fn test_parse_position_error_display() {
    let err = ParsePositionError("X".to_string());
    assert_eq!(err.to_string(), "Unknown position: X");
}

#[test]
fn test_parse_handedness_error_display() {
    let err = ParseHandednessError("X".to_string());
    assert_eq!(err.to_string(), "Unknown handedness: X");
}

#[test]
fn test_parse_goalie_decision_error_display() {
    let err = ParseGoalieDecisionError("X".to_string());
    assert_eq!(err.to_string(), "Unknown goalie decision: X");
}
