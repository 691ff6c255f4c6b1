//! Totals of a team from the counts of its players.

use nhl_api::types::boxscore::{GoalieCounts, SkaterCounts, TeamGameStats};

fn skater(sog: i32, hits: i32, faceoffs: i32, faceoff_wins: i32) -> SkaterCounts {
    SkaterCounts {
        sog,
        power_play_goals: 1,
        pim: 2,
        hits,
        blocked_shots: 3,
        giveaways: 4,
        takeaways: 5,
        faceoffs,
        faceoff_wins,
    }
}

#[test]
fn totals_of_no_players_are_zero() {
    let stats = TeamGameStats::from_counts(&vec![], &vec![]).unwrap();
    assert_eq!(stats, TeamGameStats::default());
    assert_eq!(stats.shots_on_goal, 0);
    assert_eq!(stats.takeaways, 0);
}

#[test]
fn totals_add_up_skaters_and_goalies() {
    let skaters = vec![skater(3, 2, 20, 11), skater(0, 5, 0, 0), skater(4, -1, 7, 7)];
    let goalies = vec![
        GoalieCounts {
            pim: Some(2),
            power_play_goals_against: 1,
        },
        GoalieCounts {
            pim: None,
            power_play_goals_against: 2,
        },
    ];
    let stats = TeamGameStats::from_counts(&skaters, &goalies).unwrap();
    assert_eq!(
        stats,
        TeamGameStats {
            shots_on_goal: 7,
            faceoff_wins: 18,
            faceoff_total: 27,
            power_play_goals: 3,
            power_play_opportunities: 3,
            penalty_minutes: 8,
            hits: 6,
            blocked_shots: 9,
            giveaways: 12,
            takeaways: 15,
        }
    );
}

#[test]
fn totals_that_do_not_fit_are_none() {
    let big = skater(i32::MAX, 0, 0, 0);
    assert!(TeamGameStats::from_counts(&vec![big, skater(1, 0, 0, 0)], &vec![]).is_none());
    assert!(TeamGameStats::from_counts(&vec![big, skater(0, 0, 0, 0)], &vec![]).is_some());
    let back = vec![big, skater(1, 0, 0, 0), skater(-1, 0, 0, 0)];
    assert_eq!(
        TeamGameStats::from_counts(&back, &vec![]).unwrap().shots_on_goal,
        i32::MAX
    );
    let goalie = GoalieCounts {
        pim: Some(i32::MIN),
        power_play_goals_against: i32::MIN,
    };
    assert!(TeamGameStats::from_counts(&vec![], &vec![goalie, goalie]).is_none());
}
