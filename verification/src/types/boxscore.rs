//! The parts of a boxscore: broadcasts, periods, teams, the clock, and totals by team.

use vstd::prelude::*;
use crate::types::common::LocalizedString;
use crate::types::enums::PeriodType;

verus! {

/// TV broadcast information
#[derive(Debug, Clone, PartialEq)]
pub struct TvBroadcast {
    pub id: i64,
    pub market: String,
    pub country_code: String,
    pub network: String,
    pub sequence_number: i32,
}

/// Special event information
#[derive(Debug, Clone, PartialEq)]
pub struct SpecialEvent {
    pub parent_id: i64,
    pub name: LocalizedString,
    pub light_logo_url: LocalizedString,
}

/// Period descriptor with game period information
#[derive(Debug, Clone, PartialEq)]
pub struct PeriodDescriptor {
    pub number: i32,
    pub period_type: PeriodType,
    pub max_regulation_periods: i32,
}

/// Team information in boxscore
#[derive(Debug, Clone, PartialEq)]
pub struct BoxscoreTeam {
    pub id: i64,
    pub common_name: LocalizedString,
    pub abbrev: String,
    pub score: i32,
    pub sog: i32,
    pub logo: String,
    pub dark_logo: String,
    pub place_name: LocalizedString,
    pub place_name_with_preposition: LocalizedString,
}

/// Game clock information
#[derive(Debug, Clone, PartialEq)]
pub struct GameClock {
    pub time_remaining: String,
    pub seconds_remaining: i32,
    pub running: bool,
    pub in_intermission: bool,
}

/// Aggregated team statistics for game comparison
#[derive(Debug, Clone, PartialEq)]
pub struct TeamGameStats {
    pub shots_on_goal: i32,
    pub faceoff_wins: i32,
    pub faceoff_total: i32,
    pub power_play_goals: i32,
    pub power_play_opportunities: i32,
    pub penalty_minutes: i32,
    pub hits: i32,
    pub blocked_shots: i32,
    pub giveaways: i32,
    pub takeaways: i32,
}

/// What one skater adds to the totals of a team.
#[derive(Debug, Clone, Copy, PartialEq, Eq)]
pub struct SkaterCounts {
    pub sog: i32,
    pub power_play_goals: i32,
    pub pim: i32,
    pub hits: i32,
    pub blocked_shots: i32,
    pub giveaways: i32,
    pub takeaways: i32,
    /// The faceoffs that the skater is counted with; zero for a skater who
    /// is not counted for faceoffs.
    pub faceoffs: i32,
    /// Of those faceoffs, the ones won.
    pub faceoff_wins: i32,
}

/// What one goalie adds to the totals of a team.
#[derive(Debug, Clone, Copy, PartialEq, Eq)]
pub struct GoalieCounts {
    /// The penalty minutes of the goalie, where they are known.
    pub pim: Option<i32>,
    pub power_play_goals_against: i32,
}

/// Totals of a team as numbers without bound.
pub struct Tally {
    pub shots_on_goal: int,
    pub faceoff_wins: int,
    pub faceoff_total: int,
    pub power_play_goals: int,
    pub power_play_opportunities: int,
    pub penalty_minutes: int,
    pub hits: int,
    pub blocked_shots: int,
    pub giveaways: int,
    pub takeaways: int,
}

impl Tally {
    /// The totals of no players.
    pub open spec fn zero() -> Tally {
        Tally {
            shots_on_goal: 0,
            faceoff_wins: 0,
            faceoff_total: 0,
            power_play_goals: 0,
            power_play_opportunities: 0,
            penalty_minutes: 0,
            hits: 0,
            blocked_shots: 0,
            giveaways: 0,
            takeaways: 0,
        }
    }

    /// These totals with one more skater.
    pub open spec fn with_skater(self, skater: SkaterCounts) -> Tally {
        Tally {
            shots_on_goal: self.shots_on_goal + skater.sog,
            faceoff_wins: self.faceoff_wins + skater.faceoff_wins,
            faceoff_total: self.faceoff_total + skater.faceoffs,
            power_play_goals: self.power_play_goals + skater.power_play_goals,
            power_play_opportunities: self.power_play_opportunities,
            penalty_minutes: self.penalty_minutes + skater.pim,
            hits: self.hits + skater.hits,
            blocked_shots: self.blocked_shots + skater.blocked_shots,
            giveaways: self.giveaways + skater.giveaways,
            takeaways: self.takeaways + skater.takeaways,
        }
    }

    /// These totals with one more goalie: his penalty minutes, where they
    /// are known, and the power play goals against him, which count the
    /// power plays of the other team.
    pub open spec fn with_goalie(self, goalie: GoalieCounts) -> Tally {
        Tally {
            power_play_opportunities: self.power_play_opportunities
                + goalie.power_play_goals_against,
            penalty_minutes: self.penalty_minutes + match goalie.pim {
                Some(pim) => pim as int,
                None => 0,
            },
            ..self
        }
    }

    /// The totals of the given skaters, then the given goalies.
    pub open spec fn of(skaters: Seq<SkaterCounts>, goalies: Seq<GoalieCounts>) -> Tally
        decreases goalies.len(), skaters.len(),
    {
        if goalies.len() > 0 {
            Self::of(skaters, goalies.drop_last()).with_goalie(goalies.last())
        } else if skaters.len() > 0 {
            Self::of(skaters.drop_last(), goalies).with_skater(skaters.last())
        } else {
            Self::zero()
        }
    }

    /// True when every total fits in 32 bits.
    pub open spec fn fits(self) -> bool {
        &&& i32::MIN <= self.shots_on_goal <= i32::MAX
        &&& i32::MIN <= self.faceoff_wins <= i32::MAX
        &&& i32::MIN <= self.faceoff_total <= i32::MAX
        &&& i32::MIN <= self.power_play_goals <= i32::MAX
        &&& i32::MIN <= self.power_play_opportunities <= i32::MAX
        &&& i32::MIN <= self.penalty_minutes <= i32::MAX
        &&& i32::MIN <= self.hits <= i32::MAX
        &&& i32::MIN <= self.blocked_shots <= i32::MAX
        &&& i32::MIN <= self.giveaways <= i32::MAX
        &&& i32::MIN <= self.takeaways <= i32::MAX
    }

    /// True when every total is at most `count` times the largest 32-bit
    /// number in magnitude.
    pub open spec fn within(self, count: int) -> bool {
        let limit = count * 0x8000_0000;
        &&& -limit <= self.shots_on_goal <= limit
        &&& -limit <= self.faceoff_wins <= limit
        &&& -limit <= self.faceoff_total <= limit
        &&& -limit <= self.power_play_goals <= limit
        &&& -limit <= self.power_play_opportunities <= limit
        &&& -limit <= self.penalty_minutes <= limit
        &&& -limit <= self.hits <= limit
        &&& -limit <= self.blocked_shots <= limit
        &&& -limit <= self.giveaways <= limit
        &&& -limit <= self.takeaways <= limit
    }
}

/// Totals of a team while they are added up, wide enough for any number of
/// players.
struct Running {
    shots_on_goal: i128,
    faceoff_wins: i128,
    faceoff_total: i128,
    power_play_goals: i128,
    power_play_opportunities: i128,
    penalty_minutes: i128,
    hits: i128,
    blocked_shots: i128,
    giveaways: i128,
    takeaways: i128,
}

impl Running {
    spec fn tally(self) -> Tally {
        Tally {
            shots_on_goal: self.shots_on_goal as int,
            faceoff_wins: self.faceoff_wins as int,
            faceoff_total: self.faceoff_total as int,
            power_play_goals: self.power_play_goals as int,
            power_play_opportunities: self.power_play_opportunities as int,
            penalty_minutes: self.penalty_minutes as int,
            hits: self.hits as int,
            blocked_shots: self.blocked_shots as int,
            giveaways: self.giveaways as int,
            takeaways: self.takeaways as int,
        }
    }
}

/// A wide number as a 32-bit number, if it is one.
fn narrow(value: i128) -> (narrowed: Option<i32>)
    ensures
        narrowed is Some <==> i32::MIN <= value <= i32::MAX,
        narrowed matches Some(n) ==> n == value,
{
    if -0x8000_0000 <= value && value <= 0x7fff_ffff {
        Some(value as i32)
    } else {
        None
    }
}

impl TeamGameStats {
    /// These totals as numbers without bound.
    pub open spec fn tally(self) -> Tally {
        Tally {
            shots_on_goal: self.shots_on_goal as int,
            faceoff_wins: self.faceoff_wins as int,
            faceoff_total: self.faceoff_total as int,
            power_play_goals: self.power_play_goals as int,
            power_play_opportunities: self.power_play_opportunities as int,
            penalty_minutes: self.penalty_minutes as int,
            hits: self.hits as int,
            blocked_shots: self.blocked_shots as int,
            giveaways: self.giveaways as int,
            takeaways: self.takeaways as int,
        }
    }

    /// The totals of a team from the counts of its skaters and goalies;
    /// `None` when a total does not fit in 32 bits.
    pub fn from_counts(skaters: &Vec<SkaterCounts>, goalies: &Vec<GoalieCounts>) -> (stats: Option<
        TeamGameStats,
    >)
        ensures
            stats is Some <==> Tally::of(skaters@, goalies@).fits(),
            stats matches Some(totals) ==> totals.tally() == Tally::of(skaters@, goalies@),
    {
        let mut sum = Running {
            shots_on_goal: 0,
            faceoff_wins: 0,
            faceoff_total: 0,
            power_play_goals: 0,
            power_play_opportunities: 0,
            penalty_minutes: 0,
            hits: 0,
            blocked_shots: 0,
            giveaways: 0,
            takeaways: 0,
        };
        let ghost none = Seq::<GoalieCounts>::empty();
        let mut i: usize = 0;
        while i < skaters.len()
            invariant
                i <= skaters.len(),
                sum.tally() == Tally::of(skaters@.take(i as int), none),
                sum.tally().within(i as int),
                none.len() == 0,
            decreases skaters.len() - i,
        {
            assert(skaters@.take(i + 1).drop_last() =~= skaters@.take(i as int));
            let skater = &skaters[i];
            sum.shots_on_goal = sum.shots_on_goal + skater.sog as i128;
            sum.faceoff_wins = sum.faceoff_wins + skater.faceoff_wins as i128;
            sum.faceoff_total = sum.faceoff_total + skater.faceoffs as i128;
            sum.power_play_goals = sum.power_play_goals + skater.power_play_goals as i128;
            sum.penalty_minutes = sum.penalty_minutes + skater.pim as i128;
            sum.hits = sum.hits + skater.hits as i128;
            sum.blocked_shots = sum.blocked_shots + skater.blocked_shots as i128;
            sum.giveaways = sum.giveaways + skater.giveaways as i128;
            sum.takeaways = sum.takeaways + skater.takeaways as i128;
            i += 1;
        }
        assert(skaters@.take(i as int) =~= skaters@);
        assert(goalies@.take(0) =~= none);
        let mut j: usize = 0;
        while j < goalies.len()
            invariant
                j <= goalies.len(),
                sum.tally() == Tally::of(skaters@, goalies@.take(j as int)),
                sum.tally().within(skaters.len() + j),
            decreases goalies.len() - j,
        {
            assert(goalies@.take(j + 1).drop_last() =~= goalies@.take(j as int));
            let goalie = &goalies[j];
            if let Some(pim) = goalie.pim {
                sum.penalty_minutes = sum.penalty_minutes + pim as i128;
            }
            sum.power_play_opportunities = sum.power_play_opportunities
                + goalie.power_play_goals_against as i128;
            j += 1;
        }
        assert(goalies@.take(j as int) =~= goalies@);
        match (
            narrow(sum.shots_on_goal),
            narrow(sum.faceoff_wins),
            narrow(sum.faceoff_total),
            narrow(sum.power_play_goals),
            narrow(sum.power_play_opportunities),
        ) {
            (
                Some(shots_on_goal),
                Some(faceoff_wins),
                Some(faceoff_total),
                Some(power_play_goals),
                Some(power_play_opportunities),
            ) => match (
                narrow(sum.penalty_minutes),
                narrow(sum.hits),
                narrow(sum.blocked_shots),
                narrow(sum.giveaways),
                narrow(sum.takeaways),
            ) {
                (
                    Some(penalty_minutes),
                    Some(hits),
                    Some(blocked_shots),
                    Some(giveaways),
                    Some(takeaways),
                ) => Some(
                    TeamGameStats {
                        shots_on_goal,
                        faceoff_wins,
                        faceoff_total,
                        power_play_goals,
                        power_play_opportunities,
                        penalty_minutes,
                        hits,
                        blocked_shots,
                        giveaways,
                        takeaways,
                    },
                ),
                _ => None,
            },
            _ => None,
        }
    }
}

impl Default for TeamGameStats {
    /// The totals of a team that has no players: all of them zero.
    fn default() -> (stats: TeamGameStats)
        ensures
            stats.shots_on_goal == 0,
            stats.faceoff_wins == 0,
            stats.faceoff_total == 0,
            stats.power_play_goals == 0,
            stats.power_play_opportunities == 0,
            stats.penalty_minutes == 0,
            stats.hits == 0,
            stats.blocked_shots == 0,
            stats.giveaways == 0,
            stats.takeaways == 0,
    {
        TeamGameStats {
            shots_on_goal: 0,
            faceoff_wins: 0,
            faceoff_total: 0,
            power_play_goals: 0,
            power_play_opportunities: 0,
            penalty_minutes: 0,
            hits: 0,
            blocked_shots: 0,
            giveaways: 0,
            takeaways: 0,
        }
    }
}

} // verus!
