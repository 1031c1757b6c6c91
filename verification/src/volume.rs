//! How many events a day has.
//!
//! A day passes five steps in order: the check that decides whether it is
//! worked at all, the base draw, the weekly rhythm, the spike, and the rule
//! for a count of zero. Each step reads draws of its own, so the functions
//! here take the draws as values and say exactly what comes out.

use vstd::prelude::*;
use crate::calendar::{weekday_of, Date, Weekday};
use crate::config::{ConfigModel, PatternConfig};
use crate::intensity::{IntensityLevel, MILLION};
use crate::rhythm::{get_weekly_multiplier, weekly_multiplier, RHYTHM_JITTER_WIDTH};
use crate::stream::{
    day_seed,
    draw,
    lane_draw,
    lemma_seed_reads_three_digits,
    seed_of_day,
    LANE_BASE,
    LANE_WORK,
    LANE_WORK_JITTER,
    LANE_RHYTHM_JITTER,
    LANE_SPIKE,
    LANE_SPIKE_EXTRA,
    LANE_ZERO_FLOOR,
};

verus! {

/// Width of the jitter on the work probability, in millionths: a draw from 0
/// to this width moves the probability by the draw less half the width.
pub const WORK_JITTER_WIDTH: u32 = 200_000;

/// The least and the most that a spike adds to its multiplier, in millionths.
pub const SPIKE_EXTRA_MIN: u32 = 500_000;

pub const SPIKE_EXTRA_MAX: u32 = 1_500_000;

/// Chance, in millionths, that a worked day whose count came out as zero
/// stays at zero.
pub const ZERO_KEPT: u32 = 300_000;

/// The draws that decide one day's count.
#[derive(Debug, Clone, Copy, PartialEq, Eq)]
pub struct DayDraws {
    /// From 0 to `WORK_JITTER_WIDTH`: moves the work probability.
    pub work_jitter: u32,
    /// Below one million: the day is worked if this is below the probability.
    pub work: u32,
    /// Within the base range of the tier and the kind of day.
    pub base: u32,
    /// From 0 to `RHYTHM_JITTER_WIDTH`: moves the weekly multiplier.
    pub rhythm_jitter: u32,
    /// Below one million: the day spikes if this is below the spike probability.
    pub spike: u32,
    /// From `SPIKE_EXTRA_MIN` to `SPIKE_EXTRA_MAX`: added to the spike multiplier.
    pub spike_extra: u32,
    /// Below one million: a count of zero stays if this is below `ZERO_KEPT`.
    pub zero_floor: u32,
}

impl DayDraws {
    /// Whether each draw lies in the range it is drawn from.
    pub open spec fn in_range(self, level: IntensityLevel, weekend: bool) -> bool {
        &&& self.work_jitter <= WORK_JITTER_WIDTH
        &&& self.work < MILLION
        &&& level.base_range(weekend).0 <= self.base <= level.base_range(weekend).1
        &&& self.rhythm_jitter <= RHYTHM_JITTER_WIDTH
        &&& self.spike < MILLION
        &&& SPIKE_EXTRA_MIN <= self.spike_extra <= SPIKE_EXTRA_MAX
        &&& self.zero_floor < MILLION
    }

    /// Checks that each draw lies in the range it is drawn from.
    pub fn fits(&self, level: IntensityLevel, weekend: bool) -> (r: bool)
        ensures
            r == self.in_range(level, weekend),
    {
        let range = if weekend {
            level.get_weekend_range()
        } else {
            level.get_weekday_range()
        };
        self.work_jitter <= WORK_JITTER_WIDTH && self.work < MILLION && range.0 <= self.base
            && self.base <= range.1 && self.rhythm_jitter <= RHYTHM_JITTER_WIDTH && self.spike
            < MILLION && SPIKE_EXTRA_MIN <= self.spike_extra && self.spike_extra
            <= SPIKE_EXTRA_MAX && self.zero_floor < MILLION
    }
}

/// The draws of the day with the given seed, each from its lane.
pub open spec fn day_draws(seed: u64, level: IntensityLevel, weekend: bool) -> DayDraws {
    DayDraws {
        work_jitter: lane_draw(seed, LANE_WORK_JITTER, 0, WORK_JITTER_WIDTH),
        work: lane_draw(seed, LANE_WORK, 0, 999_999),
        base: lane_draw(
            seed,
            LANE_BASE,
            level.base_range(weekend).0,
            level.base_range(weekend).1,
        ),
        rhythm_jitter: lane_draw(seed, LANE_RHYTHM_JITTER, 0, RHYTHM_JITTER_WIDTH),
        spike: lane_draw(seed, LANE_SPIKE, 0, 999_999),
        spike_extra: lane_draw(seed, LANE_SPIKE_EXTRA, SPIKE_EXTRA_MIN, SPIKE_EXTRA_MAX),
        zero_floor: lane_draw(seed, LANE_ZERO_FLOOR, 0, 999_999),
    }
}

/// Makes the draws of the day with the given seed.
pub fn draw_day(seed: u64, level: IntensityLevel, weekend: bool) -> (r: DayDraws)
    ensures
        r == day_draws(seed, level, weekend),
        r.in_range(level, weekend),
{
    let range = if weekend {
        level.get_weekend_range()
    } else {
        level.get_weekday_range()
    };
    DayDraws {
        work_jitter: draw(seed, LANE_WORK_JITTER, 0, WORK_JITTER_WIDTH),
        work: draw(seed, LANE_WORK, 0, 999_999),
        base: draw(seed, LANE_BASE, range.0, range.1),
        rhythm_jitter: draw(seed, LANE_RHYTHM_JITTER, 0, RHYTHM_JITTER_WIDTH),
        spike: draw(seed, LANE_SPIKE, 0, 999_999),
        spike_extra: draw(seed, LANE_SPIKE_EXTRA, SPIKE_EXTRA_MIN, SPIKE_EXTRA_MAX),
        zero_floor: draw(seed, LANE_ZERO_FLOOR, 0, 999_999),
    }
}

/// The chance, in millionths, that the day is worked: the tier's probability
/// for the kind of day, moved by the jitter draw less 0.1, and kept between
/// nothing and one whole.
pub open spec fn work_chance(level: IntensityLevel, weekend: bool, work_jitter: u32) -> int {
    let moved = level.work_probability_on(weekend) + work_jitter - 100_000;
    if moved < 0 {
        0
    } else if moved > 1_000_000 {
        1_000_000
    } else {
        moved
    }
}

/// Whether the day is worked: the work draw is below the day's chance.
pub open spec fn works(level: IntensityLevel, weekend: bool, draws: DayDraws) -> bool {
    draws.work < work_chance(level, weekend, draws.work_jitter)
}

/// A count times a multiplier in millionths, cut off towards zero.
pub open spec fn scaled(count: int, multiplier: int) -> int {
    count * multiplier / 1_000_000
}

/// The count after the weekly rhythm.
pub open spec fn with_rhythm(config: ConfigModel, weekday: Weekday, draws: DayDraws) -> int {
    if config.use_weekly_rhythm {
        scaled(draws.base as int, weekly_multiplier(weekday, draws.rhythm_jitter))
    } else {
        draws.base as int
    }
}

/// Whether the day is a spike day.
pub open spec fn spikes(config: ConfigModel, draws: DayDraws) -> bool {
    draws.spike < config.spike_probability
}

/// The count after the spike: on a spike day it is scaled by the spike
/// multiplier plus the extra draw and then held to the tier's cap.
pub open spec fn with_spike(config: ConfigModel, weekday: Weekday, draws: DayDraws) -> int {
    let before = with_rhythm(config, weekday, draws);
    if spikes(config, draws) {
        let lifted = scaled(before, config.spike_multiplier + draws.spike_extra);
        if lifted > config.intensity.spike_cap() {
            config.intensity.spike_cap() as int
        } else {
            lifted
        }
    } else {
        before
    }
}

/// The rule for zero: a count of zero stays with the chance `ZERO_KEPT` and
/// becomes one otherwise; any other count stays as it is.
pub open spec fn zero_floored(count: int, zero_floor: u32) -> int {
    if count == 0 && zero_floor >= ZERO_KEPT {
        1
    } else {
        count
    }
}

/// The count of a worked day: base draw, weekly rhythm, spike, rule for zero.
pub open spec fn base_commits(config: ConfigModel, weekday: Weekday, draws: DayDraws) -> int {
    zero_floored(with_spike(config, weekday, draws), draws.zero_floor)
}

/// The count of a day: nothing if the work check keeps the day off, else the count
/// of a worked day.
pub open spec fn day_count(config: ConfigModel, weekday: Weekday, draws: DayDraws) -> int {
    if works(config.intensity, weekday.weekend(), draws) {
        base_commits(config, weekday, draws)
    } else {
        0
    }
}

/// The most that the count of a day can be, whatever is drawn: the top of
/// the base range, lifted by the largest weekly multiplier where the rhythm
/// is on; the spike cap where spikes can happen; and one, for the rule for
/// zero.
pub open spec fn count_ceiling(config: ConfigModel, weekend: bool) -> int {
    let top = config.intensity.base_range(weekend).1 as int;
    let lifted = if config.use_weekly_rhythm {
        scaled(top, 1_150_000)
    } else {
        top
    };
    let capped = if config.spike_probability > 0 && config.intensity.spike_cap() > lifted {
        config.intensity.spike_cap() as int
    } else {
        lifted
    };
    if capped < 1 {
        1
    } else {
        capped
    }
}

/// Decides whether the day is worked.
pub fn should_work_today(level: IntensityLevel, weekend: bool, draws: &DayDraws) -> (r: bool)
    ensures
        r == works(level, weekend, *draws),
{
    let base: u32 = if weekend {
        level.get_weekend_work_probability()
    } else {
        level.get_work_probability()
    };
    let moved: i64 = base as i64 + draws.work_jitter as i64 - 100_000;
    let chance: i64 = if moved < 0 {
        0
    } else if moved > 1_000_000 {
        1_000_000
    } else {
        moved
    };
    (draws.work as i64) < chance
}

/// Computes the count of a worked day.
pub fn get_base_commits(config: &PatternConfig, weekday: Weekday, draws: &DayDraws) -> (r: u32)
    requires
        draws.in_range(config@.intensity, weekday.weekend()),
    ensures
        r == base_commits(config@, weekday, *draws),
        r <= count_ceiling(config@, weekday.weekend()),
{
    let level = config.intensity();
    let cap = level.get_spike_cap();
    let mut commits: u64 = draws.base as u64;
    proof {
        lemma_scaled_monotonic(
            draws.base as int,
            level.base_range(weekday.weekend()).1 as int,
            weekly_multiplier(weekday, draws.rhythm_jitter),
            1_150_000,
        );
    }
    if config.use_weekly_rhythm() {
        let multiplier = get_weekly_multiplier(weekday, draws.rhythm_jitter);
        commits = commits * multiplier / 1_000_000;
    }
    if draws.spike < config.spike_probability() {
        let multiplier: u64 = config.spike_multiplier() as u64 + draws.spike_extra as u64;
        assert(commits * multiplier <= 92 * multiplier) by (nonlinear_arith)
            requires
                commits <= 92,
                multiplier >= 0,
        ;
        commits = commits * multiplier / 1_000_000;
        if commits > cap as u64 {
            commits = cap as u64;
        }
    }
    if commits == 0 && draws.zero_floor >= ZERO_KEPT {
        1
    } else {
        commits as u32
    }
}

/// Computes the count of a day from its draws.
pub fn count_from_draws(config: &PatternConfig, weekday: Weekday, draws: &DayDraws) -> (r: u32)
    requires
        draws.in_range(config@.intensity, weekday.weekend()),
    ensures
        r == day_count(config@, weekday, *draws),
        r <= count_ceiling(config@, weekday.weekend()),
{
    if should_work_today(config.intensity(), weekday.is_weekend(), draws) {
        get_base_commits(config, weekday, draws)
    } else {
        0
    }
}

/// Scaling keeps order: a count and a multiplier that are no larger give a
/// result that is no larger.
pub proof fn lemma_scaled_monotonic(count: int, larger: int, multiplier: int, wider: int)
    requires
        0 <= count <= larger,
        0 <= multiplier <= wider,
    ensures
        0 <= scaled(count, multiplier) <= scaled(larger, wider),
{
    assert(0 <= count * multiplier <= larger * wider) by (nonlinear_arith)
        requires
            0 <= count <= larger,
            0 <= multiplier <= wider,
    ;
}

/// The count of a calendar day under an entropy term: the count that the
/// draws of the day's seed give on the day's weekday.
pub open spec fn daily_count(config: ConfigModel, day: int, entropy: u64) -> int {
    let weekday = weekday_of(day);
    day_count(
        config,
        weekday,
        day_draws(day_seed(day, entropy), config.intensity, weekday.weekend()),
    )
}

/// Computes the count of a calendar day under an entropy term.
pub fn count_for_day(config: &PatternConfig, date: Date, entropy: u64) -> (r: u32)
    ensures
        r == daily_count(config@, date@, entropy),
        r <= count_ceiling(config@, weekday_of(date@).weekend()),
{
    let weekday = date.weekday();
    let seed = seed_of_day(date.days(), entropy);
    let draws = draw_day(seed, config.intensity(), weekday.is_weekend());
    count_from_draws(config, weekday, &draws)
}

/// Whatever is drawn, the count of a day is at most the ceiling of its
/// configuration and kind of day, which no draw and no entropy term enters.
pub proof fn lemma_count_within_ceiling(config: ConfigModel, weekday: Weekday, draws: DayDraws)
    requires
        draws.in_range(config.intensity, weekday.weekend()),
    ensures
        0 <= day_count(config, weekday, draws) <= count_ceiling(config, weekday.weekend()),
{
    lemma_scaled_monotonic(
        draws.base as int,
        config.intensity.base_range(weekday.weekend()).1 as int,
        weekly_multiplier(weekday, draws.rhythm_jitter),
        1_150_000,
    );
    let before = with_rhythm(config, weekday, draws);
    lemma_scaled_monotonic(
        0,
        before,
        config.spike_multiplier + draws.spike_extra,
        config.spike_multiplier + draws.spike_extra,
    );
}

/// Without the weekly rhythm and without spikes, the count before the rule
/// for zero is the base draw itself, so it lies in the base range of the
/// tier: for the lightest tier at most 5 from Monday to Friday and at most 3
/// at the weekend. The rule for zero keeps the count in those bounds.
pub proof fn lemma_plain_count_in_base_range(
    config: ConfigModel,
    weekday: Weekday,
    draws: DayDraws,
)
    requires
        draws.in_range(config.intensity, weekday.weekend()),
        !config.use_weekly_rhythm,
        config.spike_probability == 0,
    ensures
        with_spike(config, weekday, draws) == draws.base,
        config.intensity.base_range(weekday.weekend()).0 <= with_spike(config, weekday, draws)
            <= config.intensity.base_range(weekday.weekend()).1,
        config.intensity == IntensityLevel::Casual && !weekday.weekend() ==> {
            &&& 0 <= with_spike(config, weekday, draws) <= 5
            &&& 0 <= day_count(config, weekday, draws) <= 5
        },
        config.intensity == IntensityLevel::Casual && weekday.weekend() ==> {
            &&& 0 <= with_spike(config, weekday, draws) <= 3
            &&& 0 <= day_count(config, weekday, draws) <= 3
        },
{
}

/// The count of a day is a function of the configuration, the day and the
/// last three decimal digits of the entropy term: two evaluations that agree
/// in these agree in the count.
pub proof fn lemma_count_is_determined(config: ConfigModel, day: int, entropy: u64, other: u64)
    requires
        entropy % 1000 == other % 1000,
    ensures
        daily_count(config, day, entropy) == daily_count(config, day, other),
{
    lemma_seed_reads_three_digits(day, entropy, other);
}

} // verus!
