//! From a wanted total and a number of days to a configuration.
//!
//! The daily average that the total asks for is damped by nine tenths, since
//! spikes lift the realised mean above the base rate, and the damped average
//! picks the tier. The comparisons are made on whole numbers: the damped
//! average `9 * total / (10 * days)` is below a threshold `t` exactly when
//! `9 * total < 10 * t * days`.

use vstd::prelude::*;
use crate::config::{ConfigModel, PatternConfig};
use crate::intensity::IntensityLevel;

verus! {

/// The tier for a total over a number of days: the damped daily average is
/// held against the ascending thresholds 5, 15, 30 and 50, and a threshold
/// that is met exactly counts as passed.
pub open spec fn level_for(total: int, days: int) -> IntensityLevel
    recommends
        days > 0,
{
    if 9 * total < 50 * days {
        IntensityLevel::Casual
    } else if 9 * total < 150 * days {
        IntensityLevel::Active
    } else if 9 * total < 300 * days {
        IntensityLevel::Maintainer
    } else if 9 * total < 500 * days {
        IntensityLevel::Hyperactive
    } else {
        IntensityLevel::Extreme
    }
}

/// Daily chance, in millionths, of a vacation in a calibrated configuration.
pub open spec fn calibrated_vacation_frequency(level: IntensityLevel) -> u32 {
    match level {
        IntensityLevel::Casual => 30_000,
        IntensityLevel::Active => 20_000,
        IntensityLevel::Maintainer => 15_000,
        IntensityLevel::Hyperactive => 10_000,
        IntensityLevel::Extreme => 8_000,
    }
}

/// Chance, in millionths, of a spike day in a calibrated configuration.
pub open spec fn calibrated_spike_probability(level: IntensityLevel) -> u32 {
    match level {
        IntensityLevel::Casual => 180_000,
        IntensityLevel::Active => 220_000,
        IntensityLevel::Maintainer => 280_000,
        IntensityLevel::Hyperactive => 320_000,
        IntensityLevel::Extreme => 380_000,
    }
}

/// The configuration that calibration gives for a total over a number of
/// days: the tier and its two probabilities, a weekly rhythm, vacations of
/// one to four days and a spike multiplier of 2.8.
pub open spec fn calibrated(total: int, days: int) -> ConfigModel
    recommends
        days > 0,
{
    let level = level_for(total, days);
    ConfigModel {
        intensity: level,
        use_weekly_rhythm: true,
        vacation_frequency: calibrated_vacation_frequency(level),
        vacation_min: 1,
        vacation_max: 4,
        spike_probability: calibrated_spike_probability(level),
        spike_multiplier: 2_800_000,
    }
}

/// Picks the tier for `commits_needed` events over `days_in_range` days.
pub fn select_intensity(commits_needed: u32, days_in_range: i64) -> (r: IntensityLevel)
    requires
        days_in_range > 0,
    ensures
        r == level_for(commits_needed as int, days_in_range as int),
{
    let damped: i128 = 9 * (commits_needed as i128);
    let days: i128 = days_in_range as i128;
    if damped < 50 * days {
        IntensityLevel::Casual
    } else if damped < 150 * days {
        IntensityLevel::Active
    } else if damped < 300 * days {
        IntensityLevel::Maintainer
    } else if damped < 500 * days {
        IntensityLevel::Hyperactive
    } else {
        IntensityLevel::Extreme
    }
}

/// Derives the configuration under which about `commits_needed` events are
/// expected over `days_in_range` days. The realised total varies around it.
pub fn calibrate_pattern_for_target(commits_needed: u32, days_in_range: i64) -> (r: PatternConfig)
    requires
        days_in_range > 0,
    ensures
        r@ == calibrated(commits_needed as int, days_in_range as int),
{
    let level = select_intensity(commits_needed, days_in_range);
    let vacation_frequency: u32 = match level {
        IntensityLevel::Casual => 30_000,
        IntensityLevel::Active => 20_000,
        IntensityLevel::Maintainer => 15_000,
        IntensityLevel::Hyperactive => 10_000,
        IntensityLevel::Extreme => 8_000,
    };
    let spike_probability: u32 = match level {
        IntensityLevel::Casual => 180_000,
        IntensityLevel::Active => 220_000,
        IntensityLevel::Maintainer => 280_000,
        IntensityLevel::Hyperactive => 320_000,
        IntensityLevel::Extreme => 380_000,
    };
    PatternConfig::from_parts(level, true, vacation_frequency, (1, 4), spike_probability, 2_800_000)
}

/// A total of zero gives the lightest tier, over any number of days.
pub proof fn lemma_zero_total_is_casual(days: int)
    requires
        days > 0,
    ensures
        level_for(0, days) == IntensityLevel::Casual,
        calibrated(0, days).intensity == IntensityLevel::Casual,
{
}

/// Over a fixed number of days, a larger total never gives a lighter tier.
pub proof fn lemma_level_monotonic(lower: int, higher: int, days: int)
    requires
        days > 0,
        lower <= higher,
    ensures
        level_for(lower, days).rank() <= level_for(higher, days).rank(),
        calibrated(lower, days).intensity.rank() <= calibrated(higher, days).intensity.rank(),
{
}

/// A damped average that meets a threshold exactly falls into the tier above
/// it.
pub proof fn lemma_threshold_belongs_above(total: int, days: int)
    requires
        days > 0,
    ensures
        9 * total == 50 * days ==> level_for(total, days) == IntensityLevel::Active,
        9 * total == 150 * days ==> level_for(total, days) == IntensityLevel::Maintainer,
        9 * total == 300 * days ==> level_for(total, days) == IntensityLevel::Hyperactive,
        9 * total == 500 * days ==> level_for(total, days) == IntensityLevel::Extreme,
{
}

/// In calibrated configurations a heavier tier takes vacations less often
/// and has spike days more often.
pub proof fn lemma_calibrated_tables_ordered(lighter: IntensityLevel, heavier: IntensityLevel)
    requires
        lighter.rank() < heavier.rank(),
    ensures
        calibrated_vacation_frequency(lighter) > calibrated_vacation_frequency(heavier),
        calibrated_spike_probability(lighter) < calibrated_spike_probability(heavier),
{
}

/// Every calibrated configuration is valid.
pub proof fn lemma_calibrated_is_valid(total: int, days: int)
    ensures
        calibrated(total, days).valid(),
{
}

} // verus!
