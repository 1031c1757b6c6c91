use github_grid::calibrate::{calibrate_pattern_for_target, select_intensity};
use github_grid::IntensityLevel;

fn rank(level: IntensityLevel) -> u32 {
    match level {
        IntensityLevel::Casual => 0,
        IntensityLevel::Active => 1,
        IntensityLevel::Maintainer => 2,
        IntensityLevel::Hyperactive => 3,
        IntensityLevel::Extreme => 4,
    }
}

#[test]
fn zero_total_is_casual_for_any_number_of_days() {
    for days in [1i64, 2, 7, 30, 365, 366, 10_000, i64::MAX] {
        assert_eq!(select_intensity(0, days), IntensityLevel::Casual);
        assert_eq!(calibrate_pattern_for_target(0, days).intensity(), IntensityLevel::Casual);
    }
}

#[test]
fn damped_average_of_exactly_five_is_active() {
    // 9 * 50 / (10 * 9) = 5.0
    assert_eq!(select_intensity(50, 9), IntensityLevel::Active);
    assert_eq!(select_intensity(49, 9), IntensityLevel::Casual);
}

#[test]
fn damped_average_of_exactly_fifteen_is_maintainer() {
    assert_eq!(select_intensity(150, 9), IntensityLevel::Maintainer);
    assert_eq!(select_intensity(149, 9), IntensityLevel::Active);
}

#[test]
fn damped_average_of_exactly_thirty_is_hyperactive() {
    assert_eq!(select_intensity(300, 9), IntensityLevel::Hyperactive);
    assert_eq!(select_intensity(299, 9), IntensityLevel::Maintainer);
}

#[test]
fn damped_average_of_exactly_fifty_is_extreme() {
    assert_eq!(select_intensity(500, 9), IntensityLevel::Extreme);
    assert_eq!(select_intensity(499, 9), IntensityLevel::Hyperactive);
}

#[test]
fn five_thousand_over_three_hundred_days_sits_on_the_boundary() {
    // 5000 / 300 * 0.9 is 15 exactly: the boundary belongs to the tier above.
    assert_eq!(select_intensity(5000, 300), IntensityLevel::Maintainer);
    assert_eq!(calibrate_pattern_for_target(5000, 300).intensity(), IntensityLevel::Maintainer);
    // One event fewer is just below the boundary.
    assert_eq!(select_intensity(4999, 300), IntensityLevel::Active);
    assert_eq!(calibrate_pattern_for_target(4999, 300).intensity(), IntensityLevel::Active);
    // One more stays above it.
    assert_eq!(select_intensity(5001, 300), IntensityLevel::Maintainer);
}

#[test]
fn a_larger_total_never_gives_a_lighter_tier() {
    for days in [1i64, 7, 30, 300, 365] {
        let mut previous = 0;
        let mut total: u32 = 0;
        while total <= 25_000 {
            let now = rank(select_intensity(total, days));
            assert!(now >= previous, "total {} over {} days", total, days);
            previous = now;
            total += 1;
        }
    }
}

#[test]
fn the_largest_inputs_are_taken() {
    assert_eq!(select_intensity(u32::MAX, 1), IntensityLevel::Extreme);
    assert_eq!(select_intensity(u32::MAX, i64::MAX), IntensityLevel::Casual);
}

#[test]
fn calibrated_configuration_has_the_fixed_parts() {
    for total in [0u32, 100, 1000, 5000, 12_000, 40_000] {
        let config = calibrate_pattern_for_target(total, 365);
        assert!(config.use_weekly_rhythm());
        assert_eq!(config.vacation_duration(), (1, 4));
        assert_eq!(config.spike_multiplier(), 2_800_000);
    }
}

#[test]
fn calibrated_probabilities_follow_the_tier() {
    let expected = [
        (0u32, IntensityLevel::Casual, 30_000u32, 180_000u32),
        (10, IntensityLevel::Active, 20_000, 220_000),
        (20, IntensityLevel::Maintainer, 15_000, 280_000),
        (40, IntensityLevel::Hyperactive, 10_000, 320_000),
        (100, IntensityLevel::Extreme, 8_000, 380_000),
    ];
    for (total, level, vacation, spike) in expected {
        let config = calibrate_pattern_for_target(total, 1);
        assert_eq!(config.intensity(), level);
        assert_eq!(config.vacation_frequency(), vacation);
        assert_eq!(config.spike_probability(), spike);
    }
}
