use github_grid::rhythm::get_weekly_multiplier;
use github_grid::volume::{
    count_for_day, count_from_draws, draw_day, get_base_commits, should_work_today, DayDraws,
};
use github_grid::{Date, IntensityLevel, PatternConfig, Weekday};

/// Draws that pass the work check, keep the multipliers at their base values and
/// do not spike.
fn plain(base: u32) -> DayDraws {
    DayDraws {
        work_jitter: 100_000,
        work: 0,
        base,
        rhythm_jitter: 50_000,
        spike: 999_999,
        spike_extra: 1_000_000,
        zero_floor: 999_999,
    }
}

#[test]
fn weekly_multiplier_has_its_base_values() {
    let rows = [
        (Weekday::Mon, 700_000u64),
        (Weekday::Tue, 1_100_000),
        (Weekday::Wed, 1_100_000),
        (Weekday::Thu, 1_100_000),
        (Weekday::Fri, 800_000),
        (Weekday::Sat, 600_000),
        (Weekday::Sun, 600_000),
    ];
    for (weekday, base) in rows {
        assert_eq!(get_weekly_multiplier(weekday, 50_000), base);
        assert_eq!(get_weekly_multiplier(weekday, 0), base - 50_000);
        assert_eq!(get_weekly_multiplier(weekday, 100_000), base + 50_000);
    }
}

#[test]
fn weekly_multiplier_is_always_positive() {
    for weekday in [Weekday::Mon, Weekday::Wed, Weekday::Fri, Weekday::Sat, Weekday::Sun] {
        for jitter in [0u32, 1, 49_999, 50_000, 100_000, u32::MAX] {
            assert!(get_weekly_multiplier(weekday, jitter) >= 100_000);
        }
    }
}

#[test]
fn work_check_compares_the_draw_with_the_moved_probability() {
    let mut draws = plain(3);
    // Casual on a weekday: 0.15, no jitter.
    draws.work = 149_999;
    assert!(should_work_today(IntensityLevel::Casual, false, &draws));
    draws.work = 150_000;
    assert!(!should_work_today(IntensityLevel::Casual, false, &draws));
    // The largest jitter adds 0.1.
    draws.work_jitter = 200_000;
    draws.work = 249_999;
    assert!(should_work_today(IntensityLevel::Casual, false, &draws));
    draws.work = 250_000;
    assert!(!should_work_today(IntensityLevel::Casual, false, &draws));
    // The smallest takes 0.1 away.
    draws.work_jitter = 0;
    draws.work = 49_999;
    assert!(should_work_today(IntensityLevel::Casual, false, &draws));
    draws.work = 50_000;
    assert!(!should_work_today(IntensityLevel::Casual, false, &draws));
}

#[test]
fn work_check_keeps_the_probability_between_nothing_and_one() {
    let mut draws = plain(0);
    // Casual at the weekend: 0.05 less 0.1 is held at nothing.
    draws.work_jitter = 0;
    draws.work = 0;
    assert!(!should_work_today(IntensityLevel::Casual, true, &draws));
    // Extreme on a weekday: 0.92 plus 0.1 is held at one whole.
    draws.work_jitter = 200_000;
    draws.work = 999_999;
    assert!(should_work_today(IntensityLevel::Extreme, false, &draws));
}

#[test]
fn work_check_uses_the_weekend_probability_at_the_weekend() {
    let mut draws = plain(0);
    draws.work = 100_000;
    assert!(should_work_today(IntensityLevel::Active, false, &draws));
    assert!(should_work_today(IntensityLevel::Active, true, &draws));
    draws.work = 150_000;
    assert!(should_work_today(IntensityLevel::Active, false, &draws));
    assert!(!should_work_today(IntensityLevel::Active, true, &draws));
}

#[test]
fn a_day_that_is_not_worked_has_no_events() {
    let mut draws = plain(5);
    draws.work = 999_999;
    draws.work_jitter = 0;
    draws.spike = 0;
    assert_eq!(count_from_draws(&PatternConfig::casual(), Weekday::Mon, &draws), 0);
}

#[test]
fn without_rhythm_and_spike_the_count_is_the_base_draw() {
    let config = PatternConfig::new(IntensityLevel::Casual, false, 0, (0, 0), 0, 0).unwrap();
    for base in 1..=5 {
        assert_eq!(get_base_commits(&config, Weekday::Tue, &plain(base)), base);
    }
    for base in 1..=3 {
        assert_eq!(get_base_commits(&config, Weekday::Sat, &plain(base)), base);
    }
}

#[test]
fn plain_casual_counts_stay_in_the_base_range() {
    let config = PatternConfig::new(IntensityLevel::Casual, false, 0, (0, 0), 0, 0).unwrap();
    for days in 738_886..739_252 {
        let date = Date::from_days(days);
        for entropy in [0u64, 1, 500, 999] {
            let count = count_for_day(&config, date, entropy);
            if date.is_weekend() {
                assert!(count <= 3, "day {} has {}", days, count);
            } else {
                assert!(count <= 5, "day {} has {}", days, count);
            }
        }
    }
}

#[test]
fn rhythm_scales_and_cuts_off() {
    let config = PatternConfig::active();
    // 15 * 0.7 = 10.5
    assert_eq!(get_base_commits(&config, Weekday::Mon, &plain(15)), 10);
    // 15 * 1.1 = 16.5
    assert_eq!(get_base_commits(&config, Weekday::Wed, &plain(15)), 16);
    // 15 * 0.8 = 12
    assert_eq!(get_base_commits(&config, Weekday::Fri, &plain(15)), 12);
    // 5 * 0.6 = 3
    assert_eq!(get_base_commits(&config, Weekday::Sun, &plain(5)), 3);
    // 15 * 1.15 = 17.25 with the largest jitter
    let mut high = plain(15);
    high.rhythm_jitter = 100_000;
    assert_eq!(get_base_commits(&config, Weekday::Tue, &high), 17);
    // 15 * 0.65 = 9.75 with the smallest
    let mut low = plain(15);
    low.rhythm_jitter = 0;
    assert_eq!(get_base_commits(&config, Weekday::Mon, &low), 9);
}

#[test]
fn spike_multiplies_and_is_capped() {
    let config = PatternConfig::casual();
    let mut draws = plain(2);
    draws.spike = 79_999;
    // 2 * (2.5 + 1.0) = 7
    assert_eq!(get_base_commits(&config, Weekday::Mon, &draws), 7);
    draws.spike_extra = 500_000;
    // 2 * (2.5 + 0.5) = 6
    assert_eq!(get_base_commits(&config, Weekday::Mon, &draws), 6);
    draws.spike_extra = 1_500_000;
    // 2 * (2.5 + 1.5) = 8
    assert_eq!(get_base_commits(&config, Weekday::Mon, &draws), 8);
    draws.base = 5;
    // 5 * 4 = 20, held at the cap of 15
    assert_eq!(get_base_commits(&config, Weekday::Mon, &draws), 15);
    draws.spike = 80_000;
    // No spike at the probability itself.
    assert_eq!(get_base_commits(&config, Weekday::Mon, &draws), 5);
}

#[test]
fn spike_comes_after_the_rhythm() {
    let config = PatternConfig::active();
    let mut draws = plain(9);
    draws.spike = 0;
    // 9 * 0.7 = 6.3 -> 6, then 6 * (2.0 + 1.0) = 18.
    // The other order would give 27 * 0.7 = 18.9 -> 18 as well, so take 11:
    draws.base = 11;
    // 11 * 0.7 = 7.7 -> 7, then 7 * 3 = 21; the other order gives 33 * 0.7 = 23.1 -> 23.
    assert_eq!(get_base_commits(&config, Weekday::Mon, &draws), 21);
}

#[test]
fn spike_cut_off_is_towards_zero() {
    let config = PatternConfig::maintainer();
    let mut draws = plain(3);
    draws.spike = 0;
    draws.spike_extra = 777_777;
    // Wednesday: 3 * 1.1 = 3.3 -> 3; 3 * (1.8 + 0.777777) = 7.733331 -> 7
    assert_eq!(get_base_commits(&config, Weekday::Wed, &draws), 7);
}

#[test]
fn a_count_of_zero_stays_or_becomes_one() {
    let config = PatternConfig::casual();
    let mut draws = plain(0);
    draws.zero_floor = 299_999;
    assert_eq!(get_base_commits(&config, Weekday::Mon, &draws), 0);
    draws.zero_floor = 300_000;
    assert_eq!(get_base_commits(&config, Weekday::Mon, &draws), 1);
    draws.zero_floor = 0;
    assert_eq!(get_base_commits(&config, Weekday::Mon, &draws), 0);
    // A spike on nothing is nothing, and the rule for zero still holds.
    draws.spike = 0;
    draws.zero_floor = 999_999;
    assert_eq!(get_base_commits(&config, Weekday::Mon, &draws), 1);
    // The rhythm can bring a count down to zero: 1 * 0.7 -> 0.
    let mut one = plain(1);
    one.zero_floor = 0;
    assert_eq!(get_base_commits(&PatternConfig::active(), Weekday::Mon, &one), 0);
}

#[test]
fn draws_are_checked_against_their_ranges() {
    assert!(plain(5).fits(IntensityLevel::Casual, false));
    assert!(!plain(5).fits(IntensityLevel::Casual, true));
    assert!(!plain(1).fits(IntensityLevel::Maintainer, false));
    assert!(plain(2).fits(IntensityLevel::Maintainer, false));
    let mut draws = plain(0);
    draws.work = 1_000_000;
    assert!(!draws.fits(IntensityLevel::Casual, false));
    let mut draws = plain(0);
    draws.spike_extra = 499_999;
    assert!(!draws.fits(IntensityLevel::Casual, false));
    let mut draws = plain(0);
    draws.rhythm_jitter = 100_001;
    assert!(!draws.fits(IntensityLevel::Casual, false));
}

#[test]
fn drawn_values_lie_in_their_ranges_and_vary() {
    let mut works = std::collections::BTreeSet::new();
    let mut bases = std::collections::BTreeSet::new();
    for seed in 0..200u64 {
        for (level, weekend) in [(IntensityLevel::Extreme, false), (IntensityLevel::Maintainer, true)] {
            let draws = draw_day(seed, level, weekend);
            assert!(draws.fits(level, weekend));
            works.insert(draws.work);
            bases.insert(draws.base);
        }
    }
    assert!(works.len() > 100);
    assert!(bases.len() > 20);
}

#[test]
fn lanes_of_one_seed_are_independent_draws() {
    let draws = draw_day(42, IntensityLevel::Active, false);
    // Three lanes with the same range: were the lane ignored, they would agree.
    assert!(!(draws.work == draws.spike && draws.spike == draws.zero_floor));
}

#[test]
fn same_day_same_entropy_same_count() {
    let config = PatternConfig::extreme();
    for days in 738_886..738_986 {
        let date = Date::from_days(days);
        let first = count_for_day(&config, date, 123);
        let second = count_for_day(&config, date, 123);
        assert_eq!(first, second);
        // Only the last three decimal digits of the entropy term are read.
        assert_eq!(count_for_day(&config, date, 5_123), first);
        assert_eq!(count_for_day(&config, date, 1_000_123), first);
    }
}

#[test]
fn counts_stay_under_the_ceiling_whatever_the_entropy() {
    let rows = [
        (PatternConfig::casual(), 15u32, 15u32),
        (PatternConfig::active(), 40, 40),
        (PatternConfig::maintainer(), 60, 60),
        (PatternConfig::hyperactive(), 100, 100),
        (PatternConfig::extreme(), 150, 150),
        (PatternConfig::steady(), 40, 40),
        (PatternConfig::new(IntensityLevel::Extreme, true, 0, (0, 0), 0, 0).unwrap(), 92, 40),
        (PatternConfig::new(IntensityLevel::Casual, false, 0, (0, 0), 0, 0).unwrap(), 5, 3),
    ];
    for (config, weekday_top, weekend_top) in rows {
        let mut varied = std::collections::BTreeSet::new();
        for days in 738_886..738_950 {
            let date = Date::from_days(days);
            for entropy in 0..40u64 {
                let count = count_for_day(&config, date, entropy);
                let top = if date.is_weekend() { weekend_top } else { weekday_top };
                assert!(count <= top, "{} on day {}", count, days);
                varied.insert(count);
            }
        }
        assert!(varied.len() > 1);
    }
}
