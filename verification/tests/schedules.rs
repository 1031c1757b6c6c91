use chrono::{Datelike, NaiveDate};
use github_grid::events::{create_commit_at_time, label_events};
use github_grid::messages::{get_random_message, message_at};
use github_grid::schedule::insert_in_order;
use github_grid::{
    ActivePattern, CasualPattern, CommitInfo, ConfigurablePattern, ContractorPattern, Date,
    ExtremePattern, HyperactivePattern, IntensityLevel, LabelSource, MaintainerPattern, Pattern,
    PatternConfig, RealisticPattern, SporadicPattern, SteadyPattern, Timestamp,
};

const POOL: [&str; 20] = [
    "[AutoGen] Add new feature implementation",
    "[AutoGen] Fix critical bug in core logic",
    "[AutoGen] Refactor existing codebase",
    "[AutoGen] Add comprehensive tests",
    "[AutoGen] Update documentation",
    "[AutoGen] Optimize performance bottleneck",
    "[AutoGen] Implement user feedback",
    "[AutoGen] Fix merge conflicts",
    "[AutoGen] Add error handling",
    "[AutoGen] Update dependencies",
    "[AutoGen] Clean up code structure",
    "[AutoGen] Add logging and monitoring",
    "[AutoGen] Fix security vulnerability",
    "[AutoGen] Improve user interface",
    "[AutoGen] Add API endpoints",
    "[AutoGen] Fix failing tests",
    "[AutoGen] Add database migrations",
    "[AutoGen] Improve code coverage",
    "[AutoGen] Add configuration options",
    "[AutoGen] Fix production issue",
];

fn day(year: i32, month: u32, day: u32) -> Date {
    Date::from_days(NaiveDate::from_ymd_opt(year, month, day).unwrap().num_days_from_ce())
}

fn check(events: &[CommitInfo], start: Date, end: Date, first_hour: u32, last_hour: u32) {
    for event in events {
        assert!(start <= event.date.date && event.date.date <= end);
        assert!(first_hour <= event.date.hour && event.date.hour <= last_hour);
        assert!(event.date.minute < 60);
        assert!(POOL.contains(&event.message.as_str()));
    }
    for pair in events.windows(2) {
        assert!(pair[0].date <= pair[1].date);
        assert!(pair[0].date.is_at_or_before(&pair[1].date));
    }
}

#[test]
fn a_week_of_casual_stays_in_the_week() {
    let start = day(2024, 1, 1);
    let end = day(2024, 1, 7);
    let engine = ConfigurablePattern::new(PatternConfig::from_name("casual").unwrap());
    for entropy in 0..300u64 {
        let events = engine.generate(start, end, entropy, &LabelSource::Ambient);
        assert!(events.len() <= 7 * 15);
        check(&events, start, end, 6, 23);
    }
}

#[test]
fn a_year_of_each_preset_is_in_range_and_in_order() {
    let start = day(2023, 3, 1);
    let end = day(2024, 2, 29);
    for name in [
        "casual", "active", "realistic", "maintainer", "hyperactive", "extreme", "steady",
        "sporadic", "contractor",
    ] {
        let engine = ConfigurablePattern::new(PatternConfig::from_name(name).unwrap());
        let events = engine.generate(start, end, 17, &LabelSource::Ambient);
        assert!(!events.is_empty(), "{}", name);
        check(&events, start, end, 6, 23);
    }
}

#[test]
fn heavier_tiers_give_more_events() {
    let start = day(2023, 1, 1);
    let end = day(2023, 12, 31);
    let mut previous = 0;
    for config in [
        PatternConfig::casual(),
        PatternConfig::active(),
        PatternConfig::maintainer(),
        PatternConfig::hyperactive(),
        PatternConfig::extreme(),
    ] {
        let count = ConfigurablePattern::new(config).timeline(start, end, 3).len();
        assert!(count > previous);
        previous = count;
    }
}

#[test]
fn the_same_request_gives_the_same_times() {
    let start = day(2024, 1, 1);
    let end = day(2024, 6, 30);
    let engine = ConfigurablePattern::new(PatternConfig::maintainer());
    let first = engine.timeline(start, end, 42);
    let second = engine.timeline(start, end, 42);
    assert_eq!(first, second);
    // Only the last three decimal digits of the entropy term are read.
    assert_eq!(engine.timeline(start, end, 9_042), first);
    // Another entropy term gives other times.
    assert_ne!(engine.timeline(start, end, 43), first);
}

#[test]
fn labels_do_not_touch_the_times() {
    let start = day(2024, 1, 1);
    let end = day(2024, 3, 31);
    let engine = ConfigurablePattern::new(PatternConfig::active());
    let times = engine.timeline(start, end, 5);
    let ambient = engine.generate(start, end, 5, &LabelSource::Ambient);
    let scripted = engine.generate(start, end, 5, &LabelSource::Scripted(vec![3, 1, 4]));
    assert_eq!(ambient.iter().map(|e| e.date).collect::<Vec<_>>(), times);
    assert_eq!(scripted.iter().map(|e| e.date).collect::<Vec<_>>(), times);
}

#[test]
fn scripted_labels_take_their_turns() {
    let start = day(2024, 1, 1);
    let end = day(2024, 1, 31);
    let engine = ConfigurablePattern::new(PatternConfig::extreme());
    let picks = vec![0u32, 19, 20, 41, 7];
    let events = engine.generate(start, end, 1, &LabelSource::Scripted(picks.clone()));
    assert!(events.len() > picks.len());
    for (index, event) in events.iter().enumerate() {
        let place = picks[index % picks.len()] % 20;
        assert_eq!(event.message, POOL[place as usize]);
    }
    let first = engine.generate(start, end, 1, &LabelSource::Scripted(Vec::new()));
    assert!(first.iter().all(|event| event.message == POOL[0]));
}

#[test]
fn an_empty_range_gives_no_events() {
    let engine = ConfigurablePattern::new(PatternConfig::extreme());
    let events = engine.generate(day(2024, 1, 2), day(2024, 1, 1), 0, &LabelSource::Ambient);
    assert!(events.is_empty());
}

#[test]
fn a_single_day_is_walked() {
    let the_day = day(2024, 1, 3);
    let engine = ConfigurablePattern::new(
        PatternConfig::new(IntensityLevel::Extreme, false, 0, (0, 0), 0, 0).unwrap(),
    );
    let mut worked = 0;
    for entropy in 0..50u64 {
        let events = engine.generate(the_day, the_day, entropy, &LabelSource::Ambient);
        check(&events, the_day, the_day, 6, 23);
        assert!(events.len() <= 80);
        if !events.is_empty() {
            assert!(events.len() >= 10);
            worked += 1;
        }
    }
    assert!(worked > 25);
}

#[test]
fn the_ends_of_the_calendar_are_walked() {
    let engine = ConfigurablePattern::new(PatternConfig::extreme());
    let last = Date::from_days(i32::MAX);
    let events = engine.generate(Date::from_days(i32::MAX - 20), last, 0, &LabelSource::Ambient);
    check(&events, Date::from_days(i32::MAX - 20), last, 6, 23);
    assert!(!events.is_empty());
    let first = Date::from_days(i32::MIN);
    let events = engine.generate(first, Date::from_days(i32::MIN + 20), 0, &LabelSource::Ambient);
    check(&events, first, Date::from_days(i32::MIN + 20), 6, 23);
    assert!(!events.is_empty());
}

#[test]
fn events_fall_in_the_activity_window() {
    let start = day(2024, 1, 1);
    let end = day(2024, 2, 29);
    let engine = ConfigurablePattern::new(PatternConfig::hyperactive())
        .with_activity_window(9, 17)
        .unwrap();
    let events = engine.generate(start, end, 11, &LabelSource::Ambient);
    assert!(events.len() > 100);
    check(&events, start, end, 9, 17);
    let hours: std::collections::BTreeSet<u32> = events.iter().map(|e| e.date.hour).collect();
    assert_eq!(hours.len(), 9);
    let noon = ConfigurablePattern::new(PatternConfig::hyperactive())
        .with_activity_window(12, 12)
        .unwrap();
    check(&noon.generate(start, end, 11, &LabelSource::Ambient), start, end, 12, 12);
}

#[test]
fn vacations_leave_runs_of_empty_days() {
    // A vacation every active day, always of three days: the day on which
    // one ends starts the next, so every day is suppressed.
    let always = PatternConfig::new(IntensityLevel::Extreme, false, 1_000_000, (3, 3), 0, 0)
        .unwrap();
    let start = day(2024, 1, 1);
    let end = day(2024, 3, 31);
    assert!(ConfigurablePattern::new(always).timeline(start, end, 0).is_empty());
    // Vacations of no days suppress nothing.
    let empty = PatternConfig::new(IntensityLevel::Extreme, false, 1_000_000, (0, 0), 0, 0)
        .unwrap();
    let never = PatternConfig::new(IntensityLevel::Extreme, false, 0, (3, 3), 0, 0).unwrap();
    let with_empty = ConfigurablePattern::new(empty).timeline(start, end, 0);
    let without = ConfigurablePattern::new(never).timeline(start, end, 0);
    assert!(!without.is_empty());
    assert_eq!(with_empty, without);
}

#[test]
fn vacation_days_have_no_events_and_other_days_are_untouched() {
    let start = day(2024, 1, 1);
    let end = day(2024, 12, 31);
    let with = PatternConfig::new(IntensityLevel::Extreme, false, 100_000, (2, 5), 0, 0).unwrap();
    let without = PatternConfig::new(IntensityLevel::Extreme, false, 0, (2, 5), 0, 0).unwrap();
    let some = ConfigurablePattern::new(with).timeline(start, end, 9);
    let all = ConfigurablePattern::new(without).timeline(start, end, 9);
    assert!(some.len() < all.len());
    // A day is either as it is without vacations, or empty.
    let mut kept = 0;
    let mut emptied = 0;
    let mut current = start;
    while current <= end {
        let here: Vec<&Timestamp> = some.iter().filter(|t| t.date == current).collect();
        let there: Vec<&Timestamp> = all.iter().filter(|t| t.date == current).collect();
        if here.is_empty() {
            if !there.is_empty() {
                emptied += 1;
            }
        } else {
            assert_eq!(here, there);
            kept += 1;
        }
        current = current.succ().unwrap();
    }
    assert!(kept > 100);
    assert!(emptied > 20);
}

#[test]
fn insertion_keeps_the_order_and_goes_behind_equal_times() {
    let date = Date::from_days(10);
    let at = |hour, minute| Timestamp { date, hour, minute };
    let mut times: Vec<Timestamp> = Vec::new();
    assert_eq!(insert_in_order(&mut times, at(9, 30)), 0);
    assert_eq!(insert_in_order(&mut times, at(8, 0)), 0);
    assert_eq!(insert_in_order(&mut times, at(23, 59)), 2);
    assert_eq!(insert_in_order(&mut times, at(9, 30)), 2);
    assert_eq!(insert_in_order(&mut times, at(9, 29)), 1);
    let earlier = Timestamp { date: Date::from_days(9), hour: 23, minute: 59 };
    assert_eq!(insert_in_order(&mut times, earlier), 0);
    assert_eq!(
        times,
        vec![earlier, at(8, 0), at(9, 29), at(9, 30), at(9, 30), at(23, 59)]
    );
}

#[test]
fn the_pool_has_twenty_labels_and_wraps_around() {
    for (index, text) in POOL.iter().enumerate() {
        assert_eq!(message_at(index as u32), *text);
        assert_eq!(message_at(index as u32 + 20), *text);
    }
    assert_eq!(message_at(u32::MAX), POOL[(u32::MAX % 20) as usize]);
}

#[test]
fn random_labels_come_from_the_pool_and_vary() {
    let mut rng = rand::rng();
    let mut seen = std::collections::BTreeSet::new();
    for _ in 0..2000 {
        let label = get_random_message(&mut rng);
        assert!(POOL.contains(&label.as_str()));
        seen.insert(label);
    }
    assert_eq!(seen.len(), 20);
}

#[test]
fn an_event_is_made_at_its_time() {
    let mut rng = rand::rng();
    let date = day(2024, 5, 17);
    let event = create_commit_at_time(date, 13, 7, &mut rng);
    assert_eq!(event.date, Timestamp { date, hour: 13, minute: 7 });
    assert!(POOL.contains(&event.message.as_str()));
}

#[test]
fn labelling_keeps_the_times_in_their_order() {
    let date = day(2024, 5, 17);
    let times = vec![
        Timestamp { date, hour: 6, minute: 0 },
        Timestamp { date, hour: 6, minute: 0 },
        Timestamp { date, hour: 22, minute: 15 },
    ];
    let events = label_events(&times, &LabelSource::Scripted(vec![5, 6]));
    assert_eq!(
        events,
        vec![
            CommitInfo { date: times[0], message: POOL[5].to_string() },
            CommitInfo { date: times[1], message: POOL[6].to_string() },
            CommitInfo { date: times[2], message: POOL[5].to_string() },
        ]
    );
    let ambient = label_events(&times, &LabelSource::Ambient);
    assert_eq!(ambient.iter().map(|e| e.date).collect::<Vec<_>>(), times);
}

#[test]
fn named_patterns_are_their_presets() {
    let start = day(2024, 1, 1);
    let end = day(2024, 4, 30);
    let labels = LabelSource::Scripted(vec![2, 4, 6]);
    let by_name = |name: &str| {
        ConfigurablePattern::new(PatternConfig::from_name(name).unwrap())
            .generate(start, end, 77, &labels)
    };
    assert_eq!(RealisticPattern::new().generate(start, end, 77, &labels), by_name("realistic"));
    assert_eq!(SteadyPattern::new().generate(start, end, 77, &labels), by_name("steady"));
    assert_eq!(SporadicPattern::new().generate(start, end, 77, &labels), by_name("sporadic"));
    assert_eq!(ContractorPattern::new().generate(start, end, 77, &labels), by_name("contractor"));
    assert_eq!(CasualPattern::new().generate(start, end, 77, &labels), by_name("casual"));
    assert_eq!(ActivePattern::new().generate(start, end, 77, &labels), by_name("active"));
    assert_eq!(MaintainerPattern::new().generate(start, end, 77, &labels), by_name("maintainer"));
    assert_eq!(HyperactivePattern::new().generate(start, end, 77, &labels), by_name("hyperactive"));
    assert_eq!(ExtremePattern::new().generate(start, end, 77, &labels), by_name("extreme"));
    assert_eq!(by_name("realistic"), by_name("active"));
    assert_ne!(by_name("steady"), by_name("sporadic"));
}
