use chrono::{Datelike, NaiveDate};
use github_grid::{Date, Timestamp, Weekday};

fn day(year: i32, month: u32, day: u32) -> Date {
    Date::from_days(NaiveDate::from_ymd_opt(year, month, day).unwrap().num_days_from_ce())
}

#[test]
fn day_one_is_a_monday() {
    assert_eq!(Date::from_days(1).weekday(), Weekday::Mon);
    assert_eq!(Date::from_days(0).weekday(), Weekday::Sun);
    assert_eq!(Date::from_days(-1).weekday(), Weekday::Sat);
    assert_eq!(Date::from_days(7).weekday(), Weekday::Sun);
    assert_eq!(Date::from_days(8).weekday(), Weekday::Mon);
}

#[test]
fn known_dates_have_their_weekday() {
    assert_eq!(day(2024, 1, 1).weekday(), Weekday::Mon);
    assert_eq!(day(2024, 1, 6).weekday(), Weekday::Sat);
    assert_eq!(day(2024, 1, 7).weekday(), Weekday::Sun);
    assert_eq!(day(2024, 2, 29).weekday(), Weekday::Thu);
    assert_eq!(day(1999, 9, 3).weekday(), Weekday::Fri);
    assert_eq!(day(1999, 9, 3).days(), 730_000);
}

#[test]
fn weekdays_agree_with_the_calendar() {
    let mut days = -800_000;
    while days <= 800_000 {
        let expected = NaiveDate::from_num_days_from_ce_opt(days)
            .unwrap()
            .weekday()
            .num_days_from_monday();
        assert_eq!(Date::from_days(days).weekday().num_days_from_monday(), expected, "{}", days);
        days += 37;
    }
    for days in [i32::MIN, i32::MIN + 1, i32::MAX - 1, i32::MAX] {
        let since_monday = (days as i64 - 1).rem_euclid(7) as u32;
        assert_eq!(Date::from_days(days).weekday().num_days_from_monday(), since_monday);
    }
}

#[test]
fn weekend_is_saturday_and_sunday() {
    let kinds = [
        (Weekday::Mon, false),
        (Weekday::Tue, false),
        (Weekday::Wed, false),
        (Weekday::Thu, false),
        (Weekday::Fri, false),
        (Weekday::Sat, true),
        (Weekday::Sun, true),
    ];
    for (weekday, weekend) in kinds {
        assert_eq!(weekday.is_weekend(), weekend);
    }
    assert!(day(2024, 1, 6).is_weekend());
    assert!(!day(2024, 1, 5).is_weekend());
}

#[test]
fn the_day_after() {
    assert_eq!(day(2023, 12, 31).succ(), Some(day(2024, 1, 1)));
    assert_eq!(Date::from_days(i32::MAX).succ(), None);
    assert_eq!(Date::from_days(i32::MIN).succ(), Some(Date::from_days(i32::MIN + 1)));
}

#[test]
fn timestamps_need_a_time_of_day_that_exists() {
    let date = day(2024, 1, 1);
    assert_eq!(Timestamp::new(date, 23, 59), Some(Timestamp { date, hour: 23, minute: 59 }));
    assert_eq!(Timestamp::new(date, 0, 0), Some(Timestamp { date, hour: 0, minute: 0 }));
    assert_eq!(Timestamp::new(date, 24, 0), None);
    assert_eq!(Timestamp::new(date, 0, 60), None);
}

#[test]
fn timestamps_are_ordered_by_day_hour_minute() {
    let monday = day(2024, 1, 1);
    let tuesday = day(2024, 1, 2);
    let early = Timestamp { date: monday, hour: 6, minute: 59 };
    let later = Timestamp { date: monday, hour: 7, minute: 0 };
    let next = Timestamp { date: tuesday, hour: 0, minute: 0 };
    assert!(early.is_at_or_before(&later));
    assert!(!later.is_at_or_before(&early));
    assert!(later.is_at_or_before(&next));
    assert!(!next.is_at_or_before(&early));
    assert!(early.is_at_or_before(&early));
    assert!(early < later && later < next);
}
