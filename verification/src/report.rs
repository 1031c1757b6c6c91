//! Figures about a schedule: how much falls on a day, how many days are
//! active, how much lies at the weekend.

use std::collections::HashSet;
use vstd::prelude::*;
use crate::calendar::{weekday_of, Date};
use crate::events::CommitInfo;

verus! {

/// How full a day is, in four steps.
#[derive(Debug, Clone, Copy, PartialEq, Eq, Structural, Hash)]
pub enum Density {
    /// No event.
    Empty,
    /// One to three events.
    Light,
    /// Four to ten events.
    Busy,
    /// More than ten events.
    Burning,
}

/// The step that a count of events falls into.
pub open spec fn density_for(count: int) -> Density {
    if count <= 0 {
        Density::Empty
    } else if count <= 3 {
        Density::Light
    } else if count <= 10 {
        Density::Busy
    } else {
        Density::Burning
    }
}

/// Gives the step that a count of events falls into.
pub fn density_of(count: usize) -> (r: Density)
    ensures
        r == density_for(count as int),
{
    if count == 0 {
        Density::Empty
    } else if count <= 3 {
        Density::Light
    } else if count <= 10 {
        Density::Busy
    } else {
        Density::Burning
    }
}

/// How many of the first `upto` events fall on `day`.
pub open spec fn events_on(events: Seq<CommitInfo>, day: int, upto: int) -> int
    decreases upto,
{
    if upto <= 0 {
        0
    } else {
        events_on(events, day, upto - 1) + if events[upto - 1].date.date@ == day {
            1int
        } else {
            0int
        }
    }
}

/// How many of the first `upto` events fall on a Saturday or a Sunday.
pub open spec fn weekend_events(events: Seq<CommitInfo>, upto: int) -> int
    decreases upto,
{
    if upto <= 0 {
        0
    } else {
        weekend_events(events, upto - 1) + if weekday_of(
            events[upto - 1].date.date@,
        ).weekend() {
            1int
        } else {
            0int
        }
    }
}

/// The days on which at least one of the first `upto` events falls.
pub open spec fn active_days(events: Seq<CommitInfo>, upto: int) -> Set<i32> {
    Set::new(|day: i32| exists|i: int| 0 <= i < upto && (#[trigger] events[i]).date.date.days == day)
}

/// Counts the events that fall on `day`.
pub fn count_on_day(events: &Vec<CommitInfo>, day: Date) -> (r: usize)
    ensures
        r == events_on(events@, day@, events@.len() as int),
{
    let mut count: usize = 0;
    let mut index: usize = 0;
    while index < events.len()
        invariant
            index <= events.len(),
            count <= index,
            count == events_on(events@, day@, index as int),
        decreases events.len() - index,
    {
        if events[index].date.date.days == day.days {
            count += 1;
        }
        index += 1;
    }
    count
}

/// The figures of a schedule.
#[derive(Debug, Clone, Copy, PartialEq, Eq)]
pub struct Summary {
    /// How many events there are.
    pub total: usize,
    /// On how many days at least one event falls.
    pub active_days: usize,
    /// How many events fall on a Saturday or a Sunday.
    pub weekend_commits: usize,
}

/// Takes the figures of a schedule; the events need not be in order.
pub fn summarize(events: &Vec<CommitInfo>) -> (r: Summary)
    ensures
        r.total == events@.len(),
        r.active_days == active_days(events@, events@.len() as int).len(),
        r.weekend_commits == weekend_events(events@, events@.len() as int),
{
    broadcast use vstd::std_specs::hash::group_hash_axioms;

    let mut seen: HashSet<i32> = HashSet::new();
    let mut weekend: usize = 0;
    let mut index: usize = 0;
    assert(seen@ =~= active_days(events@, 0));
    while index < events.len()
        invariant
            index <= events.len(),
            weekend <= index,
            weekend == weekend_events(events@, index as int),
            seen@ == active_days(events@, index as int),
        decreases events.len() - index,
    {
        let date = events[index].date.date;
        if date.is_weekend() {
            weekend += 1;
        }
        let ghost before = seen@;
        seen.insert(date.days);
        assert(seen@ =~= active_days(events@, index + 1)) by {
            assert forall|day: i32| #[trigger]
                active_days(events@, index + 1).contains(day) implies before.insert(
                date.days,
            ).contains(day) by {
                let i = choose|i: int|
                    0 <= i < index + 1 && (#[trigger] events@[i]).date.date.days == day;
                if i < index {
                    assert(active_days(events@, index as int).contains(day));
                }
            }
            assert forall|day: i32| #[trigger]
                before.insert(date.days).contains(day) implies active_days(
                events@,
                index + 1,
            ).contains(day) by {
                if day == date.days {
                    assert(events@[index as int].date.date.days == day);
                } else {
                    let i = choose|i: int|
                        0 <= i < index && (#[trigger] events@[i]).date.date.days == day;
                    assert(0 <= i < index + 1);
                }
            }
        }
        index += 1;
    }
    Summary { total: events.len(), active_days: seen.len(), weekend_commits: weekend }
}

} // verus!
