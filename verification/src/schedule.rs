//! The walk over a range of days that yields the schedule.
//!
//! Day by day, in ascending order: the vacation cursor says whether the day
//! is suppressed; if it is not, the volume model gives the day's count, and
//! each event of the day draws its hour and its minute. What the walk has
//! produced is put in chronological order.

use vstd::prelude::*;
use vstd::relations::{
    antisymmetric,
    reflexive,
    sorted_by,
    strongly_connected,
    total_ordering,
    transitive,
};
use vstd::seq_lib::{
    lemma_multiset_commutative,
    lemma_sorted_unique,
    to_multiset_build,
    to_multiset_insert,
};
use crate::calendar::{Date, Timestamp};
use crate::config::{ConfigModel, PatternConfig};
use crate::error::ConfigError;
use crate::events::{dates_of, label_events, labelled, CommitInfo, LabelSource};
use crate::stream::{day_seed, draw, lane_draw, seed_of_day, LANE_FIRST_EVENT};
use crate::vacation::{
    day_suppressed,
    draw_vacation,
    lemma_cursor_follows_the_days,
    state_on,
    vacation_length_on,
    ScheduleState,
};
use crate::volume::{count_ceiling, count_for_day, daily_count};

verus! {

/// The first and the last hour of the day in which events fall, unless the
/// engine is given another window.
pub const DEFAULT_FIRST_HOUR: u32 = 6;

pub const DEFAULT_LAST_HOUR: u32 = 23;

/// What an engine is set up with, as plain values.
pub ghost struct EngineModel {
    pub config: ConfigModel,
    /// First hour of the activity window.
    pub first_hour: u32,
    /// Last hour of the activity window, itself included.
    pub last_hour: u32,
}

/// The number of events on `day` in a walk from `start`: none on a
/// suppressed day, else the count of the volume model.
pub open spec fn day_total(engine: EngineModel, start: int, entropy: u64, day: int) -> int {
    if day_suppressed(engine.config, start, entropy, day) {
        0
    } else {
        daily_count(engine.config, day, entropy)
    }
}

/// The time of the event with the given index on `day`: the hour from the
/// activity window and the minute of the hour, each from a lane of its own.
pub open spec fn event_time(engine: EngineModel, day: int, entropy: u64, index: int) -> Timestamp {
    let seed = day_seed(day, entropy);
    Timestamp {
        date: Date { days: day as i32 },
        hour: lane_draw(
            seed,
            (LANE_FIRST_EVENT + 2 * index) as u64,
            engine.first_hour,
            engine.last_hour,
        ),
        minute: lane_draw(seed, (LANE_FIRST_EVENT + 2 * index + 1) as u64, 0, 59),
    }
}

/// The events of `day`, in the order in which they are drawn.
pub open spec fn day_events(engine: EngineModel, start: int, entropy: u64, day: int) -> Seq<
    Timestamp,
> {
    Seq::new(
        day_total(engine, start, entropy, day) as nat,
        |index: int| event_time(engine, day, entropy, index),
    )
}

/// All that a walk from `start` has produced before it enters `upto`, in
/// the order in which it was drawn.
pub open spec fn produced(engine: EngineModel, start: int, entropy: u64, upto: int) -> Seq<
    Timestamp,
>
    decreases upto - start,
{
    if upto <= start {
        Seq::empty()
    } else {
        produced(engine, start, entropy, upto - 1) + day_events(engine, start, entropy, upto - 1)
    }
}

/// Whether each time is at or before all that follow it.
pub open spec fn chronological(times: Seq<Timestamp>) -> bool {
    forall|i: int, j: int| 0 <= i <= j < times.len() ==> times[i].at_or_before(times[j])
}

/// Whether a time belongs to a walk from `start` to `end`: its day lies in
/// the range and is not suppressed, its hour lies in the activity window,
/// and it is a time of day that exists.
pub open spec fn in_walk(
    engine: EngineModel,
    start: int,
    end: int,
    entropy: u64,
    time: Timestamp,
) -> bool {
    &&& start <= time.date@ <= end
    &&& !day_suppressed(engine.config, start, entropy, time.date@)
    &&& engine.first_hour <= time.hour <= engine.last_hour
    &&& time.valid()
}

/// Whether every vacation that can start on a day from `start` to `end` has
/// a length within the bounds of the configuration.
pub open spec fn vacations_within_bounds(
    config: ConfigModel,
    start: int,
    end: int,
    entropy: u64,
) -> bool {
    forall|day: int|
        start <= day <= end ==> config.vacation_min <= #[trigger] vacation_length_on(
            config,
            entropy,
            day,
        ) <= config.vacation_max
}

/// The most events that one day can have under a configuration.
pub open spec fn day_ceiling(config: ConfigModel) -> int {
    if count_ceiling(config, false) >= count_ceiling(config, true) {
        count_ceiling(config, false)
    } else {
        count_ceiling(config, true)
    }
}

/// Whether `times` is the timeline of a walk from `start` to `end`: what the
/// walk produces, put in chronological order. Only one sequence is.
pub open spec fn is_timeline(
    engine: EngineModel,
    start: int,
    end: int,
    entropy: u64,
    times: Seq<Timestamp>,
) -> bool {
    &&& chronological(times)
    &&& times.to_multiset() == produced(engine, start, entropy, end + 1).to_multiset()
    &&& forall|i: int|
        0 <= i < times.len() ==> in_walk(engine, start, end, entropy, #[trigger] times[i])
    &&& start <= end ==> times.len() <= (end - start + 1) * day_ceiling(engine.config)
    &&& start > end ==> times.len() == 0
}

/// Whether `events` is the schedule of a walk from `start` to `end`: the
/// timeline of the walk, each time with its label from the source.
pub open spec fn is_schedule(
    engine: EngineModel,
    start: int,
    end: int,
    entropy: u64,
    labels: LabelSource,
    events: Seq<CommitInfo>,
) -> bool {
    &&& is_timeline(engine, start, end, entropy, dates_of(events))
    &&& labelled(dates_of(events), labels, events)
}

/// Puts a time into a chronological sequence, behind all that are at or
/// before it, and says where it went.
pub fn insert_in_order(times: &mut Vec<Timestamp>, time: Timestamp) -> (place: usize)
    requires
        chronological(old(times)@),
    ensures
        place <= old(times)@.len(),
        forall|k: int| 0 <= k < place ==> (#[trigger] old(times)@[k]).at_or_before(time),
        forall|k: int|
            place <= k < old(times)@.len() ==> !(#[trigger] old(times)@[k]).at_or_before(time),
        final(times)@ == old(times)@.insert(place as int, time),
        chronological(final(times)@),
{
    let mut place: usize = times.len();
    while place > 0 && !times[place - 1].is_at_or_before(&time)
        invariant
            place <= times.len(),
            times@ == old(times)@,
            forall|k: int| place <= k < times.len() ==> !(#[trigger] times@[k]).at_or_before(time),
        decreases place,
    {
        place -= 1;
    }
    let ghost before = times@;
    assert forall|k: int| 0 <= k < place implies (#[trigger] before[k]).at_or_before(time) by {
        assert(before[k].at_or_before(before[place - 1]));
    }
    times.insert(place, time);
    assert(chronological(times@)) by {
        assert forall|i: int, j: int| 0 <= i <= j < times@.len() implies times@[i].at_or_before(
            times@[j],
        ) by {
            if j < place {
                assert(times@[i] == before[i] && times@[j] == before[j]);
            } else if j == place {
                if i < place {
                    assert(times@[i] == before[i]);
                    assert(before[i].at_or_before(before[place - 1]));
                    assert(before[place - 1].at_or_before(time));
                }
            } else {
                assert(times@[j] == before[j - 1]);
                if i < place {
                    assert(times@[i] == before[i]);
                    assert(before[i].at_or_before(before[j - 1]));
                } else if i == place {
                    assert(!before[j - 1].at_or_before(time));
                } else {
                    assert(times@[i] == before[i - 1]);
                    assert(before[i - 1].at_or_before(before[j - 1]));
                }
            }
        }
    }
    place
}

/// The engine: one configuration and one activity window.
#[derive(Debug, Clone, Copy)]
pub struct ConfigurablePattern {
    config: PatternConfig,
    first_hour: u32,
    last_hour: u32,
}

impl View for ConfigurablePattern {
    type V = EngineModel;

    closed spec fn view(&self) -> EngineModel {
        EngineModel {
            config: self.config@,
            first_hour: self.first_hour,
            last_hour: self.last_hour,
        }
    }
}

impl ConfigurablePattern {
    #[verifier::type_invariant]
    spec fn well_formed(self) -> bool {
        self.first_hour <= self.last_hour <= 23
    }

    /// An engine for the configuration, with the activity window from hour 6
    /// to hour 23.
    pub fn new(config: PatternConfig) -> (r: ConfigurablePattern)
        ensures
            r@ == (EngineModel {
                config: config@,
                first_hour: DEFAULT_FIRST_HOUR,
                last_hour: DEFAULT_LAST_HOUR,
            }),
    {
        ConfigurablePattern {
            config,
            first_hour: DEFAULT_FIRST_HOUR,
            last_hour: DEFAULT_LAST_HOUR,
        }
    }

    /// The same engine with another activity window, or the error if the
    /// window is empty or ends after hour 23.
    pub fn with_activity_window(self, first_hour: u32, last_hour: u32) -> (r: Result<
        ConfigurablePattern,
        ConfigError,
    >)
        ensures
            match r {
                Ok(engine) => first_hour <= last_hour <= 23 && engine@ == (EngineModel {
                    first_hour,
                    last_hour,
                    ..self@
                }),
                Err(e) => !(first_hour <= last_hour <= 23) && e
                    == ConfigError::ActivityWindowInvalid,
            },
    {
        if first_hour <= last_hour && last_hour <= 23 {
            Ok(ConfigurablePattern { config: self.config, first_hour, last_hour })
        } else {
            Err(ConfigError::ActivityWindowInvalid)
        }
    }

    pub fn config(&self) -> (r: PatternConfig)
        ensures
            r@ == self@.config,
    {
        self.config
    }

    pub fn activity_window(&self) -> (r: (u32, u32))
        ensures
            r.0 == self@.first_hour,
            r.1 == self@.last_hour,
            r.0 <= r.1 <= 23,
    {
        proof {
            use_type_invariant(self);
        }
        (self.first_hour, self.last_hour)
    }

    /// Walks the days from `start` to `end`, both included, and gives the
    /// times of all events in chronological order. With `start` after `end`
    /// there is no day to walk and no event.
    pub fn timeline(&self, start: Date, end: Date, entropy: u64) -> (r: Vec<Timestamp>)
        ensures
            is_timeline(self@, start@, end@, entropy, r@),
            vacations_within_bounds(self@.config, start@, end@, entropy),
    {
        proof {
            use_type_invariant(self);
        }
        let ghost engine = self@;
        let mut times: Vec<Timestamp> = Vec::new();
        let mut state = ScheduleState::starting(start);
        let mut day: i64 = start.days as i64;
        let last: i64 = end.days as i64;
        assert(produced(engine, start@, entropy, day as int) =~= Seq::<Timestamp>::empty());
        assert((day - start@) * day_ceiling(engine.config) == 0) by (nonlinear_arith)
            requires
                day == start@,
        ;
        while day <= last
            invariant
                engine == self@,
                self.first_hour == engine.first_hour,
                self.last_hour == engine.last_hour,
                self.first_hour <= self.last_hour <= 23,
                self.config@ == engine.config,
                last == end@,
                start@ <= day,
                day <= last + 1 || day == start@,
                state@ == state_on(engine.config, start@, entropy, day as int),
                chronological(times@),
                times@.to_multiset() == produced(engine, start@, entropy, day as int).to_multiset(),
                forall|i: int|
                    0 <= i < times@.len() ==> in_walk(
                        engine,
                        start@,
                        day - 1,
                        entropy,
                        #[trigger] times@[i],
                    ),
                times@.len() <= (day - start@) * day_ceiling(engine.config),
                vacations_within_bounds(engine.config, start@, day - 1, entropy),
            decreases last + 1 - day,
        {
            let date = Date::from_days(day as i32);
            let seed = seed_of_day(date.days(), entropy);
            let vacation = draw_vacation(seed, &self.config);
            proof {
                lemma_cursor_follows_the_days(engine.config, start@, entropy, day as int);
            }
            let suppressed = state.advance(&self.config, vacation);
            let ghost before = times@;
            let ghost today = day_events(engine, start@, entropy, day as int);
            let mut count: u32 = 0;
            if !suppressed {
                count = count_for_day(&self.config, date, entropy);
            }
            assert(count == day_total(engine, start@, entropy, day as int));
            assert(count <= day_ceiling(engine.config));
            assert(today.take(0) =~= Seq::<Timestamp>::empty());
            assert(before + today.take(0) =~= before);
            let mut index: u32 = 0;
            while index < count
                invariant
                    engine == self@,
                    self.first_hour == engine.first_hour,
                    self.last_hour == engine.last_hour,
                    self.first_hour <= self.last_hour <= 23,
                    date@ == day,
                    start@ <= day <= last,
                    seed == day_seed(day as int, entropy),
                    index <= count,
                    count > 0 ==> !day_suppressed(engine.config, start@, entropy, day as int),
                    today == day_events(engine, start@, entropy, day as int),
                    today.len() == count,
                    chronological(times@),
                    times@.to_multiset() == (before + today.take(index as int)).to_multiset(),
                    times@.len() == before.len() + index,
                    forall|i: int|
                        0 <= i < times@.len() ==> in_walk(
                            engine,
                            start@,
                            day as int,
                            entropy,
                            #[trigger] times@[i],
                        ),
                decreases count - index,
            {
                let hour = draw(
                    seed,
                    LANE_FIRST_EVENT + 2 * (index as u64),
                    self.first_hour,
                    self.last_hour,
                );
                let minute = draw(seed, LANE_FIRST_EVENT + 2 * (index as u64) + 1, 0, 59);
                let time = Timestamp { date, hour, minute };
                assert(time == today[index as int]);
                let ghost earlier = times@;
                let place = insert_in_order(&mut times, time);
                proof {
                    to_multiset_insert(earlier, place as int, time);
                    to_multiset_build(before + today.take(index as int), time);
                    assert((before + today.take(index as int)).push(time) =~= before + today.take(
                        index + 1,
                    ));
                    assert forall|i: int| 0 <= i < times@.len() implies in_walk(
                        engine,
                        start@,
                        day as int,
                        entropy,
                        #[trigger] times@[i],
                    ) by {
                        if i < place {
                            assert(times@[i] == earlier[i]);
                        } else if i > place {
                            assert(times@[i] == earlier[i - 1]);
                        }
                    }
                }
                index += 1;
            }
            proof {
                assert(today.take(count as int) =~= today);
                lemma_multiset_commutative(before, today);
                lemma_multiset_commutative(produced(engine, start@, entropy, day as int), today);
                assert(produced(engine, start@, entropy, day + 1) == produced(
                    engine,
                    start@,
                    entropy,
                    day as int,
                ) + today);
                assert((day + 1 - start@) * day_ceiling(engine.config) == (day - start@)
                    * day_ceiling(engine.config) + day_ceiling(engine.config))
                    by (nonlinear_arith);
            }
            day += 1;
        }
        proof {
            if start@ > end@ {
                assert(produced(engine, start@, entropy, end@ + 1) =~= Seq::<Timestamp>::empty());
                assert(times@.len() == 0);
            }
        }
        times
    }
}

/// Something that turns a range of days into a schedule.
pub trait Pattern {
    /// What the pattern is set up with.
    spec fn engine(&self) -> EngineModel;

    /// Walks the days from `start` to `end`, both included, and gives the
    /// events in chronological order, labelled from the source. The times
    /// are a function of the engine, the days and the entropy term; the
    /// labels have no part in them.
    fn generate(&self, start: Date, end: Date, entropy: u64, labels: &LabelSource) -> (r: Vec<
        CommitInfo,
    >)
        ensures
            is_schedule(self.engine(), start@, end@, entropy, *labels, r@),
    ;
}

impl Pattern for ConfigurablePattern {
    open spec fn engine(&self) -> EngineModel {
        self@
    }

    fn generate(&self, start: Date, end: Date, entropy: u64, labels: &LabelSource) -> (r: Vec<
        CommitInfo,
    >) {
        let times = self.timeline(start, end, entropy);
        label_events(&times, labels)
    }
}

/// Under each of the five tier presets a day has at most as many events as
/// the spike cap of the tier, so a walk over `n` days has at most `n` times
/// the cap.
pub proof fn lemma_tier_presets_peak_at_their_cap()
    ensures
        day_ceiling(ConfigModel::casual()) == 15,
        day_ceiling(ConfigModel::active()) == 40,
        day_ceiling(ConfigModel::maintainer()) == 60,
        day_ceiling(ConfigModel::hyperactive()) == 100,
        day_ceiling(ConfigModel::extreme()) == 150,
{
}

/// Chronological order and what was produced leave no choice: two sequences
/// that are both the timeline of one walk are equal.
pub proof fn lemma_timeline_is_unique(
    engine: EngineModel,
    start: int,
    end: int,
    entropy: u64,
    first: Seq<Timestamp>,
    second: Seq<Timestamp>,
)
    requires
        is_timeline(engine, start, end, entropy, first),
        is_timeline(engine, start, end, entropy, second),
    ensures
        first == second,
{
    let leq = |a: Timestamp, b: Timestamp| a.at_or_before(b);
    assert(total_ordering(leq)) by {
        assert(reflexive(leq));
        assert(antisymmetric(leq)) by {
            assert forall|a: Timestamp, b: Timestamp| #[trigger] leq(a, b) && #[trigger] leq(
                b,
                a,
            ) implies a == b by {
                assert(a.date.days == b.date.days);
            }
        }
        assert(transitive(leq));
        assert(strongly_connected(leq));
    }
    assert(sorted_by(first, leq));
    assert(sorted_by(second, leq));
    lemma_sorted_unique(first, second, leq);
}

/// Every event of a schedule lies in the range of days that was asked for,
/// and the events are in chronological order.
pub proof fn lemma_schedule_in_range_and_ordered(
    engine: EngineModel,
    start: int,
    end: int,
    entropy: u64,
    labels: LabelSource,
    events: Seq<CommitInfo>,
)
    requires
        is_schedule(engine, start, end, entropy, labels, events),
    ensures
        forall|i: int| 0 <= i < events.len() ==> start <= (#[trigger] events[i]).date.date@ <= end,
        forall|i: int, j: int|
            0 <= i <= j < events.len() ==> (#[trigger] events[i]).date.at_or_before(
                (#[trigger] events[j]).date,
            ),
{
    let times = dates_of(events);
    assert forall|i: int| 0 <= i < events.len() implies start <= (#[trigger] events[i]).date.date@
        <= end by {
        assert(in_walk(engine, start, end, entropy, times[i]));
    }
    assert forall|i: int, j: int| 0 <= i <= j < events.len() implies (#[trigger] events[i]).date.at_or_before(
        (#[trigger] events[j]).date,
    ) by {
        assert(times[i].at_or_before(times[j]));
    }
}

/// No event of a schedule lies on a suppressed day.
pub proof fn lemma_no_event_on_suppressed_day(
    engine: EngineModel,
    start: int,
    end: int,
    entropy: u64,
    labels: LabelSource,
    events: Seq<CommitInfo>,
    day: int,
)
    requires
        is_schedule(engine, start, end, entropy, labels, events),
        day_suppressed(engine.config, start, entropy, day),
    ensures
        day_total(engine, start, entropy, day) == 0,
        forall|i: int| 0 <= i < events.len() ==> (#[trigger] events[i]).date.date@ != day,
{
    let times = dates_of(events);
    assert forall|i: int| 0 <= i < events.len() implies (#[trigger] events[i]).date.date@
        != day by {
        assert(in_walk(engine, start, end, entropy, times[i]));
    }
}

} // verus!
