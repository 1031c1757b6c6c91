//! Vacations: runs of days on which nothing happens.
//!
//! The walk over the days is in one of two states, active or on vacation.
//! Each day is entered with a check: a vacation whose end has come is over
//! before anything else is decided, so the day of the end is an active day.
//! An active day may start a vacation of a drawn length; the days from there
//! up to the end, the end not included, are suppressed.

use vstd::prelude::*;
use crate::calendar::Date;
use crate::config::{ConfigModel, PatternConfig};
use crate::intensity::MILLION;
use crate::stream::{day_seed, draw, lane_draw, LANE_VACATION_LENGTH, LANE_VACATION_TRIGGER};

verus! {

/// The draws that decide whether a vacation starts on a day, and how long it
/// is if it does.
#[derive(Debug, Clone, Copy, PartialEq, Eq)]
pub struct VacationDraws {
    /// Below one million: a vacation starts if this is below the frequency.
    pub trigger: u32,
    /// The length in days, within the bounds of the configuration.
    pub length: u32,
}

/// The vacation draws of the day with the given seed, each from its lane.
pub open spec fn vacation_draws(seed: u64, config: ConfigModel) -> VacationDraws {
    VacationDraws {
        trigger: lane_draw(seed, LANE_VACATION_TRIGGER, 0, 999_999),
        length: lane_draw(seed, LANE_VACATION_LENGTH, config.vacation_min, config.vacation_max),
    }
}

/// Makes the vacation draws of the day with the given seed. The length lies
/// within the bounds of the configuration.
pub fn draw_vacation(seed: u64, config: &PatternConfig) -> (r: VacationDraws)
    ensures
        r == vacation_draws(seed, config@),
        r.trigger < MILLION,
        config@.vacation_min <= r.length <= config@.vacation_max,
{
    let bounds = config.vacation_duration();
    VacationDraws {
        trigger: draw(seed, LANE_VACATION_TRIGGER, 0, 999_999),
        length: draw(seed, LANE_VACATION_LENGTH, bounds.0, bounds.1),
    }
}

/// The cursor of a walk, as plain values: the day that is entered next,
/// whether a vacation was running when the day before ended, and the day on
/// which that vacation ends.
pub ghost struct ScheduleModel {
    pub current_date: int,
    pub on_vacation: bool,
    pub vacation_end: int,
}

impl ScheduleModel {
    /// The cursor before the first day of a walk.
    pub open spec fn starting(start: int) -> ScheduleModel {
        ScheduleModel { current_date: start, on_vacation: false, vacation_end: start }
    }

    /// Whether the current day is entered active: no vacation is running, or
    /// its end has come.
    pub open spec fn active(self) -> bool {
        !self.on_vacation || self.current_date >= self.vacation_end
    }

    /// Whether a vacation starts on the current day.
    pub open spec fn starts_vacation(self, config: ConfigModel, draws: VacationDraws) -> bool {
        self.active() && draws.trigger < config.vacation_frequency
    }

    /// Whether the current day is suppressed: a vacation runs through it, or
    /// one of at least a day starts on it.
    pub open spec fn suppresses(self, config: ConfigModel, draws: VacationDraws) -> bool {
        !self.active() || (draws.trigger < config.vacation_frequency && draws.length > 0)
    }

    /// The cursor after the current day.
    pub open spec fn next(self, config: ConfigModel, draws: VacationDraws) -> ScheduleModel {
        if !self.active() {
            ScheduleModel { current_date: self.current_date + 1, ..self }
        } else if draws.trigger < config.vacation_frequency {
            ScheduleModel {
                current_date: self.current_date + 1,
                on_vacation: true,
                vacation_end: self.current_date + draws.length,
            }
        } else {
            ScheduleModel { current_date: self.current_date + 1, on_vacation: false, ..self }
        }
    }
}

/// The cursor of one walk over a range of days.
#[derive(Debug, Clone, Copy)]
pub struct ScheduleState {
    current_date: i64,
    on_vacation: bool,
    vacation_end: i64,
}

impl View for ScheduleState {
    type V = ScheduleModel;

    closed spec fn view(&self) -> ScheduleModel {
        ScheduleModel {
            current_date: self.current_date as int,
            on_vacation: self.on_vacation,
            vacation_end: self.vacation_end as int,
        }
    }
}

impl ScheduleState {
    #[verifier::type_invariant]
    spec fn well_formed(self) -> bool {
        &&& i32::MIN <= self.current_date <= i32::MAX + 1
        &&& i32::MIN <= self.vacation_end <= i32::MAX + u32::MAX
    }

    /// The cursor before the first day of a walk that starts on `start`.
    pub fn starting(start: Date) -> (r: ScheduleState)
        ensures
            r@ == ScheduleModel::starting(start@),
    {
        ScheduleState {
            current_date: start.days as i64,
            on_vacation: false,
            vacation_end: start.days as i64,
        }
    }

    /// The day that is entered next, or `None` once the walk has passed the
    /// last day that a `Date` holds.
    pub fn current_date(&self) -> (r: Option<Date>)
        ensures
            self@.current_date <= i32::MAX ==> r == Some(
                Date { days: self@.current_date as i32 },
            ),
            self@.current_date > i32::MAX ==> r is None,
    {
        proof {
            use_type_invariant(self);
        }
        if self.current_date <= i32::MAX as i64 {
            Some(Date { days: self.current_date as i32 })
        } else {
            None
        }
    }

    /// Enters the current day with its draws, says whether the day is
    /// suppressed, and moves on to the next day.
    pub fn advance(&mut self, config: &PatternConfig, draws: VacationDraws) -> (suppressed: bool)
        requires
            old(self)@.current_date <= i32::MAX,
        ensures
            suppressed == old(self)@.suppresses(config@, draws),
            final(self)@ == old(self)@.next(config@, draws),
    {
        proof {
            use_type_invariant(&*self);
        }
        let today = self.current_date;
        if self.on_vacation && today >= self.vacation_end {
            self.on_vacation = false;
        }
        let mut suppressed = self.on_vacation;
        if !self.on_vacation && draws.trigger < config.vacation_frequency() {
            self.vacation_end = today + draws.length as i64;
            self.on_vacation = true;
            suppressed = draws.length > 0;
        }
        self.current_date = today + 1;
        suppressed
    }
}

/// The cursor with which `day` is entered in a walk that starts on `start`
/// under the given entropy term.
pub open spec fn state_on(config: ConfigModel, start: int, entropy: u64, day: int) -> ScheduleModel
    decreases day - start,
{
    if day <= start {
        ScheduleModel::starting(start)
    } else {
        state_on(config, start, entropy, day - 1).next(
            config,
            vacation_draws(day_seed(day - 1, entropy), config),
        )
    }
}

/// Whether `day` is suppressed in that walk.
pub open spec fn day_suppressed(config: ConfigModel, start: int, entropy: u64, day: int) -> bool {
    state_on(config, start, entropy, day).suppresses(
        config,
        vacation_draws(day_seed(day, entropy), config),
    )
}

/// Whether a vacation starts on `day` in that walk.
pub open spec fn vacation_starts_on(
    config: ConfigModel,
    start: int,
    entropy: u64,
    day: int,
) -> bool {
    state_on(config, start, entropy, day).starts_vacation(
        config,
        vacation_draws(day_seed(day, entropy), config),
    )
}

/// The length that a vacation has if it starts on `day`.
pub open spec fn vacation_length_on(config: ConfigModel, entropy: u64, day: int) -> int {
    vacation_draws(day_seed(day, entropy), config).length as int
}

/// A walk enters each day with the cursor on that day.
pub proof fn lemma_cursor_follows_the_days(
    config: ConfigModel,
    start: int,
    entropy: u64,
    day: int,
)
    requires
        start <= day,
    ensures
        state_on(config, start, entropy, day).current_date == day,
    decreases day - start,
{
    if day > start {
        lemma_cursor_follows_the_days(config, start, entropy, day - 1);
    }
}

/// A vacation that starts on `first` with length `n` suppresses the `n` days
/// from `first` on, one after the other, and is over when day `first + n` is
/// entered: that day is active again. `offset` picks one of the days.
pub proof fn lemma_vacation_spans_its_length(
    config: ConfigModel,
    start: int,
    entropy: u64,
    first: int,
    offset: int,
)
    requires
        start <= first,
        vacation_starts_on(config, start, entropy, first),
        0 <= offset < vacation_length_on(config, entropy, first),
    ensures
        day_suppressed(config, start, entropy, first + offset),
        state_on(config, start, entropy, first + offset + 1) == (ScheduleModel {
            current_date: first + offset + 1,
            on_vacation: true,
            vacation_end: first + vacation_length_on(config, entropy, first),
        }),
        offset + 1 == vacation_length_on(config, entropy, first) ==> state_on(
            config,
            start,
            entropy,
            first + offset + 1,
        ).active(),
    decreases offset,
{
    lemma_cursor_follows_the_days(config, start, entropy, first);
    if offset > 0 {
        lemma_vacation_spans_its_length(config, start, entropy, first, offset - 1);
    }
}

/// A vacation of no days suppresses nothing: the day on which it starts is
/// worked as any active day, and so is entered the day after.
pub proof fn lemma_empty_vacation_suppresses_nothing(
    config: ConfigModel,
    start: int,
    entropy: u64,
    first: int,
)
    requires
        start <= first,
        vacation_starts_on(config, start, entropy, first),
        vacation_length_on(config, entropy, first) == 0,
    ensures
        !day_suppressed(config, start, entropy, first),
        state_on(config, start, entropy, first + 1).active(),
{
    lemma_cursor_follows_the_days(config, start, entropy, first);
}

/// The day on which the vacation started that runs when `day` is entered;
/// it means nothing where none runs.
spec fn origin_of(config: ConfigModel, start: int, entropy: u64, day: int) -> int
    decreases day - start,
{
    if day <= start {
        start
    } else if vacation_starts_on(config, start, entropy, day - 1) {
        day - 1
    } else {
        origin_of(config, start, entropy, day - 1)
    }
}

/// A vacation that runs when a day is entered started on an earlier day of
/// the walk and ends as far after that day as its length says.
proof fn lemma_running_vacation_has_an_origin(
    config: ConfigModel,
    start: int,
    entropy: u64,
    day: int,
)
    requires
        start <= day,
        state_on(config, start, entropy, day).on_vacation,
    ensures
        start <= origin_of(config, start, entropy, day) < day,
        vacation_starts_on(config, start, entropy, origin_of(config, start, entropy, day)),
        state_on(config, start, entropy, day).vacation_end == origin_of(
            config,
            start,
            entropy,
            day,
        ) + vacation_length_on(config, entropy, origin_of(config, start, entropy, day)),
    decreases day - start,
{
    if day > start {
        lemma_cursor_follows_the_days(config, start, entropy, day - 1);
        if !vacation_starts_on(config, start, entropy, day - 1) {
            lemma_running_vacation_has_an_origin(config, start, entropy, day - 1);
        }
    }
}

/// A suppressed day lies in a vacation: one started on that day or on an
/// earlier day of the walk, and the day comes before its end.
pub proof fn lemma_suppressed_day_lies_in_a_vacation(
    config: ConfigModel,
    start: int,
    entropy: u64,
    day: int,
)
    requires
        start <= day,
        day_suppressed(config, start, entropy, day),
    ensures
        exists|first: int|
            start <= first <= day && #[trigger] vacation_starts_on(config, start, entropy, first)
                && day < first + vacation_length_on(config, entropy, first),
{
    lemma_cursor_follows_the_days(config, start, entropy, day);
    if state_on(config, start, entropy, day).active() {
        assert(vacation_starts_on(config, start, entropy, day));
    } else {
        lemma_running_vacation_has_an_origin(config, start, entropy, day);
        let first = origin_of(config, start, entropy, day);
        assert(vacation_starts_on(config, start, entropy, first));
    }
}

} // verus!
