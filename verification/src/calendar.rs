//! Calendar days as day numbers, and minute-exact local timestamps.

use vstd::prelude::*;

verus! {

/// A day of the week.
#[derive(Debug, Clone, Copy, PartialEq, Eq, Structural, Hash)]
pub enum Weekday {
    Mon,
    Tue,
    Wed,
    Thu,
    Fri,
    Sat,
    Sun,
}

impl Weekday {
    /// Days since Monday, from 0 to 6.
    pub open spec fn index(self) -> int {
        match self {
            Weekday::Mon => 0,
            Weekday::Tue => 1,
            Weekday::Wed => 2,
            Weekday::Thu => 3,
            Weekday::Fri => 4,
            Weekday::Sat => 5,
            Weekday::Sun => 6,
        }
    }

    /// Whether the day is a Saturday or a Sunday.
    pub open spec fn weekend(self) -> bool {
        self == Weekday::Sat || self == Weekday::Sun
    }

    pub fn num_days_from_monday(&self) -> (r: u32)
        ensures
            r == self.index(),
    {
        match self {
            Weekday::Mon => 0,
            Weekday::Tue => 1,
            Weekday::Wed => 2,
            Weekday::Thu => 3,
            Weekday::Fri => 4,
            Weekday::Sat => 5,
            Weekday::Sun => 6,
        }
    }

    pub fn is_weekend(&self) -> (r: bool)
        ensures
            r == self.weekend(),
    {
        match self {
            Weekday::Sat | Weekday::Sun => true,
            _ => false,
        }
    }
}

/// The weekday of a day number: day 1 is a Monday.
pub open spec fn weekday_of(days: int) -> Weekday {
    let since_monday = (days - 1) % 7;
    if since_monday == 0 {
        Weekday::Mon
    } else if since_monday == 1 {
        Weekday::Tue
    } else if since_monday == 2 {
        Weekday::Wed
    } else if since_monday == 3 {
        Weekday::Thu
    } else if since_monday == 4 {
        Weekday::Fri
    } else if since_monday == 5 {
        Weekday::Sat
    } else {
        Weekday::Sun
    }
}

/// A calendar day, held as its day number in the proleptic Gregorian
/// calendar: day 1 is Monday, 1 January of year 1, and every `i32` is a day.
#[derive(Debug, Clone, Copy, PartialEq, Eq, Structural, PartialOrd, Ord, Hash)]
pub struct Date {
    pub days: i32,
}

impl View for Date {
    type V = int;

    open spec fn view(&self) -> int {
        self.days as int
    }
}

impl Date {
    pub fn from_days(days: i32) -> (r: Date)
        ensures
            r@ == days,
    {
        Date { days }
    }

    pub fn days(&self) -> (r: i32)
        ensures
            r == self@,
    {
        self.days
    }

    pub fn weekday(&self) -> (r: Weekday)
        ensures
            r == weekday_of(self@),
    {
        // 7 * 306_783_379 exceeds every distance below zero that an `i32` has.
        let shifted: i64 = self.days as i64 - 1 + 2_147_483_653;
        let since_monday: i64 = shifted % 7;
        assert(since_monday == (self.days - 1) % 7);
        if since_monday == 0 {
            Weekday::Mon
        } else if since_monday == 1 {
            Weekday::Tue
        } else if since_monday == 2 {
            Weekday::Wed
        } else if since_monday == 3 {
            Weekday::Thu
        } else if since_monday == 4 {
            Weekday::Fri
        } else if since_monday == 5 {
            Weekday::Sat
        } else {
            Weekday::Sun
        }
    }

    pub fn is_weekend(&self) -> (r: bool)
        ensures
            r == weekday_of(self@).weekend(),
    {
        self.weekday().is_weekend()
    }

    /// The day after this one, unless this is the last day that the type holds.
    pub fn succ(&self) -> (r: Option<Date>)
        ensures
            self@ < i32::MAX ==> r == Some(Date { days: (self@ + 1) as i32 }),
            self@ == i32::MAX ==> r.is_none(),
    {
        if self.days < i32::MAX {
            Some(Date { days: self.days + 1 })
        } else {
            None
        }
    }
}

/// Minutes in a day.
pub const DAY_MINUTES: u32 = 1440;

/// A local date and time of day, exact to the minute.
#[derive(Debug, Clone, Copy, PartialEq, Eq, Structural, PartialOrd, Ord, Hash)]
pub struct Timestamp {
    pub date: Date,
    pub hour: u32,
    pub minute: u32,
}

impl Timestamp {
    /// Whether the time of day exists: hours below 24, minutes below 60.
    pub open spec fn valid(self) -> bool {
        self.hour < 24 && self.minute < 60
    }

    /// Minutes from the start of day 0 to this instant.
    pub open spec fn minute_number(self) -> int {
        self.date@ * 1440 + self.hour * 60 + self.minute
    }

    /// Whether this instant is no later than `other`: by the day, then the
    /// hour, then the minute.
    pub open spec fn at_or_before(self, other: Timestamp) -> bool {
        ||| self.date@ < other.date@
        ||| (self.date@ == other.date@ && self.hour < other.hour)
        ||| (self.date@ == other.date@ && self.hour == other.hour && self.minute <= other.minute)
    }

    pub fn new(date: Date, hour: u32, minute: u32) -> (r: Option<Timestamp>)
        ensures
            hour < 24 && minute < 60 ==> r == Some(Timestamp { date, hour, minute }),
            !(hour < 24 && minute < 60) ==> r.is_none(),
    {
        if hour < 24 && minute < 60 {
            Some(Timestamp { date, hour, minute })
        } else {
            None
        }
    }

    pub fn is_at_or_before(&self, other: &Timestamp) -> (r: bool)
        ensures
            r == self.at_or_before(*other),
    {
        if self.date.days != other.date.days {
            self.date.days < other.date.days
        } else if self.hour != other.hour {
            self.hour < other.hour
        } else {
            self.minute <= other.minute
        }
    }
}

/// Among valid timestamps the order is that of the minute numbers, and equal
/// minute numbers mean equal timestamps.
pub proof fn lemma_order_by_minute_number(a: Timestamp, b: Timestamp)
    requires
        a.valid(),
        b.valid(),
    ensures
        a.at_or_before(b) <==> a.minute_number() <= b.minute_number(),
        a.minute_number() == b.minute_number() ==> a == b,
{
}

} // verus!
