//! How the day of the week scales a day's count.

use vstd::prelude::*;
use crate::calendar::Weekday;

verus! {

/// Width of the jitter on the weekly multiplier, in millionths: a draw from
/// 0 to this width moves the multiplier by the draw less half the width.
pub const RHYTHM_JITTER_WIDTH: u32 = 100_000;

/// The multiplier of a weekday before jitter, in millionths: 0.7 on Monday,
/// 1.1 from Tuesday to Thursday, 0.8 on Friday, 0.6 at the weekend.
pub open spec fn base_multiplier(weekday: Weekday) -> int {
    match weekday {
        Weekday::Mon => 700_000,
        Weekday::Tue => 1_100_000,
        Weekday::Wed => 1_100_000,
        Weekday::Thu => 1_100_000,
        Weekday::Fri => 800_000,
        Weekday::Sat => 600_000,
        Weekday::Sun => 600_000,
    }
}

/// The multiplier of a weekday, in millionths: the base multiplier moved by
/// the jitter draw less 0.05, and never below 0.1.
pub open spec fn weekly_multiplier(weekday: Weekday, jitter: u32) -> int {
    let moved = base_multiplier(weekday) + jitter - 50_000;
    if moved < 100_000 {
        100_000
    } else {
        moved
    }
}

/// Computes the multiplier of a weekday from the jitter draw.
pub fn get_weekly_multiplier(weekday: Weekday, jitter: u32) -> (r: u64)
    ensures
        r == weekly_multiplier(weekday, jitter),
        r >= 100_000,
        jitter <= RHYTHM_JITTER_WIDTH ==> 550_000 <= r <= 1_150_000,
{
    let base: u64 = match weekday {
        Weekday::Mon => 700_000,
        Weekday::Tue => 1_100_000,
        Weekday::Wed => 1_100_000,
        Weekday::Thu => 1_100_000,
        Weekday::Fri => 800_000,
        Weekday::Sat => 600_000,
        Weekday::Sun => 600_000,
    };
    let moved: u64 = base + jitter as u64 - 50_000;
    if moved < 100_000 {
        100_000
    } else {
        moved
    }
}

} // verus!
