//! Where the random numbers come from.
//!
//! Every decision of the model draws from an address of its own: a seed and
//! a lane. A draw is then a function of its address and its range alone, so
//! the whole schedule is a function of the configuration, the days and the
//! entropy term, and no generator state runs through the model.
//! Labels are drawn from the thread's generator, apart from all of that.

use vstd::prelude::*;
use rand::Rng;
use rand::SeedableRng;
use rand::rngs::ThreadRng;
use rand_chacha::ChaCha8Rng;

verus! {

/// The number that `Rng::random_range` of rand returns for the inclusive
/// range from `lo` to `hi`, on a `ChaCha8Rng` of rand_chacha that
/// `SeedableRng::seed_from_u64` has made from `seed` and that
/// `ChaCha8Rng::set_stream` has moved to the stream `lane`.
pub uninterp spec fn lane_draw(seed: u64, lane: u64, lo: u32, hi: u32) -> u32;

/// Makes a `ChaCha8Rng` from `seed` (`seed_from_u64`), moves it to the stream
/// `lane` (`set_stream`) and draws once from `lo..=hi` (`random_range`).
/// Believed of them: the result is the same whenever the four arguments are,
/// and it lies in the range. `random_range` panics on an empty range, which
/// `requires` leaves out.
#[verifier::external_body]
pub(crate) fn draw(seed: u64, lane: u64, lo: u32, hi: u32) -> (r: u32)
    requires
        lo <= hi,
    ensures
        r == lane_draw(seed, lane, lo, hi),
        lo <= r <= hi,
{
    let mut rng = ChaCha8Rng::seed_from_u64(seed);
    rng.set_stream(lane);
    rng.random_range(lo..=hi)
}

/// The generator that rand keeps for each thread.
#[verifier::external_type_specification]
#[verifier::external_body]
pub struct ExThreadRng(ThreadRng);

/// `rand::rng` hands out the thread's generator; nothing is claimed of it.
pub assume_specification[ rand::rng ]() -> (r: ThreadRng);

/// Draws once from `0..count` with `Rng::random_range` on the thread's
/// generator. Believed of it: the result is below `count`. It panics on an
/// empty range, which `requires` leaves out.
#[verifier::external_body]
pub(crate) fn draw_below(rng: &mut ThreadRng, count: u32) -> (r: u32)
    requires
        count > 0,
    ensures
        r < count,
{
    rng.random_range(0..count)
}

/// The lanes of a day's seed, one for each decision.
pub const LANE_VACATION_TRIGGER: u64 = 0;

pub const LANE_VACATION_LENGTH: u64 = 1;

pub const LANE_WORK_JITTER: u64 = 2;

pub const LANE_WORK: u64 = 3;

pub const LANE_BASE: u64 = 4;

pub const LANE_RHYTHM_JITTER: u64 = 5;

pub const LANE_SPIKE: u64 = 6;

pub const LANE_SPIKE_EXTRA: u64 = 7;

pub const LANE_ZERO_FLOOR: u64 = 8;

/// The first lane of the events' times: event `i` of a day takes its hour
/// from lane `LANE_FIRST_EVENT + 2 * i` and its minute from the lane after.
pub const LANE_FIRST_EVENT: u64 = 9;

/// The seed of a day: the day number times a million, plus the last three
/// decimal digits of the entropy term, wrapped into 64 bits.
pub open spec fn day_seed(day: int, entropy: u64) -> u64 {
    ((day * 1_000_000 + entropy % 1000) % 0x1_0000_0000_0000_0000) as u64
}

/// Computes the seed of a day.
pub fn seed_of_day(days: i32, entropy: u64) -> (r: u64)
    ensures
        r == day_seed(days as int, entropy),
{
    let low: u64 = entropy % 1000;
    if days >= 0 {
        (days as u64) * 1_000_000 + low
    } else {
        let back: u64 = ((-(days as i64)) as u64) * 1_000_000 - low;
        u64::MAX - back + 1
    }
}

/// Seeds depend on the entropy term only through its last three decimal
/// digits.
pub proof fn lemma_seed_reads_three_digits(day: int, entropy: u64, other: u64)
    requires
        entropy % 1000 == other % 1000,
    ensures
        day_seed(day, entropy) == day_seed(day, other),
{
}

/// Within the range of day numbers, different days have different seeds
/// under one entropy term.
pub proof fn lemma_seeds_differ_by_day(day: int, other_day: int, entropy: u64)
    requires
        i32::MIN <= day <= i32::MAX,
        i32::MIN <= other_day <= i32::MAX,
        day != other_day,
    ensures
        day_seed(day, entropy) != day_seed(other_day, entropy),
{
}

} // verus!
