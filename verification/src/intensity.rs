//! The five activity tiers and the fixed tables behind them.

use vstd::prelude::*;

verus! {

/// One whole in the fixed-point unit of this crate: probabilities and
/// multipliers are counted in millionths.
pub const MILLION: u32 = 1_000_000;

/// A named tier of activity, from the lightest to the heaviest.
#[derive(Debug, Clone, Copy, PartialEq, Eq, Structural, Hash)]
pub enum IntensityLevel {
    Casual,
    Active,
    Maintainer,
    Hyperactive,
    Extreme,
}

impl IntensityLevel {
    /// Position of the tier in the ascending order of tiers.
    pub open spec fn rank(self) -> int {
        match self {
            IntensityLevel::Casual => 0,
            IntensityLevel::Active => 1,
            IntensityLevel::Maintainer => 2,
            IntensityLevel::Hyperactive => 3,
            IntensityLevel::Extreme => 4,
        }
    }

    /// Inclusive bounds of the base count on a day from Monday to Friday.
    pub open spec fn weekday_range(self) -> (u32, u32) {
        match self {
            IntensityLevel::Casual => (0, 5),
            IntensityLevel::Active => (0, 15),
            IntensityLevel::Maintainer => (2, 25),
            IntensityLevel::Hyperactive => (5, 45),
            IntensityLevel::Extreme => (10, 80),
        }
    }

    /// Inclusive bounds of the base count on a Saturday or Sunday.
    pub open spec fn weekend_range(self) -> (u32, u32) {
        match self {
            IntensityLevel::Casual => (0, 3),
            IntensityLevel::Active => (0, 5),
            IntensityLevel::Maintainer => (0, 10),
            IntensityLevel::Hyperactive => (0, 20),
            IntensityLevel::Extreme => (2, 35),
        }
    }

    /// Probability, in millionths, that a day from Monday to Friday is worked.
    pub open spec fn work_probability(self) -> u32 {
        match self {
            IntensityLevel::Casual => 150_000,
            IntensityLevel::Active => 650_000,
            IntensityLevel::Maintainer => 750_000,
            IntensityLevel::Hyperactive => 850_000,
            IntensityLevel::Extreme => 920_000,
        }
    }

    /// Probability, in millionths, that a Saturday or Sunday is worked.
    pub open spec fn weekend_work_probability(self) -> u32 {
        match self {
            IntensityLevel::Casual => 50_000,
            IntensityLevel::Active => 150_000,
            IntensityLevel::Maintainer => 250_000,
            IntensityLevel::Hyperactive => 350_000,
            IntensityLevel::Extreme => 500_000,
        }
    }

    /// Largest count that a spike day may reach.
    pub open spec fn spike_cap(self) -> u32 {
        match self {
            IntensityLevel::Casual => 15,
            IntensityLevel::Active => 40,
            IntensityLevel::Maintainer => 60,
            IntensityLevel::Hyperactive => 100,
            IntensityLevel::Extreme => 150,
        }
    }

    /// The base range of the tier for the given kind of day.
    pub open spec fn base_range(self, weekend: bool) -> (u32, u32) {
        if weekend {
            self.weekend_range()
        } else {
            self.weekday_range()
        }
    }

    /// The work probability of the tier for the given kind of day.
    pub open spec fn work_probability_on(self, weekend: bool) -> u32 {
        if weekend {
            self.weekend_work_probability()
        } else {
            self.work_probability()
        }
    }

    pub fn get_weekday_range(&self) -> (r: (u32, u32))
        ensures
            r == self.weekday_range(),
            r.0 <= r.1,
    {
        match self {
            IntensityLevel::Casual => (0, 5),
            IntensityLevel::Active => (0, 15),
            IntensityLevel::Maintainer => (2, 25),
            IntensityLevel::Hyperactive => (5, 45),
            IntensityLevel::Extreme => (10, 80),
        }
    }

    pub fn get_weekend_range(&self) -> (r: (u32, u32))
        ensures
            r == self.weekend_range(),
            r.0 <= r.1,
    {
        match self {
            IntensityLevel::Casual => (0, 3),
            IntensityLevel::Active => (0, 5),
            IntensityLevel::Maintainer => (0, 10),
            IntensityLevel::Hyperactive => (0, 20),
            IntensityLevel::Extreme => (2, 35),
        }
    }

    pub fn get_work_probability(&self) -> (r: u32)
        ensures
            r == self.work_probability(),
            r <= MILLION,
    {
        match self {
            IntensityLevel::Casual => 150_000,
            IntensityLevel::Active => 650_000,
            IntensityLevel::Maintainer => 750_000,
            IntensityLevel::Hyperactive => 850_000,
            IntensityLevel::Extreme => 920_000,
        }
    }

    pub fn get_weekend_work_probability(&self) -> (r: u32)
        ensures
            r == self.weekend_work_probability(),
            r <= MILLION,
    {
        match self {
            IntensityLevel::Casual => 50_000,
            IntensityLevel::Active => 150_000,
            IntensityLevel::Maintainer => 250_000,
            IntensityLevel::Hyperactive => 350_000,
            IntensityLevel::Extreme => 500_000,
        }
    }

    pub fn get_spike_cap(&self) -> (r: u32)
        ensures
            r == self.spike_cap(),
    {
        match self {
            IntensityLevel::Casual => 15,
            IntensityLevel::Active => 40,
            IntensityLevel::Maintainer => 60,
            IntensityLevel::Hyperactive => 100,
            IntensityLevel::Extreme => 150,
        }
    }
}

} // verus!
