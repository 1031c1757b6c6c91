//! The configuration of one run, its validation, and the named presets.

use vstd::prelude::*;
use vstd::string::StringExecFns;
use crate::error::ConfigError;
use crate::intensity::{IntensityLevel, MILLION};

verus! {

/// What a configuration says, as plain values.
pub ghost struct ConfigModel {
    pub intensity: IntensityLevel,
    pub use_weekly_rhythm: bool,
    /// Chance per active day, in millionths, that a vacation starts.
    pub vacation_frequency: u32,
    /// Fewest days of a vacation.
    pub vacation_min: u32,
    /// Most days of a vacation.
    pub vacation_max: u32,
    /// Chance per worked day, in millionths, of a spike.
    pub spike_probability: u32,
    /// Multiplier of a spike day, in millionths, before its random extra.
    pub spike_multiplier: u32,
}

impl ConfigModel {
    /// Probabilities are at most one whole, and the vacation bounds are in order.
    pub open spec fn valid(self) -> bool {
        &&& self.vacation_frequency <= MILLION
        &&& self.vacation_min <= self.vacation_max
        &&& self.spike_probability <= MILLION
    }

    /// An occasional contributor: irregular days, rare bursts.
    pub open spec fn casual() -> ConfigModel {
        ConfigModel {
            intensity: IntensityLevel::Casual,
            use_weekly_rhythm: false,
            vacation_frequency: 20_000,
            vacation_min: 0,
            vacation_max: 0,
            spike_probability: 80_000,
            spike_multiplier: 2_500_000,
        }
    }

    /// A professional working on several projects.
    pub open spec fn active() -> ConfigModel {
        ConfigModel {
            intensity: IntensityLevel::Active,
            use_weekly_rhythm: true,
            vacation_frequency: 30_000,
            vacation_min: 2,
            vacation_max: 7,
            spike_probability: 120_000,
            spike_multiplier: 2_000_000,
        }
    }

    /// Someone who looks after repositories day by day.
    pub open spec fn maintainer() -> ConfigModel {
        ConfigModel {
            intensity: IntensityLevel::Maintainer,
            use_weekly_rhythm: true,
            vacation_frequency: 40_000,
            vacation_min: 3,
            vacation_max: 10,
            spike_probability: 150_000,
            spike_multiplier: 1_800_000,
        }
    }

    /// Startup pace, with many long sessions.
    pub open spec fn hyperactive() -> ConfigModel {
        ConfigModel {
            intensity: IntensityLevel::Hyperactive,
            use_weekly_rhythm: true,
            vacation_frequency: 25_000,
            vacation_min: 2,
            vacation_max: 5,
            spike_probability: 200_000,
            spike_multiplier: 2_200_000,
        }
    }

    /// The heaviest tier: constant sprints, short breaks.
    pub open spec fn extreme() -> ConfigModel {
        ConfigModel {
            intensity: IntensityLevel::Extreme,
            use_weekly_rhythm: true,
            vacation_frequency: 20_000,
            vacation_min: 1,
            vacation_max: 4,
            spike_probability: 250_000,
            spike_multiplier: 2_500_000,
        }
    }

    /// Even activity: hardly a break, hardly a spike.
    pub open spec fn steady() -> ConfigModel {
        ConfigModel {
            intensity: IntensityLevel::Active,
            use_weekly_rhythm: false,
            vacation_frequency: 5_000,
            vacation_min: 1,
            vacation_max: 2,
            spike_probability: 20_000,
            spike_multiplier: 1_200_000,
        }
    }

    /// Irregular activity with large bursts.
    pub open spec fn sporadic() -> ConfigModel {
        ConfigModel {
            intensity: IntensityLevel::Active,
            use_weekly_rhythm: false,
            vacation_frequency: 20_000,
            vacation_min: 1,
            vacation_max: 5,
            spike_probability: 150_000,
            spike_multiplier: 3_000_000,
        }
    }

    /// Weekday work with a strong weekly rhythm.
    pub open spec fn contractor() -> ConfigModel {
        ConfigModel {
            intensity: IntensityLevel::Active,
            use_weekly_rhythm: true,
            vacation_frequency: 8_000,
            vacation_min: 2,
            vacation_max: 4,
            spike_probability: 80_000,
            spike_multiplier: 1_400_000,
        }
    }

    /// The preset that a name stands for. `realistic` is another name of
    /// `active`.
    pub open spec fn preset(name: Seq<char>) -> Option<ConfigModel> {
        if name == "casual"@ {
            Some(ConfigModel::casual())
        } else if name == "active"@ || name == "realistic"@ {
            Some(ConfigModel::active())
        } else if name == "maintainer"@ {
            Some(ConfigModel::maintainer())
        } else if name == "hyperactive"@ {
            Some(ConfigModel::hyperactive())
        } else if name == "extreme"@ {
            Some(ConfigModel::extreme())
        } else if name == "steady"@ {
            Some(ConfigModel::steady())
        } else if name == "sporadic"@ {
            Some(ConfigModel::sporadic())
        } else if name == "contractor"@ {
            Some(ConfigModel::contractor())
        } else {
            None
        }
    }
}

/// The error that the given values are refused with, if any. Where several
/// values are wrong, the vacation frequency is named before the vacation
/// bounds, and those before the spike probability.
pub open spec fn first_fault(
    vacation_frequency: u32,
    vacation_duration: (u32, u32),
    spike_probability: u32,
) -> Option<ConfigError> {
    if vacation_frequency > MILLION {
        Some(ConfigError::VacationFrequencyOutOfRange)
    } else if vacation_duration.0 > vacation_duration.1 {
        Some(ConfigError::VacationDurationReversed)
    } else if spike_probability > MILLION {
        Some(ConfigError::SpikeProbabilityOutOfRange)
    } else {
        None
    }
}

/// A validated configuration. Probabilities and the spike multiplier are in
/// millionths; the vacation duration is in days, both ends included.
#[derive(Debug, Clone, Copy, PartialEq, Eq)]
pub struct PatternConfig {
    intensity: IntensityLevel,
    use_weekly_rhythm: bool,
    vacation_frequency: u32,
    vacation_duration: (u32, u32),
    spike_probability: u32,
    spike_multiplier: u32,
}

impl View for PatternConfig {
    type V = ConfigModel;

    closed spec fn view(&self) -> ConfigModel {
        ConfigModel {
            intensity: self.intensity,
            use_weekly_rhythm: self.use_weekly_rhythm,
            vacation_frequency: self.vacation_frequency,
            vacation_min: self.vacation_duration.0,
            vacation_max: self.vacation_duration.1,
            spike_probability: self.spike_probability,
            spike_multiplier: self.spike_multiplier,
        }
    }
}

impl PatternConfig {
    #[verifier::type_invariant]
    spec fn well_formed(self) -> bool {
        self@.valid()
    }

    /// Checks the values and builds the configuration, or says what is wrong.
    pub fn new(
        intensity: IntensityLevel,
        use_weekly_rhythm: bool,
        vacation_frequency: u32,
        vacation_duration: (u32, u32),
        spike_probability: u32,
        spike_multiplier: u32,
    ) -> (r: Result<PatternConfig, ConfigError>)
        ensures
            match r {
                Ok(config) => first_fault(vacation_frequency, vacation_duration, spike_probability)
                    is None && config@ == (ConfigModel {
                    intensity,
                    use_weekly_rhythm,
                    vacation_frequency,
                    vacation_min: vacation_duration.0,
                    vacation_max: vacation_duration.1,
                    spike_probability,
                    spike_multiplier,
                }),
                Err(e) => first_fault(vacation_frequency, vacation_duration, spike_probability)
                    == Some(e),
            },
    {
        if vacation_frequency > MILLION {
            Err(ConfigError::VacationFrequencyOutOfRange)
        } else if vacation_duration.0 > vacation_duration.1 {
            Err(ConfigError::VacationDurationReversed)
        } else if spike_probability > MILLION {
            Err(ConfigError::SpikeProbabilityOutOfRange)
        } else {
            Ok(
                PatternConfig::from_parts(
                    intensity,
                    use_weekly_rhythm,
                    vacation_frequency,
                    vacation_duration,
                    spike_probability,
                    spike_multiplier,
                ),
            )
        }
    }

    /// Builds the configuration from values that are known to be in order.
    pub(crate) fn from_parts(
        intensity: IntensityLevel,
        use_weekly_rhythm: bool,
        vacation_frequency: u32,
        vacation_duration: (u32, u32),
        spike_probability: u32,
        spike_multiplier: u32,
    ) -> (r: PatternConfig)
        requires
            first_fault(vacation_frequency, vacation_duration, spike_probability) is None,
        ensures
            r@ == (ConfigModel {
                intensity,
                use_weekly_rhythm,
                vacation_frequency,
                vacation_min: vacation_duration.0,
                vacation_max: vacation_duration.1,
                spike_probability,
                spike_multiplier,
            }),
    {
        PatternConfig {
            intensity,
            use_weekly_rhythm,
            vacation_frequency,
            vacation_duration,
            spike_probability,
            spike_multiplier,
        }
    }

    pub fn casual() -> (r: PatternConfig)
        ensures
            r@ == ConfigModel::casual(),
    {
        PatternConfig {
            intensity: IntensityLevel::Casual,
            use_weekly_rhythm: false,
            vacation_frequency: 20_000,
            vacation_duration: (0, 0),
            spike_probability: 80_000,
            spike_multiplier: 2_500_000,
        }
    }

    pub fn active() -> (r: PatternConfig)
        ensures
            r@ == ConfigModel::active(),
    {
        PatternConfig {
            intensity: IntensityLevel::Active,
            use_weekly_rhythm: true,
            vacation_frequency: 30_000,
            vacation_duration: (2, 7),
            spike_probability: 120_000,
            spike_multiplier: 2_000_000,
        }
    }

    pub fn maintainer() -> (r: PatternConfig)
        ensures
            r@ == ConfigModel::maintainer(),
    {
        PatternConfig {
            intensity: IntensityLevel::Maintainer,
            use_weekly_rhythm: true,
            vacation_frequency: 40_000,
            vacation_duration: (3, 10),
            spike_probability: 150_000,
            spike_multiplier: 1_800_000,
        }
    }

    pub fn hyperactive() -> (r: PatternConfig)
        ensures
            r@ == ConfigModel::hyperactive(),
    {
        PatternConfig {
            intensity: IntensityLevel::Hyperactive,
            use_weekly_rhythm: true,
            vacation_frequency: 25_000,
            vacation_duration: (2, 5),
            spike_probability: 200_000,
            spike_multiplier: 2_200_000,
        }
    }

    pub fn extreme() -> (r: PatternConfig)
        ensures
            r@ == ConfigModel::extreme(),
    {
        PatternConfig {
            intensity: IntensityLevel::Extreme,
            use_weekly_rhythm: true,
            vacation_frequency: 20_000,
            vacation_duration: (1, 4),
            spike_probability: 250_000,
            spike_multiplier: 2_500_000,
        }
    }

    pub fn steady() -> (r: PatternConfig)
        ensures
            r@ == ConfigModel::steady(),
    {
        PatternConfig {
            intensity: IntensityLevel::Active,
            use_weekly_rhythm: false,
            vacation_frequency: 5_000,
            vacation_duration: (1, 2),
            spike_probability: 20_000,
            spike_multiplier: 1_200_000,
        }
    }

    pub fn sporadic() -> (r: PatternConfig)
        ensures
            r@ == ConfigModel::sporadic(),
    {
        PatternConfig {
            intensity: IntensityLevel::Active,
            use_weekly_rhythm: false,
            vacation_frequency: 20_000,
            vacation_duration: (1, 5),
            spike_probability: 150_000,
            spike_multiplier: 3_000_000,
        }
    }

    pub fn contractor() -> (r: PatternConfig)
        ensures
            r@ == ConfigModel::contractor(),
    {
        PatternConfig {
            intensity: IntensityLevel::Active,
            use_weekly_rhythm: true,
            vacation_frequency: 8_000,
            vacation_duration: (2, 4),
            spike_probability: 80_000,
            spike_multiplier: 1_400_000,
        }
    }

    /// The preset of the given name, or the error that keeps the name.
    pub fn from_name(name: &str) -> (r: Result<PatternConfig, ConfigError>)
        ensures
            match r {
                Ok(config) => ConfigModel::preset(name@) == Some(config@),
                Err(e) => {
                    &&& ConfigModel::preset(name@) is None
                    &&& e matches ConfigError::UnknownPattern(kept)
                    &&& kept@ == name@
                },
            },
    {
        if same_text(name, "casual") {
            Ok(PatternConfig::casual())
        } else if same_text(name, "active") || same_text(name, "realistic") {
            Ok(PatternConfig::active())
        } else if same_text(name, "maintainer") {
            Ok(PatternConfig::maintainer())
        } else if same_text(name, "hyperactive") {
            Ok(PatternConfig::hyperactive())
        } else if same_text(name, "extreme") {
            Ok(PatternConfig::extreme())
        } else if same_text(name, "steady") {
            Ok(PatternConfig::steady())
        } else if same_text(name, "sporadic") {
            Ok(PatternConfig::sporadic())
        } else if same_text(name, "contractor") {
            Ok(PatternConfig::contractor())
        } else {
            Err(ConfigError::UnknownPattern(String::from_str(name)))
        }
    }

    pub fn intensity(&self) -> (r: IntensityLevel)
        ensures
            r == self@.intensity,
            self@.valid(),
    {
        proof {
            use_type_invariant(self);
        }
        self.intensity
    }

    pub fn use_weekly_rhythm(&self) -> (r: bool)
        ensures
            r == self@.use_weekly_rhythm,
            self@.valid(),
    {
        proof {
            use_type_invariant(self);
        }
        self.use_weekly_rhythm
    }

    pub fn vacation_frequency(&self) -> (r: u32)
        ensures
            r == self@.vacation_frequency,
            self@.valid(),
    {
        proof {
            use_type_invariant(self);
        }
        self.vacation_frequency
    }

    pub fn vacation_duration(&self) -> (r: (u32, u32))
        ensures
            r.0 == self@.vacation_min,
            r.1 == self@.vacation_max,
            self@.valid(),
    {
        proof {
            use_type_invariant(self);
        }
        self.vacation_duration
    }

    pub fn spike_probability(&self) -> (r: u32)
        ensures
            r == self@.spike_probability,
            self@.valid(),
    {
        proof {
            use_type_invariant(self);
        }
        self.spike_probability
    }

    pub fn spike_multiplier(&self) -> (r: u32)
        ensures
            r == self@.spike_multiplier,
            self@.valid(),
    {
        proof {
            use_type_invariant(self);
        }
        self.spike_multiplier
    }
}

/// Every preset is a valid configuration, and the three legacy presets
/// differ from each other and from the five tiers.
pub proof fn lemma_presets_are_valid_and_distinct()
    ensures
        ConfigModel::casual().valid(),
        ConfigModel::active().valid(),
        ConfigModel::maintainer().valid(),
        ConfigModel::hyperactive().valid(),
        ConfigModel::extreme().valid(),
        ConfigModel::steady().valid(),
        ConfigModel::sporadic().valid(),
        ConfigModel::contractor().valid(),
        ConfigModel::steady() != ConfigModel::sporadic(),
        ConfigModel::steady() != ConfigModel::contractor(),
        ConfigModel::sporadic() != ConfigModel::contractor(),
        ConfigModel::steady() != ConfigModel::active(),
        ConfigModel::sporadic() != ConfigModel::active(),
        ConfigModel::contractor() != ConfigModel::active(),
{
}

/// Whether two strings hold the same characters.
fn same_text(a: &str, b: &str) -> (r: bool)
    ensures
        r == (a@ == b@),
{
    String::from_str(a) == String::from_str(b)
}

} // verus!
