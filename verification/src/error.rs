//! What can be wrong with a configuration.

use vstd::prelude::*;
use vstd::string::StringExecFns;

verus! {

/// Why a configuration was refused.
#[derive(Debug, PartialEq, Eq)]
pub enum ConfigError {
    /// The daily chance of a vacation is above one whole.
    VacationFrequencyOutOfRange,
    /// The shortest vacation is longer than the longest.
    VacationDurationReversed,
    /// The chance of a spike day is above one whole.
    SpikeProbabilityOutOfRange,
    /// The activity window is empty or reaches past the last hour of the day.
    ActivityWindowInvalid,
    /// No preset has the name that was asked for; the name is kept.
    UnknownPattern(String),
}

impl ConfigError {
    /// A sentence for the person who made the mistake.
    pub fn message(&self) -> (r: String)
        ensures
            r@ == self.message_text(),
    {
        match self {
            ConfigError::VacationFrequencyOutOfRange => String::from_str(
                "Configuration error: vacation frequency is above 1",
            ),
            ConfigError::VacationDurationReversed => String::from_str(
                "Configuration error: shortest vacation is longer than the longest",
            ),
            ConfigError::SpikeProbabilityOutOfRange => String::from_str(
                "Configuration error: spike probability is above 1",
            ),
            ConfigError::ActivityWindowInvalid => String::from_str(
                "Configuration error: activity window is empty or ends after hour 23",
            ),
            ConfigError::UnknownPattern(name) => String::from_str(
                "Configuration error: Unknown pattern: ",
            ).concat(name.as_str()),
        }
    }

    pub open spec fn message_text(self) -> Seq<char> {
        match self {
            ConfigError::VacationFrequencyOutOfRange =>
                "Configuration error: vacation frequency is above 1"@,
            ConfigError::VacationDurationReversed =>
                "Configuration error: shortest vacation is longer than the longest"@,
            ConfigError::SpikeProbabilityOutOfRange =>
                "Configuration error: spike probability is above 1"@,
            ConfigError::ActivityWindowInvalid =>
                "Configuration error: activity window is empty or ends after hour 23"@,
            ConfigError::UnknownPattern(name) =>
                "Configuration error: Unknown pattern: "@ + name@,
        }
    }
}

} // verus!
