//! A stochastic scheduler of activity events over a range of calendar days.
//!
//! For each day of a range the engine decides whether anything happens, how
//! much, and at what times: five tiers of intensity, a weekly rhythm,
//! vacations, spike days, and a calibrator that picks a configuration for a
//! wanted total. Probabilities and multipliers are fixed-point numbers in
//! millionths, so every rule of the model is exact integer arithmetic, and
//! every draw has an address of its own, so a schedule is a function of what
//! it is asked for.

pub mod calendar;
pub mod calibrate;
pub mod config;
pub mod error;
pub mod events;
pub mod intensity;
pub mod messages;
pub mod patterns;
pub mod plan;
pub mod report;
pub mod rhythm;
pub mod schedule;
pub mod stream;
pub mod vacation;
pub mod volume;

pub use calendar::{Date, Timestamp, Weekday};
pub use calibrate::calibrate_pattern_for_target;
pub use config::PatternConfig;
pub use error::ConfigError;
pub use events::{CommitInfo, LabelSource};
pub use intensity::IntensityLevel;
pub use patterns::{
    ActivePattern,
    CasualPattern,
    ContractorPattern,
    ExtremePattern,
    HyperactivePattern,
    MaintainerPattern,
    RealisticPattern,
    SporadicPattern,
    SteadyPattern,
};
pub use schedule::{ConfigurablePattern, Pattern};
