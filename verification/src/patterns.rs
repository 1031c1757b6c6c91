//! The named patterns: one type for each preset, all on the one engine.

use vstd::prelude::*;
use crate::calendar::Date;
use crate::config::{ConfigModel, PatternConfig};
use crate::error::ConfigError;
use crate::events::{CommitInfo, LabelSource};
use crate::schedule::{
    ConfigurablePattern,
    EngineModel,
    Pattern,
    DEFAULT_FIRST_HOUR,
    DEFAULT_LAST_HOUR,
};

verus! {

/// The engine of a preset: its configuration and the activity window from
/// hour 6 to hour 23.
pub open spec fn preset_engine(config: ConfigModel) -> EngineModel {
    EngineModel { config, first_hour: DEFAULT_FIRST_HOUR, last_hour: DEFAULT_LAST_HOUR }
}

/// The pattern of a professional developer; the same as `ActivePattern`.
#[derive(Debug, Clone, Copy)]
pub struct RealisticPattern {
    inner: ConfigurablePattern,
}

impl RealisticPattern {
    pub fn new() -> (r: RealisticPattern)
        ensures
            r.engine() == preset_engine(ConfigModel::active()),
    {
        RealisticPattern { inner: ConfigurablePattern::new(PatternConfig::active()) }
    }
}

impl Pattern for RealisticPattern {
    closed spec fn engine(&self) -> EngineModel {
        self.inner@
    }

    fn generate(&self, start: Date, end: Date, entropy: u64, labels: &LabelSource) -> (r: Vec<
        CommitInfo,
    >) {
        self.inner.generate(start, end, entropy, labels)
    }
}

/// Even activity with hardly a break or a spike.
#[derive(Debug, Clone, Copy)]
pub struct SteadyPattern {
    inner: ConfigurablePattern,
}

impl SteadyPattern {
    pub fn new() -> (r: SteadyPattern)
        ensures
            r.engine() == preset_engine(ConfigModel::steady()),
    {
        SteadyPattern { inner: ConfigurablePattern::new(PatternConfig::steady()) }
    }
}

impl Pattern for SteadyPattern {
    closed spec fn engine(&self) -> EngineModel {
        self.inner@
    }

    fn generate(&self, start: Date, end: Date, entropy: u64, labels: &LabelSource) -> (r: Vec<
        CommitInfo,
    >) {
        self.inner.generate(start, end, entropy, labels)
    }
}

/// Irregular activity with large bursts.
#[derive(Debug, Clone, Copy)]
pub struct SporadicPattern {
    inner: ConfigurablePattern,
}

impl SporadicPattern {
    pub fn new() -> (r: SporadicPattern)
        ensures
            r.engine() == preset_engine(ConfigModel::sporadic()),
    {
        SporadicPattern { inner: ConfigurablePattern::new(PatternConfig::sporadic()) }
    }
}

impl Pattern for SporadicPattern {
    closed spec fn engine(&self) -> EngineModel {
        self.inner@
    }

    fn generate(&self, start: Date, end: Date, entropy: u64, labels: &LabelSource) -> (r: Vec<
        CommitInfo,
    >) {
        self.inner.generate(start, end, entropy, labels)
    }
}

/// Weekday work with a strong weekly rhythm.
#[derive(Debug, Clone, Copy)]
pub struct ContractorPattern {
    inner: ConfigurablePattern,
}

impl ContractorPattern {
    pub fn new() -> (r: ContractorPattern)
        ensures
            r.engine() == preset_engine(ConfigModel::contractor()),
    {
        ContractorPattern { inner: ConfigurablePattern::new(PatternConfig::contractor()) }
    }
}

impl Pattern for ContractorPattern {
    closed spec fn engine(&self) -> EngineModel {
        self.inner@
    }

    fn generate(&self, start: Date, end: Date, entropy: u64, labels: &LabelSource) -> (r: Vec<
        CommitInfo,
    >) {
        self.inner.generate(start, end, entropy, labels)
    }
}

/// The lightest tier.
#[derive(Debug, Clone, Copy)]
pub struct CasualPattern {
    inner: ConfigurablePattern,
}

impl CasualPattern {
    pub fn new() -> (r: CasualPattern)
        ensures
            r.engine() == preset_engine(ConfigModel::casual()),
    {
        CasualPattern { inner: ConfigurablePattern::new(PatternConfig::casual()) }
    }
}

impl Pattern for CasualPattern {
    closed spec fn engine(&self) -> EngineModel {
        self.inner@
    }

    fn generate(&self, start: Date, end: Date, entropy: u64, labels: &LabelSource) -> (r: Vec<
        CommitInfo,
    >) {
        self.inner.generate(start, end, entropy, labels)
    }
}

/// The second tier.
#[derive(Debug, Clone, Copy)]
pub struct ActivePattern {
    inner: ConfigurablePattern,
}

impl ActivePattern {
    pub fn new() -> (r: ActivePattern)
        ensures
            r.engine() == preset_engine(ConfigModel::active()),
    {
        ActivePattern { inner: ConfigurablePattern::new(PatternConfig::active()) }
    }
}

impl Pattern for ActivePattern {
    closed spec fn engine(&self) -> EngineModel {
        self.inner@
    }

    fn generate(&self, start: Date, end: Date, entropy: u64, labels: &LabelSource) -> (r: Vec<
        CommitInfo,
    >) {
        self.inner.generate(start, end, entropy, labels)
    }
}

/// The third tier.
#[derive(Debug, Clone, Copy)]
pub struct MaintainerPattern {
    inner: ConfigurablePattern,
}

impl MaintainerPattern {
    pub fn new() -> (r: MaintainerPattern)
        ensures
            r.engine() == preset_engine(ConfigModel::maintainer()),
    {
        MaintainerPattern { inner: ConfigurablePattern::new(PatternConfig::maintainer()) }
    }
}

impl Pattern for MaintainerPattern {
    closed spec fn engine(&self) -> EngineModel {
        self.inner@
    }

    fn generate(&self, start: Date, end: Date, entropy: u64, labels: &LabelSource) -> (r: Vec<
        CommitInfo,
    >) {
        self.inner.generate(start, end, entropy, labels)
    }
}

/// The fourth tier.
#[derive(Debug, Clone, Copy)]
pub struct HyperactivePattern {
    inner: ConfigurablePattern,
}

impl HyperactivePattern {
    pub fn new() -> (r: HyperactivePattern)
        ensures
            r.engine() == preset_engine(ConfigModel::hyperactive()),
    {
        HyperactivePattern { inner: ConfigurablePattern::new(PatternConfig::hyperactive()) }
    }
}

impl Pattern for HyperactivePattern {
    closed spec fn engine(&self) -> EngineModel {
        self.inner@
    }

    fn generate(&self, start: Date, end: Date, entropy: u64, labels: &LabelSource) -> (r: Vec<
        CommitInfo,
    >) {
        self.inner.generate(start, end, entropy, labels)
    }
}

/// The heaviest tier.
#[derive(Debug, Clone, Copy)]
pub struct ExtremePattern {
    inner: ConfigurablePattern,
}

impl ExtremePattern {
    pub fn new() -> (r: ExtremePattern)
        ensures
            r.engine() == preset_engine(ConfigModel::extreme()),
    {
        ExtremePattern { inner: ConfigurablePattern::new(PatternConfig::extreme()) }
    }
}

impl Pattern for ExtremePattern {
    closed spec fn engine(&self) -> EngineModel {
        self.inner@
    }

    fn generate(&self, start: Date, end: Date, entropy: u64, labels: &LabelSource) -> (r: Vec<
        CommitInfo,
    >) {
        self.inner.generate(start, end, entropy, labels)
    }
}

/// The engine of the preset with the given name, or the error that keeps the
/// name.
pub fn create_pattern(name: &str) -> (r: Result<ConfigurablePattern, ConfigError>)
    ensures
        match r {
            Ok(engine) => ConfigModel::preset(name@) == Some(engine@.config) && engine@
                == preset_engine(engine@.config),
            Err(e) => {
                &&& ConfigModel::preset(name@) is None
                &&& e matches ConfigError::UnknownPattern(kept)
                &&& kept@ == name@
            },
        },
{
    match PatternConfig::from_name(name) {
        Ok(config) => Ok(ConfigurablePattern::new(config)),
        Err(e) => Err(e),
    }
}

} // verus!
