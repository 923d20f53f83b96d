//! The configuration of a pipeline: its stages and how each is retried.

use vstd::prelude::*;
use vstd::string::StringExecFns;

verus! {

/// How often a failing stage is tried, and how long to wait in between.
#[derive(Debug, Clone, Copy, PartialEq, Eq, Structural)]
pub struct RetryConfig {
    /// The largest number of attempts.
    pub max_attempts: u32,
    /// The pause between two attempts, in milliseconds.
    pub delay_ms: u64,
}

/// The configuration of one stage.
#[derive(Debug, Clone)]
pub struct StepConfig {
    pub name: String,
    /// A stage that is not enabled is left out.
    pub enabled: bool,
    pub retry: Option<RetryConfig>,
    /// Declared, and not enforced by the engine.
    pub timeout_secs: Option<u64>,
}

/// The stages of a pipeline, in order.
#[derive(Debug, Clone)]
pub struct WorkflowConfig {
    pub steps: Vec<StepConfig>,
}

/// `a` and `b` configure a stage in the same way.
pub open spec fn same_config(a: StepConfig, b: StepConfig) -> bool {
    &&& a.name@ == b.name@
    &&& a.enabled == b.enabled
    &&& a.retry == b.retry
    &&& a.timeout_secs == b.timeout_secs
}

impl StepConfig {
    /// A copy of the configuration.
    pub fn duplicate(&self) -> (r: StepConfig)
        ensures
            same_config(r, *self),
    {
        StepConfig {
            name: self.name.clone(),
            enabled: self.enabled,
            retry: self.retry,
            timeout_secs: self.timeout_secs,
        }
    }

    /// An enabled stage called `name` that is tried up to `max_attempts`
    /// times, `delay_ms` milliseconds apart, with the timeout `timeout_secs`.
    pub fn retried(name: &str, max_attempts: u32, delay_ms: u64, timeout_secs: u64) -> (r: StepConfig)
        ensures
            is_retried(r, name@, max_attempts, delay_ms, timeout_secs),
    {
        StepConfig {
            name: String::from_str(name),
            enabled: true,
            retry: Some(RetryConfig { max_attempts, delay_ms }),
            timeout_secs: Some(timeout_secs),
        }
    }
}

/// `config` is an enabled stage called `name` that is tried up to
/// `max_attempts` times, `delay_ms` milliseconds apart, with the timeout
/// `timeout_secs`.
pub open spec fn is_retried(
    config: StepConfig,
    name: Seq<char>,
    max_attempts: u32,
    delay_ms: u64,
    timeout_secs: u64,
) -> bool {
    &&& config.name@ == name
    &&& config.enabled
    &&& config.retry == Some(RetryConfig { max_attempts, delay_ms })
    &&& config.timeout_secs == Some(timeout_secs)
}

/// `config` is the stage at index `i` of the standard pipeline.
pub open spec fn is_standard_step(config: StepConfig, i: int) -> bool {
    if i == 0 {
        is_retried(config, "configuration_loading"@, 3, 1000, 10)
    } else if i == 1 {
        is_retried(config, "json_generation"@, 3, 1000, 30)
    } else if i == 2 {
        is_retried(config, "endpoint_matching"@, 2, 500, 20)
    } else {
        i == 3 && is_retried(config, "field_matching"@, 2, 500, 20)
    }
}

impl WorkflowConfig {
    /// The pipeline of a request: the configuration is loaded, the fields are
    /// extracted, the endpoint is chosen and the fields are matched. The
    /// first two stages are tried up to 3 times, 1000 ms apart, the other two
    /// up to 2 times, 500 ms apart.
    pub fn standard() -> (r: WorkflowConfig)
        ensures
            r.steps@.len() == 4,
            forall|i: int| 0 <= i < 4 ==> is_standard_step(#[trigger] r.steps@[i], i),
    {
        let mut steps: Vec<StepConfig> = Vec::new();
        steps.push(StepConfig::retried("configuration_loading", 3, 1000, 10));
        steps.push(StepConfig::retried("json_generation", 3, 1000, 30));
        steps.push(StepConfig::retried("endpoint_matching", 2, 500, 20));
        steps.push(StepConfig::retried("field_matching", 2, 500, 20));
        WorkflowConfig { steps }
    }
}

} // verus!
