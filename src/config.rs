//! Settings of one deletion run.
use vstd::prelude::*;

verus! {

/// Settings of one deletion run.
#[derive(Debug, Clone, Copy, PartialEq, Eq, Structural)]
pub struct ForceOpsConfig {
    /// The number of retries when performing an operation.
    /// For example, five retries equals six total attempts.
    pub max_retries: u32,
    /// The time to wait in milliseconds before retrying the operation.
    pub retry_delay_ms: u64,
    /// Whether to disable auto-elevation when permission errors occur.
    pub disable_elevate: bool,
}

impl ForceOpsConfig {
    /// The number of removal attempts that the retry budget allows.
    pub open spec fn total_attempts(self) -> nat {
        self.max_retries as nat + 1
    }
}

impl Default for ForceOpsConfig {
    fn default() -> (r: Self)
        ensures
            r.max_retries == 10,
            r.retry_delay_ms == 50,
            !r.disable_elevate,
    {
        ForceOpsConfig { max_retries: 10, retry_delay_ms: 50, disable_elevate: false }
    }
}

} // verus!
